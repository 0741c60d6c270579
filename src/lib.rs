//! An instruction-set simulator for a small subset of an 8-bit AVR
//! microcontroller (ATmega16 layout), with loaders for flat binary and
//! Intel-HEX program images.

pub mod alu;
pub mod config;
pub mod display;
pub mod error;
pub mod hex;
pub mod instruction;
pub mod laws;
pub mod loader;
pub mod memory;

pub use config::{Config, DisplayBase, DisplayBaseConfig, DisplayConfig, ThemeConfig};
pub use error::{ExecutionError, LoaderError};
pub use hex::HexRecord;
pub use instruction::{decode, Instruction};
pub use memory::ATmemory;
