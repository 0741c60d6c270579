use vstd::prelude::*;
use vstd::string::StringExecFns;

verus! {

/// Display preferences of the simulator's front end.
#[derive(Debug, Clone)]
pub struct Config {
    pub display: DisplayConfig,
    pub theme: ThemeConfig,
    pub display_base: DisplayBaseConfig,
}

/// How much of program memory is shown.
#[derive(Debug, Clone)]
pub struct DisplayConfig {
    pub memory_bytes_per_row: usize,
    pub memory_bytes_per_column: usize,
}

/// The colour theme, by name ("Light", "Dark", or anything else for the system's).
#[derive(Debug, Clone)]
pub struct ThemeConfig {
    pub mode: String,
}

/// A number base for showing bytes.
#[derive(Debug, Clone, Copy, PartialEq, Eq, Structural)]
pub enum DisplayBase {
    Binary,
    Decimal,
    Hexadecimal,
}

/// The base used for each view.
#[derive(Debug, Clone)]
pub struct DisplayBaseConfig {
    pub registers: DisplayBase,
    pub stack: DisplayBase,
}

/// The name of a base as shown to the user.
pub open spec fn base_name(b: DisplayBase) -> Seq<char> {
    match b {
        DisplayBase::Binary => "Binary"@,
        DisplayBase::Decimal => "Decimal"@,
        DisplayBase::Hexadecimal => "Hexadecimal"@,
    }
}

impl DisplayBase {
    /// The name of the base, for display.
    pub fn name(&self) -> (r: &'static str)
        ensures
            r@ == base_name(*self),
    {
        match self {
            DisplayBase::Binary => "Binary",
            DisplayBase::Decimal => "Decimal",
            DisplayBase::Hexadecimal => "Hexadecimal",
        }
    }
}

impl Default for Config {
    /// Eight bytes per row, 128 bytes either side of the program counter, the
    /// dark theme, registers in decimal and the stack in hexadecimal.
    fn default() -> (r: Self)
        ensures
            r.display.memory_bytes_per_row == 8,
            r.display.memory_bytes_per_column == 128,
            r.theme.mode@ == "Dark"@,
            r.display_base.registers == DisplayBase::Decimal,
            r.display_base.stack == DisplayBase::Hexadecimal,
    {
        Config {
            display: DisplayConfig { memory_bytes_per_row: 8, memory_bytes_per_column: 128 },
            theme: ThemeConfig { mode: String::from_str("Dark") },
            display_base: DisplayBaseConfig {
                registers: DisplayBase::Decimal,
                stack: DisplayBase::Hexadecimal,
            },
        }
    }
}

} // verus!
