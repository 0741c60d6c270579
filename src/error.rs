use vstd::prelude::*;

verus! {

/// Why a program image could not be loaded.
#[derive(Debug, Clone, Copy, PartialEq, Eq, Structural)]
pub enum LoaderError {
    /// The image is larger than program memory.
    CapacityExceeded,
    /// A hex line is not a well-formed record.
    MalformedRecord,
    /// A hex record has a type other than data or end-of-file.
    UnsupportedRecordType,
    /// A data record would place a byte outside program memory.
    AddressOutOfRange,
}

/// Why a step of the processor could not be carried out.
#[derive(Debug, Clone, Copy, PartialEq, Eq, Structural)]
pub enum ExecutionError {
    /// The opcode matches no known instruction pattern.
    UnknownOpcode,
    /// The instruction is recognized but has no execution semantics.
    UnsupportedInstruction,
}

} // verus!
