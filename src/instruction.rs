use vstd::prelude::*;
use vstd::string::StringExecFns;

use crate::error::ExecutionError;

verus! {

/// A decoded instruction with its operands resolved.
#[derive(Debug, Clone, Copy, PartialEq, Eq, Structural)]
pub enum Instruction {
    /// Add without carry: `dest <- dest + src`.
    Add { dest: u8, src: u8 },
    /// Clear the carry flag.
    Clc,
    /// Decrement a register.
    Dec { reg: u8 },
    /// Increment a register.
    Inc { reg: u8 },
    /// Load an 8-bit immediate into one of the upper sixteen registers.
    Ldi { dest: u8, value: u8 },
    /// No operation.
    Nop,
    /// Relative call; the offset counts words from the next instruction.
    Rcall { offset: i16 },
    /// Return from subroutine.
    Ret,
    /// Return from interrupt.
    Reti,
    /// Relative jump; the offset counts words from the next instruction.
    Rjmp { offset: i16 },
    /// Set the carry flag.
    Sec,
    /// Subtract without carry: `dest <- dest - src`.
    Sub { dest: u8, src: u8 },
}

/// The lowest and highest word offsets of a relative jump or call (12-bit two's complement).
pub const MIN_OFFSET: i16 = -2048;
pub const MAX_OFFSET: i16 = 2047;

impl Instruction {
    /// Register operands name one of the 32 registers, a load-immediate
    /// targets the upper half of the register file, and relative offsets fit
    /// in 12 bits.
    pub open spec fn well_formed(self) -> bool {
        match self {
            Instruction::Add { dest, src } => dest < 32 && src < 32,
            Instruction::Sub { dest, src } => dest < 32 && src < 32,
            Instruction::Dec { reg } => reg < 32,
            Instruction::Inc { reg } => reg < 32,
            Instruction::Ldi { dest, value } => 16 <= dest < 32,
            Instruction::Rcall { offset } => MIN_OFFSET <= offset <= MAX_OFFSET,
            Instruction::Rjmp { offset } => MIN_OFFSET <= offset <= MAX_OFFSET,
            _ => true,
        }
    }
}

/// The five-bit destination register field, bits 4 to 8.
pub open spec fn field_d5(op: u16) -> u8 {
    ((op >> 4u16) & 0x1F) as u8
}

/// The five-bit source register field: bit 9 on top of bits 0 to 3.
pub open spec fn field_r5(op: u16) -> u8 {
    (((op >> 5u16) & 0x10) | (op & 0x0F)) as u8
}

/// The destination of a load-immediate: bits 4 to 7 select among registers 16 to 31.
pub open spec fn field_d4(op: u16) -> u8 {
    (0x10 | ((op >> 4u16) & 0x0F)) as u8
}

/// The eight-bit immediate: bits 8 to 11 on top of bits 0 to 3.
pub open spec fn field_k8(op: u16) -> u8 {
    (((op >> 4u16) & 0xF0) | (op & 0x0F)) as u8
}

/// The twelve-bit word offset in bits 0 to 11, sign-extended.
pub open spec fn field_k12(op: u16) -> i16 {
    let k = (op & 0x0FFF) as int;
    if k >= 2048 {
        (k - 4096) as i16
    } else {
        k as i16
    }
}

/// What an opcode means: each pattern is a mask and the value that the
/// masked opcode must equal.
pub open spec fn decode_spec(op: u16) -> Result<Instruction, ExecutionError> {
    if op == 0x0000 {
        Ok(Instruction::Nop)
    } else if op & 0xFC00 == 0x1800 {
        Ok(Instruction::Sub { dest: field_d5(op), src: field_r5(op) })
    } else if op & 0xF000 == 0xE000 {
        Ok(Instruction::Ldi { dest: field_d4(op), value: field_k8(op) })
    } else if op & 0xFC00 == 0x0C00 {
        Ok(Instruction::Add { dest: field_d5(op), src: field_r5(op) })
    } else if op == 0x4A08 {
        Ok(Instruction::Sec)
    } else if op & 0xFE0F == 0x9403 {
        Ok(Instruction::Inc { reg: field_d5(op) })
    } else if op & 0xFE0F == 0x940A {
        Ok(Instruction::Dec { reg: field_d5(op) })
    } else if op == 0x9488 {
        Ok(Instruction::Clc)
    } else if op == 0x9508 {
        Ok(Instruction::Ret)
    } else if op == 0x9518 {
        Ok(Instruction::Reti)
    } else if op & 0xF000 == 0xC000 {
        Ok(Instruction::Rjmp { offset: field_k12(op) })
    } else if op & 0xF000 == 0xD000 {
        Ok(Instruction::Rcall { offset: field_k12(op) })
    } else {
        Err(ExecutionError::UnknownOpcode)
    }
}

proof fn lemma_fields_in_range(op: u16)
    ensures
        field_d5(op) < 32,
        field_r5(op) < 32,
        16 <= field_d4(op) < 32,
        (op & 0x0FFF) < 4096,
{
    assert(((op >> 4u16) & 0x1F) < 32) by (bit_vector);
    assert((((op >> 5u16) & 0x10) | (op & 0x0F)) < 32) by (bit_vector);
    assert(16 <= (0x10 | ((op >> 4u16) & 0x0F)) < 32) by (bit_vector);
    assert((op & 0x0FFF) < 4096) by (bit_vector);
}

fn d5(op: u16) -> (r: u8)
    ensures
        r == field_d5(op),
        r < 32,
{
    proof {
        lemma_fields_in_range(op);
    }
    ((op >> 4u16) & 0x1F) as u8
}

fn r5(op: u16) -> (r: u8)
    ensures
        r == field_r5(op),
        r < 32,
{
    proof {
        lemma_fields_in_range(op);
    }
    (((op >> 5u16) & 0x10) | (op & 0x0F)) as u8
}

fn k12(op: u16) -> (r: i16)
    ensures
        r == field_k12(op),
        MIN_OFFSET <= r <= MAX_OFFSET,
{
    proof {
        lemma_fields_in_range(op);
    }
    let k: i16 = (op & 0x0FFF) as i16;
    if k >= 2048 {
        k - 4096
    } else {
        k
    }
}

/// Decodes a 16-bit opcode; the result is exactly `decode_spec(opcode)`.
pub fn decode(opcode: u16) -> (r: Result<Instruction, ExecutionError>)
    ensures
        r == decode_spec(opcode),
        r is Ok ==> r->Ok_0.well_formed(),
{
    proof {
        lemma_fields_in_range(opcode);
    }
    let x = opcode;
    if x == 0x0000 {
        Ok(Instruction::Nop)
    } else if x & 0xFC00 == 0x1800 {
        Ok(Instruction::Sub { dest: d5(x), src: r5(x) })
    } else if x & 0xF000 == 0xE000 {
        let dest = (0x10 | ((x >> 4u16) & 0x0F)) as u8;
        let value = (((x >> 4u16) & 0xF0) | (x & 0x0F)) as u8;
        Ok(Instruction::Ldi { dest, value })
    } else if x & 0xFC00 == 0x0C00 {
        Ok(Instruction::Add { dest: d5(x), src: r5(x) })
    } else if x == 0x4A08 {
        Ok(Instruction::Sec)
    } else if x & 0xFE0F == 0x9403 {
        Ok(Instruction::Inc { reg: d5(x) })
    } else if x & 0xFE0F == 0x940A {
        Ok(Instruction::Dec { reg: d5(x) })
    } else if x == 0x9488 {
        Ok(Instruction::Clc)
    } else if x == 0x9508 {
        Ok(Instruction::Ret)
    } else if x == 0x9518 {
        Ok(Instruction::Reti)
    } else if x & 0xF000 == 0xC000 {
        Ok(Instruction::Rjmp { offset: k12(x) })
    } else if x & 0xF000 == 0xD000 {
        Ok(Instruction::Rcall { offset: k12(x) })
    } else {
        Err(ExecutionError::UnknownOpcode)
    }
}

/// The text of a decimal digit.
pub open spec fn digit_text(d: nat) -> Seq<char> {
    if d == 0 {
        "0"@
    } else if d == 1 {
        "1"@
    } else if d == 2 {
        "2"@
    } else if d == 3 {
        "3"@
    } else if d == 4 {
        "4"@
    } else if d == 5 {
        "5"@
    } else if d == 6 {
        "6"@
    } else if d == 7 {
        "7"@
    } else if d == 8 {
        "8"@
    } else {
        "9"@
    }
}

/// `n` written in decimal, without leading zeros.
pub open spec fn decimal(n: nat) -> Seq<char>
    decreases n,
{
    if n < 10 {
        digit_text(n)
    } else {
        decimal(n / 10) + digit_text(n % 10)
    }
}

/// `v` written in decimal, with a minus sign when negative.
pub open spec fn signed_decimal(v: int) -> Seq<char> {
    if v < 0 {
        "-"@ + decimal((-v) as nat)
    } else {
        decimal(v as nat)
    }
}

/// How an instruction is shown: its mnemonic and its named operands.
pub open spec fn mnemonic_spec(ins: Instruction) -> Seq<char> {
    match ins {
        Instruction::Add { dest, src } => "ADD { dest: "@ + decimal(dest as nat) + ", src: "@ + decimal(
            src as nat,
        ) + " }"@,
        Instruction::Clc => "CLC"@,
        Instruction::Dec { reg } => "DEC { reg: "@ + decimal(reg as nat) + " }"@,
        Instruction::Inc { reg } => "INC { reg: "@ + decimal(reg as nat) + " }"@,
        Instruction::Ldi { dest, value } => "LDI { dest: "@ + decimal(dest as nat) + ", value: "@
            + decimal(value as nat) + " }"@,
        Instruction::Nop => "NOP"@,
        Instruction::Rcall { offset } => "RCALL { offset: "@ + signed_decimal(offset as int) + " }"@,
        Instruction::Ret => "RET"@,
        Instruction::Reti => "RETI"@,
        Instruction::Rjmp { offset } => "RJMP { offset: "@ + signed_decimal(offset as int) + " }"@,
        Instruction::Sec => "SEC"@,
        Instruction::Sub { dest, src } => "SUB { dest: "@ + decimal(dest as nat) + ", src: "@ + decimal(
            src as nat,
        ) + " }"@,
    }
}

fn digit_str(d: u16) -> (r: &'static str)
    requires
        d < 10,
    ensures
        r@ == digit_text(d as nat),
{
    if d == 0 {
        "0"
    } else if d == 1 {
        "1"
    } else if d == 2 {
        "2"
    } else if d == 3 {
        "3"
    } else if d == 4 {
        "4"
    } else if d == 5 {
        "5"
    } else if d == 6 {
        "6"
    } else if d == 7 {
        "7"
    } else if d == 8 {
        "8"
    } else {
        "9"
    }
}

fn push_decimal(s: &mut String, n: u16)
    ensures
        final(s)@ == old(s)@ + decimal(n as nat),
    decreases n,
{
    if n >= 10 {
        push_decimal(s, n / 10);
    }
    s.append(digit_str(n % 10));
    assert(final(s)@ =~= old(s)@ + decimal(n as nat));
}

fn push_signed(s: &mut String, v: i16)
    ensures
        final(s)@ == old(s)@ + signed_decimal(v as int),
{
    if v < 0 {
        s.append("-");
        push_decimal(s, (0 - v as i32) as u16);
        assert(final(s)@ =~= old(s)@ + signed_decimal(v as int));
    } else {
        push_decimal(s, v as u16);
    }
}

impl Instruction {
    /// The instruction as text, for display.
    pub fn mnemonic(&self) -> (r: String)
        ensures
            r@ == mnemonic_spec(*self),
    {
        match *self {
            Instruction::Add { dest, src } => {
                let mut s = String::from_str("ADD { dest: ");
                push_decimal(&mut s, dest as u16);
                s.append(", src: ");
                push_decimal(&mut s, src as u16);
                s.append(" }");
                s
            },
            Instruction::Clc => String::from_str("CLC"),
            Instruction::Dec { reg } => {
                let mut s = String::from_str("DEC { reg: ");
                push_decimal(&mut s, reg as u16);
                s.append(" }");
                s
            },
            Instruction::Inc { reg } => {
                let mut s = String::from_str("INC { reg: ");
                push_decimal(&mut s, reg as u16);
                s.append(" }");
                s
            },
            Instruction::Ldi { dest, value } => {
                let mut s = String::from_str("LDI { dest: ");
                push_decimal(&mut s, dest as u16);
                s.append(", value: ");
                push_decimal(&mut s, value as u16);
                s.append(" }");
                s
            },
            Instruction::Nop => String::from_str("NOP"),
            Instruction::Rcall { offset } => {
                let mut s = String::from_str("RCALL { offset: ");
                push_signed(&mut s, offset);
                s.append(" }");
                s
            },
            Instruction::Ret => String::from_str("RET"),
            Instruction::Reti => String::from_str("RETI"),
            Instruction::Rjmp { offset } => {
                let mut s = String::from_str("RJMP { offset: ");
                push_signed(&mut s, offset);
                s.append(" }");
                s
            },
            Instruction::Sec => String::from_str("SEC"),
            Instruction::Sub { dest, src } => {
                let mut s = String::from_str("SUB { dest: ");
                push_decimal(&mut s, dest as u16);
                s.append(", src: ");
                push_decimal(&mut s, src as u16);
                s.append(" }");
                s
            },
        }
    }
}

} // verus!
