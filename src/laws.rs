use vstd::prelude::*;

use crate::alu::{
    add8, add_carry, add_half_carry, add_overflow, bit_of, lemma_add_carry_iff_wraps,
    lemma_arith_status_carry, FLAG_C,
};
use crate::error::ExecutionError;
use crate::instruction::{decode_spec, Instruction, MAX_OFFSET, MIN_OFFSET};
use crate::loader::{lemma_load_is_overlay, load_hex_spec, load_writes, overlay};
use crate::memory::{
    erased, execute_spec, fetch_spec, next_pc, pop_sp, push_sp, step_spec, CpuState, FLASH_SIZE,
};

verus! {

/// The all-zero opcode is the no-operation; executing it moves the program
/// counter to the next instruction and changes nothing else.
pub proof fn lemma_nop_only_advances(s: CpuState)
    requires
        s.well_formed(),
        s.pc + 2 < FLASH_SIZE,
    ensures
        decode_spec(0) == Ok::<Instruction, ExecutionError>(Instruction::Nop),
        execute_spec(s, Instruction::Nop) == (CpuState { pc: (s.pc + 2) as u16, ..s }),
        fetch_spec(s) == 0 ==> step_spec(s) == Ok::<CpuState, ExecutionError>(
            CpuState { pc: (s.pc + 2) as u16, ..s },
        ),
{
}

/// Loading `a` into register `r`, then `b` into another register `r2`, then
/// adding `r2` into `r` leaves `(a + b) mod 256` in `r`, with the carry flag
/// set exactly when the unsigned sum exceeds 255.
pub proof fn lemma_load_load_add(s: CpuState, r: u8, r2: u8, a: u8, b: u8)
    requires
        s.well_formed(),
        16 <= r < 32,
        16 <= r2 < 32,
        r != r2,
    ensures
        ({
            let s1 = execute_spec(s, Instruction::Ldi { dest: r, value: a });
            let s2 = execute_spec(s1, Instruction::Ldi { dest: r2, value: b });
            let s3 = execute_spec(s2, Instruction::Add { dest: r, src: r2 });
            &&& s3.reg(r as int) == (a + b) % 256
            &&& (s3.sreg & FLAG_C != 0) <==> a + b > 255
        }),
{
    let s1 = execute_spec(s, Instruction::Ldi { dest: r, value: a });
    let s2 = execute_spec(s1, Instruction::Ldi { dest: r2, value: b });
    assert(s2.reg(r as int) == a);
    assert(s2.reg(r2 as int) == b);
    lemma_add_carry_iff_wraps(a, b);
    let sum = add8(a, b);
    lemma_arith_status_carry(
        s2.sreg,
        add_half_carry(a, b, sum),
        add_overflow(a, b, sum),
        bit_of(sum, 7),
        sum == 0,
        add_carry(a, b, sum),
    );
}

/// A relative call, then any instructions that leave the stack pointer and
/// data memory as the call left them (`between` is the state they reach),
/// then a return: execution comes back to the instruction after the call,
/// with the stack pointer where it was before the call. With nothing in
/// between, `between` is the state right after the call.
pub proof fn lemma_call_return_round_trip(s: CpuState, offset: i16, between: CpuState)
    requires
        s.well_formed(),
        MIN_OFFSET <= offset <= MAX_OFFSET,
        between.sp == execute_spec(s, Instruction::Rcall { offset }).sp,
        between.data == execute_spec(s, Instruction::Rcall { offset }).data,
    ensures
        ({
            let back = execute_spec(between, Instruction::Ret);
            &&& back.pc == next_pc(s.pc)
            &&& back.sp == s.sp
        }),
{
    let ret = next_pc(s.pc);
    let sp1 = push_sp(s.sp);
    let sp2 = push_sp(sp1);
    assert(sp1 != sp2);
    assert(pop_sp(sp2) == sp1);
    assert(pop_sp(sp1) == s.sp);
    assert(between.data[sp2 as int] == ret / 256);
    assert(between.data[sp1 as int] == ret % 256);
    assert(ret % 2 == 0 && ret < FLASH_SIZE);
    assert((ret / 256) * 256 + ret % 256 == ret);
    assert(((ret / 2) % 8192) * 2 == ret);
}

/// Loading the same hex text twice, with program memory erased before each
/// load, gives the same program memory both times.
pub proof fn lemma_hex_reload_after_erase(s: CpuState, t: Seq<u8>)
    requires
        s.well_formed(),
    ensures
        ({
            let first = CpuState { flash: load_hex_spec(erased(s).flash, t).0, ..erased(s) };
            let second = CpuState { flash: load_hex_spec(erased(first).flash, t).0, ..erased(first) };
            second.flash == first.flash
        }),
{
}

/// Loading the same hex text a second time changes nothing: the program
/// memory and the result are those of the first load.
pub proof fn lemma_hex_load_idempotent(flash: Seq<u8>, t: Seq<u8>)
    ensures
        load_hex_spec(load_hex_spec(flash, t).0, t) == load_hex_spec(flash, t),
{
    let w = load_writes(t, 0, 0, flash.len()).0;
    lemma_load_is_overlay(flash, t, 0, 0);
    let once = overlay(flash, w);
    lemma_load_is_overlay(once, t, 0, 0);
    assert(overlay(once, w) =~= once);
}

} // verus!
