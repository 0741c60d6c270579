use vstd::prelude::*;

use crate::alu::{
    add8, add_status, add_with_status, step_status, step_with_status, sub8, sub_status,
    sub_with_status, FLAG_C, FLAG_I,
};
use crate::error::{ExecutionError, LoaderError};
use crate::instruction::{decode, decode_spec, mnemonic_spec, Instruction};

verus! {

/// Bytes of program memory (flash).
pub const FLASH_SIZE: usize = 16384;

/// Words of program memory; the program counter wraps around at this many words.
pub const FLASH_WORDS: usize = 8192;

/// Bytes of data memory (the internal SRAM), which the stack pointer addresses directly.
pub const DATA_SIZE: usize = 1024;

/// Number of general-purpose registers.
pub const REGISTER_COUNT: usize = 32;

/// The highest data address: the stack pointer after initialization.
pub const STACK_TOP: u16 = 0x3FF;

/// The mathematical state of the processor.
pub struct CpuState {
    pub sreg: u8,
    /// Byte address of the next instruction in program memory.
    pub pc: u16,
    /// Data address of the top of the stack.
    pub sp: u16,
    /// The 32 general-purpose registers.
    pub registers: Seq<u8>,
    pub flash: Seq<u8>,
    /// Data memory, where the stack lives.
    pub data: Seq<u8>,
}

impl CpuState {
    /// The register file and the memories have their fixed sizes, the program
    /// counter is an even address inside program memory and the stack pointer
    /// a data address.
    pub open spec fn well_formed(self) -> bool {
        &&& self.registers.len() == REGISTER_COUNT
        &&& self.flash.len() == FLASH_SIZE
        &&& self.data.len() == DATA_SIZE
        &&& self.pc < FLASH_SIZE
        &&& self.pc % 2 == 0
        &&& self.sp <= STACK_TOP
    }

    /// The contents of register `r`.
    pub open spec fn reg(self, r: int) -> u8 {
        self.registers[r]
    }
}

/// A memory of `n` zero bytes.
pub open spec fn zeros(n: nat) -> Seq<u8> {
    Seq::new(n, |i: int| 0u8)
}

/// `mem` with `bytes` written from address `at` on; bytes that would fall past
/// the end are dropped.
pub open spec fn place(mem: Seq<u8>, at: int, bytes: Seq<u8>) -> Seq<u8> {
    Seq::new(mem.len(), |i: int| if at <= i < at + bytes.len() { bytes[i - at] } else { mem[i] })
}

/// The state of a processor that was just switched on.
pub open spec fn initial_state() -> CpuState {
    CpuState {
        sreg: 0,
        pc: 0,
        sp: STACK_TOP,
        registers: zeros(REGISTER_COUNT as nat),
        flash: zeros(FLASH_SIZE as nat),
        data: zeros(DATA_SIZE as nat),
    }
}

/// `s` with program memory zeroed and the program counter at 0.
pub open spec fn erased(s: CpuState) -> CpuState {
    CpuState { flash: zeros(FLASH_SIZE as nat), pc: 0, ..s }
}

/// The address of the instruction after the one at `pc`.
pub open spec fn next_pc(pc: u16) -> u16 {
    ((pc + 2) % (FLASH_SIZE as int)) as u16
}

/// Target of a relative jump or call at `pc`: `offset` words from the next
/// instruction, wrapping around program memory.
pub open spec fn relative_target(pc: u16, offset: i16) -> u16 {
    (((pc / 2 + offset + 1) % (FLASH_WORDS as int)) * 2) as u16
}

/// A return address taken from the stack, brought to an even address inside
/// program memory.
pub open spec fn code_address(a: int) -> u16 {
    (((a / 2) % (FLASH_WORDS as int)) * 2) as u16
}

/// The stack pointer moved down by `amount` (up when it is negative) in
/// 16-bit arithmetic, then brought back into data memory: one step below 0
/// (0xFFFF) becomes the top, any other value past the top becomes 0.
pub open spec fn shrunk_sp(sp: u16, amount: i16) -> u16 {
    let w = (sp - amount) % 0x10000;
    if w == 0xFFFF {
        STACK_TOP
    } else if w > STACK_TOP {
        0
    } else {
        w as u16
    }
}

/// The stack pointer after a push: one lower, from 0 back to the top.
pub open spec fn push_sp(sp: u16) -> u16 {
    shrunk_sp(sp, 1i16)
}

/// The stack pointer after a pop: one higher, from the top back to 0.
pub open spec fn pop_sp(sp: u16) -> u16 {
    shrunk_sp(sp, -1i16)
}

/// The opcode at the program counter, low byte first.
pub open spec fn fetch_spec(s: CpuState) -> u16 {
    (s.flash[s.pc as int + 1] * 256 + s.flash[s.pc as int]) as u16
}

/// `s` with register `r` set to `v`, the status set to `sreg` and the
/// program counter advanced.
pub open spec fn write_and_advance(s: CpuState, r: int, v: u8, sreg: u8) -> CpuState {
    CpuState { registers: s.registers.update(r, v), sreg, pc: next_pc(s.pc), ..s }
}

/// The return address on top of the stack: high byte at `sp`, low byte above it.
pub open spec fn popped_address(s: CpuState) -> int {
    s.data[s.sp as int] * 256 + s.data[pop_sp(s.sp) as int]
}

/// The state after executing `ins` in `s`.
pub open spec fn execute_spec(s: CpuState, ins: Instruction) -> CpuState {
    match ins {
        Instruction::Add { dest, src } => write_and_advance(
            s,
            dest as int,
            add8(s.reg(dest as int), s.reg(src as int)),
            add_status(s.sreg, s.reg(dest as int), s.reg(src as int)),
        ),
        Instruction::Sub { dest, src } => write_and_advance(
            s,
            dest as int,
            sub8(s.reg(dest as int), s.reg(src as int)),
            sub_status(s.sreg, s.reg(dest as int), s.reg(src as int)),
        ),
        Instruction::Inc { reg } => {
            let r = add8(s.reg(reg as int), 1);
            write_and_advance(s, reg as int, r, step_status(s.sreg, r, 0x80))
        },
        Instruction::Dec { reg } => {
            let r = sub8(s.reg(reg as int), 1);
            write_and_advance(s, reg as int, r, step_status(s.sreg, r, 0x7F))
        },
        Instruction::Ldi { dest, value } => write_and_advance(s, dest as int, value, s.sreg),
        Instruction::Clc => CpuState { sreg: s.sreg & !FLAG_C, pc: next_pc(s.pc), ..s },
        Instruction::Sec => CpuState { sreg: s.sreg | FLAG_C, pc: next_pc(s.pc), ..s },
        Instruction::Nop => CpuState { pc: next_pc(s.pc), ..s },
        Instruction::Rcall { offset } => {
            let ret = next_pc(s.pc);
            let sp1 = push_sp(s.sp);
            let sp2 = push_sp(sp1);
            CpuState {
                data: s.data.update(sp1 as int, (ret % 256) as u8).update(sp2 as int, (ret / 256) as u8),
                sp: sp2,
                pc: relative_target(s.pc, offset),
                ..s
            }
        },
        Instruction::Ret => CpuState {
            sp: pop_sp(pop_sp(s.sp)),
            pc: code_address(popped_address(s)),
            ..s
        },
        Instruction::Reti => CpuState {
            sp: pop_sp(pop_sp(s.sp)),
            pc: code_address(popped_address(s)),
            sreg: s.sreg | FLAG_I,
            ..s
        },
        Instruction::Rjmp { offset } => CpuState { pc: relative_target(s.pc, offset), ..s },
    }
}

/// One fetch-decode-execute cycle from `s`.
pub open spec fn step_spec(s: CpuState) -> Result<CpuState, ExecutionError> {
    match decode_spec(fetch_spec(s)) {
        Ok(ins) => Ok(execute_spec(s, ins)),
        Err(e) => Err(e),
    }
}

/// The processor: register file, status register, program counter, stack
/// pointer, program memory and data memory.
#[derive(Debug)]
pub struct ATmemory {
    registers: Vec<u8>,
    sreg: u8,
    pc: u16,
    sp: u16,
    flash: Vec<u8>,
    sram: Vec<u8>,
}

impl View for ATmemory {
    type V = CpuState;

    closed spec fn view(&self) -> CpuState {
        CpuState {
            sreg: self.sreg,
            pc: self.pc,
            sp: self.sp,
            registers: self.registers@,
            flash: self.flash@,
            data: self.sram@,
        }
    }
}

fn zeroed(n: usize) -> (v: Vec<u8>)
    ensures
        v@ == zeros(n as nat),
{
    let mut v: Vec<u8> = Vec::new();
    let mut i: usize = 0;
    while i < n
        invariant
            i <= n,
            v@ == zeros(i as nat),
        decreases n - i,
    {
        v.push(0);
        i = i + 1;
        assert(v@ =~= zeros(i as nat));
    }
    v
}

fn advance(pc: u16) -> (r: u16)
    requires
        pc < FLASH_SIZE,
        pc % 2 == 0,
    ensures
        r == next_pc(pc),
        r < FLASH_SIZE,
        r % 2 == 0,
{
    if pc + 2 >= FLASH_SIZE as u16 {
        0
    } else {
        pc + 2
    }
}

fn relative(pc: u16, offset: i16) -> (r: u16)
    requires
        pc < FLASH_SIZE,
        -2048 <= offset <= 2047,
    ensures
        r == relative_target(pc, offset),
        r < FLASH_SIZE,
        r % 2 == 0,
{
    let w: i32 = (pc / 2) as i32 + offset as i32 + 1;
    let t: i32 = (w + FLASH_WORDS as i32) % FLASH_WORDS as i32;
    proof {
        vstd::arithmetic::div_mod::lemma_mod_add_multiples_vanish(w as int, FLASH_WORDS as int);
    }
    (t * 2) as u16
}

fn return_address(hi: u8, lo: u8) -> (r: u16)
    ensures
        r == code_address(hi * 256 + lo),
        r < FLASH_SIZE,
        r % 2 == 0,
{
    let a: u16 = hi as u16 * 256 + lo as u16;
    ((a / 2) % FLASH_WORDS as u16) * 2
}

impl ATmemory {
    /// A freshly switched-on processor: everything zero, the stack pointer at the top.
    pub fn init() -> (r: Self)
        ensures
            r@ == initial_state(),
            r@.well_formed(),
    {
        ATmemory {
            registers: zeroed(REGISTER_COUNT),
            sreg: 0,
            pc: 0,
            sp: STACK_TOP,
            flash: zeroed(FLASH_SIZE),
            sram: zeroed(DATA_SIZE),
        }
    }

    fn set_flag(&mut self, mask: u8)
        ensures
            final(self)@ == (CpuState { sreg: old(self)@.sreg | mask, ..old(self)@ }),
    {
        self.sreg = self.sreg | mask;
    }

    fn clear_flag(&mut self, mask: u8)
        ensures
            final(self)@ == (CpuState { sreg: old(self)@.sreg & !mask, ..old(self)@ }),
    {
        self.sreg = self.sreg & !mask;
    }

    fn read_memory(&self, addr: u16) -> (r: u8)
        requires
            self@.well_formed(),
            addr < DATA_SIZE,
        ensures
            r == self@.data[addr as int],
    {
        self.sram[addr as usize]
    }

    fn write_memory(&mut self, addr: u16, value: u8)
        requires
            old(self)@.well_formed(),
            addr < DATA_SIZE,
        ensures
            final(self)@ == (CpuState { data: old(self)@.data.update(addr as int, value), ..old(self)@ }),
    {
        self.sram.set(addr as usize, value);
    }

    /// Moves the stack pointer down by `amount` (by one when `None`; up when
    /// negative), keeping it inside data memory as `shrunk_sp` says.
    fn shrink_stack_pointer(&mut self, amount: Option<i16>)
        requires
            old(self)@.well_formed(),
        ensures
            final(self)@ == (CpuState {
                sp: shrunk_sp(
                    old(self)@.sp,
                    match amount {
                        Some(a) => a,
                        None => 1,
                    },
                ),
                ..old(self)@
            }),
            final(self)@.well_formed(),
    {
        let a: i16 = match amount {
            Some(a) => a,
            None => 1,
        };
        let d: i32 = self.sp as i32 - a as i32;
        let w: i32 = if d < 0 {
            d + 0x10000
        } else if d >= 0x10000 {
            d - 0x10000
        } else {
            d
        };
        assert(w == (self.sp - a) % 0x10000);
        self.sp = if w == 0xFFFF {
            STACK_TOP
        } else if w > STACK_TOP as i32 {
            0
        } else {
            w as u16
        };
    }

    /// Pushes `value`: the stack pointer moves down (from 0 back to the top),
    /// then `value` is stored where it points.
    fn push_stack(&mut self, value: u8)
        requires
            old(self)@.well_formed(),
        ensures
            final(self)@ == (CpuState {
                sp: push_sp(old(self)@.sp),
                data: old(self)@.data.update(push_sp(old(self)@.sp) as int, value),
                ..old(self)@
            }),
    {
        self.shrink_stack_pointer(None);
        self.write_memory(self.sp, value);
    }

    /// Pops a byte: reads where the stack pointer points, then moves it up
    /// (from the top back to 0).
    fn pop_stack(&mut self) -> (r: u8)
        requires
            old(self)@.well_formed(),
        ensures
            r == old(self)@.data[old(self)@.sp as int],
            final(self)@ == (CpuState { sp: pop_sp(old(self)@.sp), ..old(self)@ }),
    {
        let r = self.read_memory(self.sp);
        self.shrink_stack_pointer(Some(-1));
        r
    }

    fn set_pc(&mut self, pc: u16)
        requires
            pc < FLASH_SIZE,
            pc % 2 == 0,
        ensures
            final(self)@ == (CpuState { pc, ..old(self)@ }),
    {
        self.pc = pc;
    }

    fn register(&self, r: u8) -> (v: u8)
        requires
            self@.well_formed(),
            r < REGISTER_COUNT,
        ensures
            v == self@.reg(r as int),
    {
        self.registers[r as usize]
    }

    fn set_register(&mut self, r: u8, value: u8)
        requires
            old(self)@.well_formed(),
            r < REGISTER_COUNT,
        ensures
            final(self)@ == (CpuState { registers: old(self)@.registers.update(r as int, value), ..old(self)@ }),
    {
        self.registers.set(r as usize, value);
    }

    /// Executes one decoded instruction. Every instruction of the set is
    /// executable, so this never fails.
    pub fn execute(&mut self, instruction: Instruction) -> (r: Result<(), ExecutionError>)
        requires
            old(self)@.well_formed(),
            instruction.well_formed(),
        ensures
            r is Ok,
            final(self)@ == execute_spec(old(self)@, instruction),
            final(self)@.well_formed(),
    {
        let next = advance(self.pc);
        match instruction {
            Instruction::Add { dest, src } => {
                let (res, status) = add_with_status(self.sreg, self.register(dest), self.register(src));
                self.set_register(dest, res);
                self.sreg = status;
                self.set_pc(next);
            },
            Instruction::Sub { dest, src } => {
                let (res, status) = sub_with_status(self.sreg, self.register(dest), self.register(src));
                self.set_register(dest, res);
                self.sreg = status;
                self.set_pc(next);
            },
            Instruction::Inc { reg } => {
                let res = ((self.register(reg) as u16 + 1) % 256) as u8;
                self.set_register(reg, res);
                self.sreg = step_with_status(self.sreg, res, 0x80);
                self.set_pc(next);
            },
            Instruction::Dec { reg } => {
                let res = ((self.register(reg) as u16 + 255) % 256) as u8;
                self.set_register(reg, res);
                self.sreg = step_with_status(self.sreg, res, 0x7F);
                self.set_pc(next);
            },
            Instruction::Ldi { dest, value } => {
                self.set_register(dest, value);
                self.set_pc(next);
            },
            Instruction::Clc => {
                self.clear_flag(FLAG_C);
                self.set_pc(next);
            },
            Instruction::Sec => {
                self.set_flag(FLAG_C);
                self.set_pc(next);
            },
            Instruction::Nop => {
                self.set_pc(next);
            },
            Instruction::Rcall { offset } => {
                let target = relative(self.pc, offset);
                self.push_stack((next % 256) as u8);
                self.push_stack((next / 256) as u8);
                self.set_pc(target);
            },
            Instruction::Ret => {
                let hi = self.pop_stack();
                let lo = self.pop_stack();
                self.set_pc(return_address(hi, lo));
            },
            Instruction::Reti => {
                let hi = self.pop_stack();
                let lo = self.pop_stack();
                self.set_flag(FLAG_I);
                self.set_pc(return_address(hi, lo));
            },
            Instruction::Rjmp { offset } => {
                let target = relative(self.pc, offset);
                self.set_pc(target);
            },
        }
        assert(self@ =~= execute_spec(old(self)@, instruction));
        Ok(())
    }

    /// Zeroes program memory and puts the program counter at 0; registers,
    /// flags, stack pointer and data memory are kept.
    pub fn erase_flash(&mut self)
        requires
            old(self)@.well_formed(),
        ensures
            final(self)@ == erased(old(self)@),
            final(self)@.well_formed(),
    {
        self.flash = zeroed(FLASH_SIZE);
        self.pc = 0;
    }

    pub(crate) fn set_flash_byte(&mut self, addr: usize, value: u8)
        requires
            old(self)@.well_formed(),
            addr < FLASH_SIZE,
        ensures
            final(self)@ == (CpuState { flash: old(self)@.flash.update(addr as int, value), ..old(self)@ }),
    {
        self.flash.set(addr, value);
    }

    fn copy_to_flash(&mut self, bytes: &[u8])
        requires
            old(self)@.well_formed(),
            bytes@.len() <= FLASH_SIZE,
        ensures
            final(self)@ == (CpuState { flash: place(old(self)@.flash, 0, bytes@), ..old(self)@ }),
    {
        let ghost start = self@;
        let mut i: usize = 0;
        assert(start.flash =~= place(start.flash, 0, bytes@.take(0)));
        while i < bytes.len()
            invariant
                start.well_formed(),
                bytes@.len() <= FLASH_SIZE,
                i <= bytes@.len(),
                self@ == (CpuState { flash: place(start.flash, 0, bytes@.take(i as int)), ..start }),
            decreases bytes@.len() - i,
        {
            self.flash.set(i, bytes[i]);
            i = i + 1;
            assert(self@.flash =~= place(start.flash, 0, bytes@.take(i as int)));
        }
        assert(bytes@.take(i as int) =~= bytes@);
    }

    /// Copies a flat binary image to the start of program memory, leaving the
    /// rest of it as it was. An image larger than program memory is refused
    /// and nothing changes.
    pub fn load_bin(&mut self, bytes: &[u8]) -> (r: Result<(), LoaderError>)
        requires
            old(self)@.well_formed(),
        ensures
            final(self)@.well_formed(),
            bytes@.len() > FLASH_SIZE ==> r == Err::<(), LoaderError>(LoaderError::CapacityExceeded)
                && final(self)@ == old(self)@,
            bytes@.len() <= FLASH_SIZE ==> r is Ok && final(self)@ == (CpuState {
                flash: place(old(self)@.flash, 0, bytes@),
                ..old(self)@
            }),
    {
        if bytes.len() > FLASH_SIZE {
            return Err(LoaderError::CapacityExceeded);
        }
        self.copy_to_flash(bytes);
        Ok(())
    }

    /// Erases program memory, then copies `content` to its start. An image
    /// larger than program memory is refused, and program memory stays erased.
    pub fn load_flash_from_vec(&mut self, content: Vec<u8>) -> (r: Result<(), LoaderError>)
        requires
            old(self)@.well_formed(),
        ensures
            final(self)@.well_formed(),
            content@.len() > FLASH_SIZE ==> r == Err::<(), LoaderError>(LoaderError::CapacityExceeded)
                && final(self)@ == erased(old(self)@),
            content@.len() <= FLASH_SIZE ==> r is Ok && final(self)@ == (CpuState {
                flash: place(zeros(FLASH_SIZE as nat), 0, content@),
                ..erased(old(self)@)
            }),
    {
        self.erase_flash();
        if content.len() > FLASH_SIZE {
            return Err(LoaderError::CapacityExceeded);
        }
        self.copy_to_flash(content.as_slice());
        Ok(())
    }

    /// The opcode at the program counter, low byte first.
    pub fn fetch(&self) -> (r: u16)
        requires
            self@.well_formed(),
        ensures
            r == fetch_spec(self@),
    {
        let pc = self.pc as usize;
        let lo = self.flash[pc];
        let hi = self.flash[pc + 1];
        hi as u16 * 256 + lo as u16
    }

    /// Fetches, decodes and executes one instruction. When the opcode is not
    /// recognized the state is left unchanged.
    pub fn step(&mut self) -> (r: Result<(), ExecutionError>)
        requires
            old(self)@.well_formed(),
        ensures
            final(self)@.well_formed(),
            match step_spec(old(self)@) {
                Ok(s) => r is Ok && final(self)@ == s,
                Err(e) => r == Err::<(), ExecutionError>(e) && final(self)@ == old(self)@,
            },
    {
        let opcode = self.fetch();
        let instruction = decode(opcode)?;
        self.execute(instruction)?;
        Ok(())
    }

    /// The instruction at the program counter as text, for display; an
    /// opcode that does not decode shows as a no-operation.
    pub fn get_instruction(&self) -> (r: String)
        requires
            self@.well_formed(),
        ensures
            r@ == mnemonic_spec(
                match decode_spec(fetch_spec(self@)) {
                    Ok(i) => i,
                    Err(_) => Instruction::Nop,
                },
            ),
    {
        let opcode = self.fetch();
        let instruction = match decode(opcode) {
            Ok(i) => i,
            Err(_) => Instruction::Nop,
        };
        instruction.mnemonic()
    }

    /// The status register.
    pub fn sreg(&self) -> (r: u8)
        ensures
            r == self@.sreg,
    {
        self.sreg
    }

    /// The program counter, a byte address into program memory.
    pub fn pc(&self) -> (r: u16)
        ensures
            r == self@.pc,
    {
        self.pc
    }

    /// The stack pointer, a data address.
    pub fn sp(&self) -> (r: u16)
        ensures
            r == self@.sp,
    {
        self.sp
    }

    /// Program memory.
    pub fn flash(&self) -> (r: &[u8])
        ensures
            r@ == self@.flash,
    {
        self.flash.as_slice()
    }

    /// The 32 general-purpose registers.
    pub fn registers(&self) -> (r: &[u8])
        ensures
            r@ == self@.registers,
    {
        self.registers.as_slice()
    }

    /// Data memory (the internal SRAM), where the stack lives.
    pub fn sram(&self) -> (r: &[u8])
        ensures
            r@ == self@.data,
    {
        self.sram.as_slice()
    }

    /// Data memory; the same bytes as `sram`.
    pub fn memory(&self) -> (r: &[u8])
        ensures
            r@ == self@.data,
    {
        self.sram.as_slice()
    }
}

} // verus!
