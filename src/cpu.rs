//! The instruction-execution core: registers, the memory port, the
//! addressing resolver, the stack and the dispatch loop.
use vstd::prelude::*;
use crate::alu::{
    add_with_carry, compare, lemma_sign_bit, rotate_left, rotate_right, shift_left, shift_right,
    sub_with_carry, adc_spec, complement, lemma_sbc_is_adc_of_complement, sign,
};
use crate::bus::{Bus, PRG_BASE};
use crate::machine::{
    Machine, arith_result, branch_spec, flag_mask, has_flag, instruction_spec, load_spec,
    operand_address, pop, pop_word, push, push_word, read_word, run_spec,
    set_zn, step_spec, store_spec, update_zn, with_flag, word, write_word, loaded, reset_spec, with_program,
};
use crate::opcodes::{AddressingMode, Mnemonic, OpCode, decode, well_formed};
use crate::theorems::{lemma_arith_flags, lemma_update_zn};

verus! {

/// The status flags, by their bit in the status byte (carry is bit 0,
/// negative is bit 7).
#[allow(non_camel_case_types)]
#[derive(Debug, Clone, Copy, PartialEq, Eq, Structural)]
pub enum FlgCodes {
    CARRY,
    ZERO,
    INTERRUPT_DISABLE,
    DECIMAL_MODE,
    BREAK,
    RESERVED,
    OVERFLOW,
    NEGATIV,
}

impl FlgCodes {
    /// The flag's bit in the status byte.
    pub fn mask(&self) -> (r: u8)
        ensures
            r == flag_mask(*self),
    {
        match self {
            FlgCodes::CARRY => 0b0000_0001,
            FlgCodes::ZERO => 0b0000_0010,
            FlgCodes::INTERRUPT_DISABLE => 0b0000_0100,
            FlgCodes::DECIMAL_MODE => 0b0000_1000,
            FlgCodes::BREAK => 0b0001_0000,
            FlgCodes::RESERVED => 0b0010_0000,
            FlgCodes::OVERFLOW => 0b0100_0000,
            FlgCodes::NEGATIV => 0b1000_0000,
        }
    }
}

/// The three general-purpose registers.
#[allow(non_camel_case_types)]
#[derive(Debug, Clone, Copy, PartialEq, Eq, Structural)]
pub enum REGISTER {
    REGISTER_A,
    REGISTER_X,
    REGISTER_Y,
}

/// Why execution stopped without reaching the halt opcode.
#[derive(Debug, Clone, Copy, PartialEq, Eq, Structural)]
pub enum CpuError {
    /// A byte outside the instruction set stood where an opcode was fetched.
    UnknownOpcode(u8),
    /// The loop ran for `u64::MAX` instructions without halting.
    StepLimit,
}

spec fn is_transfer(mn: Mnemonic) -> bool {
    match mn {
        Mnemonic::Lda | Mnemonic::Ldx | Mnemonic::Ldy | Mnemonic::Sta | Mnemonic::Stx | Mnemonic::Sty | Mnemonic::Tax | Mnemonic::Txa | Mnemonic::Tay | Mnemonic::Tya | Mnemonic::Tsx | Mnemonic::Txs => true,
        _ => false,
    }
}

spec fn is_arithmetic(mn: Mnemonic) -> bool {
    match mn {
        Mnemonic::Adc | Mnemonic::Sbc | Mnemonic::And | Mnemonic::Ora | Mnemonic::Eor | Mnemonic::Bit | Mnemonic::Cmp | Mnemonic::Cpx | Mnemonic::Cpy => true,
        _ => false,
    }
}

spec fn is_shift_or_count(mn: Mnemonic) -> bool {
    match mn {
        Mnemonic::Asl | Mnemonic::Lsr | Mnemonic::Rol | Mnemonic::Ror | Mnemonic::Inc | Mnemonic::Dec | Mnemonic::Inx | Mnemonic::Iny | Mnemonic::Dex | Mnemonic::Dey => true,
        _ => false,
    }
}

spec fn is_stack_or_jump(mn: Mnemonic) -> bool {
    match mn {
        Mnemonic::Pha | Mnemonic::Php | Mnemonic::Pla | Mnemonic::Plp | Mnemonic::Jmp | Mnemonic::Jsr | Mnemonic::Rts | Mnemonic::Rti => true,
        _ => false,
    }
}

spec fn is_flow(mn: Mnemonic) -> bool {
    match mn {
        Mnemonic::Bcc | Mnemonic::Bcs | Mnemonic::Beq | Mnemonic::Bne | Mnemonic::Bmi | Mnemonic::Bpl | Mnemonic::Bvs | Mnemonic::Bvc | Mnemonic::Clc | Mnemonic::Cld | Mnemonic::Cli | Mnemonic::Clv | Mnemonic::Sec | Mnemonic::Sed | Mnemonic::Sei | Mnemonic::Nop => true,
        _ => false,
    }
}

/// A 16-bit value from its little-endian bytes.
pub fn join_bytes(lo: u8, hi: u8) -> (r: u16)
    ensures
        r == word(lo, hi),
{
    let r = (hi as u16) << 8 | (lo as u16);
    assert(((hi as u16) << 8 | (lo as u16)) == (hi * 256 + lo) as u16) by (bit_vector);
    r
}

/// A byte-addressed 64 KiB memory port.
pub trait Mem {
    /// The contents of the address space.
    spec fn memory(&self) -> Seq<u8>;

    fn mem_read(&self, addr: u16) -> (r: u8)
        ensures
            self.memory().len() == 0x10000,
            r == self.memory()[addr as int],
    ;

    fn mem_write(&mut self, addr: u16, data: u8)
        ensures
            old(self).memory().len() == 0x10000,
            final(self).memory() == old(self).memory().update(addr as int, data),
    ;

    /// Reads a little-endian word, the high byte at the next address.
    fn mem_read_u16(&self, pos: u16) -> (r: u16)
        ensures
            r == read_word(self.memory(), pos),
    {
        let lo = self.mem_read(pos);
        let hi = self.mem_read(pos.wrapping_add(1));
        join_bytes(lo, hi)
    }

    /// Writes a little-endian word, the low byte first.
    fn mem_write_u16(&mut self, pos: u16, data: u16)
        ensures
            final(self).memory() == write_word(old(self).memory(), pos, data),
    {
        let hi = (data >> 8) as u8;
        let lo = (data & 0xff) as u8;
        assert(hi == (data / 256) as u8 && lo == (data % 256) as u8) by (bit_vector)
            requires
                hi == (data >> 8) as u8,
                lo == (data & 0xff) as u8,
        ;
        self.mem_write(pos, lo);
        self.mem_write(pos.wrapping_add(1), hi);
    }
}

/// A relation `p` holds of every call: of the state handed to the observer
/// and the state it left.
pub open spec fn each_call(
    p: spec_fn(Machine, Machine) -> bool,
    handed: Seq<Machine>,
    left: Seq<Machine>,
) -> bool {
    forall|k: int| 0 <= k < handed.len() ==> #[trigger] p(handed[k], left[k])
}

/// Where the run goes on after the calls whose results are `left`.
pub open spec fn resume_state(start: Machine, left: Seq<Machine>) -> Machine {
    if left.len() == 0 {
        start
    } else {
        left.last()
    }
}

/// The states handed to the observer in a run from `start`: the k-th is what
/// one non-halting step makes from the state the run resumed from, after the
/// calls that returned `left[0..k]`.
pub open spec fn handed_states(start: Machine, handed: Seq<Machine>, left: Seq<Machine>) -> bool {
    &&& handed.len() == left.len()
    &&& forall|k: int|
        0 <= k < handed.len() ==> step_spec(resume_state(start, left.take(k))) == (
            #[trigger] handed[k],
            Ok::<bool, CpuError>(true),
        )
}

/// How a run with calls `left` ended: a halt or an undefined opcode on the
/// step after the last call, or the step limit after `u64::MAX` calls.
pub open spec fn run_ends(
    start: Machine,
    left: Seq<Machine>,
    fin: Machine,
    r: Result<(), CpuError>,
) -> bool {
    let last = resume_state(start, left);
    match r {
        Ok(()) => left.len() < u64::MAX && step_spec(last) == (fin, Ok::<bool, CpuError>(false)),
        Err(CpuError::UnknownOpcode(c)) => left.len() < u64::MAX && step_spec(last) == (
            fin,
            Err::<bool, CpuError>(CpuError::UnknownOpcode(c)),
        ),
        Err(CpuError::StepLimit) => left.len() == u64::MAX && fin == last,
    }
}

/// Base of the stack page.
pub const STACK: u16 = 0x0100;

/// Stack pointer at power-up.
pub const STACK_RESET: u8 = 0xfd;

/// Status byte at power-up and after reset: interrupts disabled, bit 5 set.
pub const STATUS_RESET: u8 = 0b100100;

/// Address of the little-endian reset vector.
pub const RESET_VECTOR: u16 = 0xFFFC;

pub struct CPU {
    pub register_a: u8,
    pub register_x: u8,
    pub register_y: u8,
    pub status: u8,
    pub program_counter: u16,
    pub stack_pointer: u8,
    pub bus: Bus,
}

impl View for CPU {
    type V = Machine;

    open spec fn view(&self) -> Machine {
        Machine {
            a: self.register_a,
            x: self.register_x,
            y: self.register_y,
            status: self.status,
            pc: self.program_counter,
            sp: self.stack_pointer,
            mem: self.bus.memory(),
        }
    }
}

impl Mem for CPU {
    open spec fn memory(&self) -> Seq<u8> {
        self.bus.memory()
    }

    fn mem_read(&self, addr: u16) -> (r: u8) {
        self.bus.mem_read(addr)
    }

    fn mem_write(&mut self, addr: u16, data: u8)
        ensures
            final(self)@ == (Machine { mem: old(self)@.mem.update(addr as int, data), ..old(self)@ }),
    {
        self.bus.mem_write(addr, data)
    }

    fn mem_read_u16(&self, pos: u16) -> (r: u16) {
        self.bus.mem_read_u16(pos)
    }

    fn mem_write_u16(&mut self, pos: u16, data: u16)
        ensures
            final(self)@ == (Machine { mem: write_word(old(self)@.mem, pos, data), ..old(self)@ }),
    {
        self.bus.mem_write_u16(pos, data)
    }
}

impl CPU {
    /// Power-up state: registers zero, status 0b100100, stack pointer 0xfd.
    pub fn new(bus: Bus) -> (cpu: CPU)
        ensures
            cpu@ == (Machine {
                a: 0,
                x: 0,
                y: 0,
                status: STATUS_RESET,
                pc: 0,
                sp: STACK_RESET,
                mem: bus.memory(),
            }),
    {
        CPU {
            register_a: 0,
            register_x: 0,
            register_y: 0,
            status: STATUS_RESET,
            program_counter: 0,
            stack_pointer: STACK_RESET,
            bus: bus,
        }
    }

    /// 1 when the flag is set, else 0.
    pub fn get_flg(&self, flg_code: &FlgCodes) -> (r: u8)
        ensures
            r == if has_flag(self.status, *flg_code) {
                1u8
            } else {
                0u8
            },
    {
        if self.status & flg_code.mask() != 0 {
            1
        } else {
            0
        }
    }

    /// Sets the flag when `value` is 1 and clears it otherwise.
    pub fn set_flg(&mut self, flg_code: &FlgCodes, value: u8)
        ensures
            final(self)@ == (Machine {
                status: with_flag(old(self).status, *flg_code, value == 1),
                ..old(self)@
            }),
    {
        if value == 1 {
            self.status = self.status | flg_code.mask();
        } else {
            self.status = self.status & !flg_code.mask();
        }
    }

    /// The shared flag step after every instruction that produces a byte.
    fn update_zero_and_negative_flags(&mut self, result: u8)
        ensures
            final(self)@ == set_zn(old(self)@, result),
            (final(self).status & 0x02 != 0) <==> (result == 0),
            final(self).status & 0x80 == result & 0x80,
    {
        proof {
            lemma_update_zn(self.status, result);
            let s = update_zn(self.status, result);
            assert((s & 0x80 != 0) == (result & 0x80 == 0x80) ==> s & 0x80 == result & 0x80)
                by (bit_vector);
            lemma_sign_bit(result);
        }
        self.set_flg(
            &FlgCodes::ZERO,
            if result == 0 {
                1
            } else {
                0
            },
        );
        self.set_flg(
            &FlgCodes::NEGATIV,
            if result & 0b1000_0000 != 0 {
                1
            } else {
                0
            },
        );
    }

    /// The effective address of the operand, the program counter pointing just
    /// past the opcode byte.
    #[verifier::rlimit(50)]
    pub fn get_operand_address(&self, mode: &AddressingMode) -> (r: u16)
        requires
            *mode != AddressingMode::NoneAddressing,
        ensures
            r == operand_address(self@, *mode),
    {
        match mode {
            AddressingMode::Immediate => self.program_counter,
            AddressingMode::ZeroPage => self.mem_read(self.program_counter) as u16,
            AddressingMode::Absolute => self.mem_read_u16(self.program_counter),
            AddressingMode::ZeroPage_X => {
                let pos = self.mem_read(self.program_counter);
                pos.wrapping_add(self.register_x) as u16
            },
            AddressingMode::ZeroPage_Y => {
                let pos = self.mem_read(self.program_counter);
                pos.wrapping_add(self.register_y) as u16
            },
            AddressingMode::Absolute_X => {
                let base = self.mem_read_u16(self.program_counter);
                base.wrapping_add(self.register_x as u16)
            },
            AddressingMode::Absolute_Y => {
                let base = self.mem_read_u16(self.program_counter);
                base.wrapping_add(self.register_y as u16)
            },
            AddressingMode::Indirect_X => {
                let base = self.mem_read(self.program_counter);
                let ptr: u8 = base.wrapping_add(self.register_x);
                let lo = self.mem_read(ptr as u16);
                let hi = self.mem_read(ptr.wrapping_add(1) as u16);
                join_bytes(lo, hi)
            },
            AddressingMode::Indirect_Y => {
                let base = self.mem_read(self.program_counter);
                let lo = self.mem_read(base as u16);
                let hi = self.mem_read(base.wrapping_add(1) as u16);
                let deref_base = join_bytes(lo, hi);
                deref_base.wrapping_add(self.register_y as u16)
            },
            // excluded by the precondition
            AddressingMode::NoneAddressing => 0,
        }
    }

    fn stack_push(&mut self, data: u8)
        ensures
            final(self)@ == push(old(self)@, data),
    {
        self.mem_write(STACK + self.stack_pointer as u16, data);
        self.stack_pointer = self.stack_pointer.wrapping_sub(1);
    }

    fn stack_pop(&mut self) -> (r: u8)
        ensures
            (r, final(self)@) == pop(old(self)@),
    {
        self.stack_pointer = self.stack_pointer.wrapping_add(1);
        self.mem_read(STACK + self.stack_pointer as u16)
    }

    /// Pushes the high byte, then the low byte.
    fn stack_push_u16(&mut self, data: u16)
        ensures
            final(self)@ == push_word(old(self)@, data),
    {
        let hi = (data >> 8) as u8;
        let lo = (data & 0xff) as u8;
        assert(hi == (data / 256) as u8 && lo == (data % 256) as u8) by (bit_vector)
            requires
                hi == (data >> 8) as u8,
                lo == (data & 0xff) as u8,
        ;
        self.stack_push(hi);
        self.stack_push(lo);
    }

    /// Pops the low byte, then the high byte.
    fn stack_pop_u16(&mut self) -> (r: u16)
        ensures
            (r, final(self)@) == pop_word(old(self)@),
    {
        let lo = self.stack_pop();
        let hi = self.stack_pop();
        join_bytes(lo, hi)
    }

    fn adc(&mut self, mode: &AddressingMode)
        requires
            *mode != AddressingMode::NoneAddressing,
        ensures
            final(self)@ == instruction_spec(old(self)@, Mnemonic::Adc, *mode),
            ({
                let m = old(self)@.mem[operand_address(old(self)@, *mode) as int];
                let c = has_flag(old(self).status, FlgCodes::CARRY);
                let sum = old(self).register_a + m + if c { 1int } else { 0int };
                &&& final(self).register_a as int == sum % 256
                &&& has_flag(final(self).status, FlgCodes::CARRY) == (sum > 255)
                &&& has_flag(final(self).status, FlgCodes::OVERFLOW) == (sign(old(self).register_a)
                    == sign(m) && sign(final(self).register_a) != sign(m))
            }),
    {
        proof {
            reveal(instruction_spec);
            let m = old(self)@.mem[operand_address(old(self)@, *mode) as int];
            let c = has_flag(old(self).status, FlgCodes::CARRY);
            lemma_arith_flags(old(self).status, adc_spec(old(self).register_a, m, c));
        }
        let addr = self.get_operand_address(mode);
        let value = self.mem_read(addr);
        let carry = self.get_flg(&FlgCodes::CARRY) == 1;
        let (result, carry_out, overflow) = add_with_carry(self.register_a, value, carry);
        self.set_flg(
            &FlgCodes::CARRY,
            if carry_out {
                1
            } else {
                0
            },
        );
        self.set_flg(
            &FlgCodes::OVERFLOW,
            if overflow {
                1
            } else {
                0
            },
        );
        self.register_a = result;
        self.update_zero_and_negative_flags(result);
    }

    fn sbc(&mut self, mode: &AddressingMode)
        requires
            *mode != AddressingMode::NoneAddressing,
        ensures
            final(self)@ == instruction_spec(old(self)@, Mnemonic::Sbc, *mode),
            final(self)@ == arith_result(
                old(self)@,
                adc_spec(
                    old(self).register_a,
                    complement(old(self)@.mem[operand_address(old(self)@, *mode) as int]),
                    has_flag(old(self).status, FlgCodes::CARRY),
                ),
            ),
    {
        proof {
            reveal(instruction_spec);
            lemma_sbc_is_adc_of_complement(
                old(self).register_a,
                old(self)@.mem[operand_address(old(self)@, *mode) as int],
                has_flag(old(self).status, FlgCodes::CARRY),
            );
        }
        let addr = self.get_operand_address(mode);
        let value = self.mem_read(addr);
        let carry = self.get_flg(&FlgCodes::CARRY) == 1;
        let (result, carry_out, overflow) = sub_with_carry(self.register_a, value, carry);
        self.set_flg(
            &FlgCodes::CARRY,
            if carry_out {
                1
            } else {
                0
            },
        );
        self.set_flg(
            &FlgCodes::OVERFLOW,
            if overflow {
                1
            } else {
                0
            },
        );
        self.register_a = result;
        self.update_zero_and_negative_flags(result);
    }

    fn and(&mut self, mode: &AddressingMode)
        requires
            *mode != AddressingMode::NoneAddressing,
        ensures
            final(self)@ == instruction_spec(old(self)@, Mnemonic::And, *mode),
    {
        proof {
            reveal(instruction_spec);
        }
        let addr = self.get_operand_address(mode);
        let value = self.mem_read(addr);
        self.register_a = self.register_a & value;
        self.update_zero_and_negative_flags(self.register_a);
    }

    fn eor(&mut self, mode: &AddressingMode)
        requires
            *mode != AddressingMode::NoneAddressing,
        ensures
            final(self)@ == instruction_spec(old(self)@, Mnemonic::Eor, *mode),
    {
        proof {
            reveal(instruction_spec);
        }
        let addr = self.get_operand_address(mode);
        let value = self.mem_read(addr);
        let result = self.register_a ^ value;
        self.register_a = result;
        self.update_zero_and_negative_flags(result);
    }

    fn ora(&mut self, mode: &AddressingMode)
        requires
            *mode != AddressingMode::NoneAddressing,
        ensures
            final(self)@ == instruction_spec(old(self)@, Mnemonic::Ora, *mode),
    {
        proof {
            reveal(instruction_spec);
        }
        let addr = self.get_operand_address(mode);
        let value = self.mem_read(addr);
        let result = self.register_a | value;
        self.register_a = result;
        self.update_zero_and_negative_flags(result);
    }

    /// Stores a shift or rotate result in the accumulator.
    fn finish_accumulator_shift(&mut self, r: (u8, bool))
        ensures
            final(self)@ == crate::machine::shift_accumulator(old(self)@, r),
    {
        self.set_flg(
            &FlgCodes::CARRY,
            if r.1 {
                1
            } else {
                0
            },
        );
        self.register_a = r.0;
        self.update_zero_and_negative_flags(r.0);
    }

    /// Stores a shift or rotate result at `addr`.
    fn finish_memory_shift(&mut self, addr: u16, r: (u8, bool))
        ensures
            final(self)@ == crate::machine::shift_memory(old(self)@, addr, r),
    {
        self.set_flg(
            &FlgCodes::CARRY,
            if r.1 {
                1
            } else {
                0
            },
        );
        self.mem_write(addr, r.0);
        self.update_zero_and_negative_flags(r.0);
    }

    fn asl_accumulator(&mut self)
        ensures
            final(self)@ == instruction_spec(
                old(self)@,
                Mnemonic::Asl,
                AddressingMode::NoneAddressing,
            ),
    {
        proof {
            reveal(instruction_spec);
        }
        let r = shift_left(self.register_a);
        self.finish_accumulator_shift(r);
    }

    fn asl(&mut self, mode: &AddressingMode)
        requires
            *mode != AddressingMode::NoneAddressing,
        ensures
            final(self)@ == instruction_spec(old(self)@, Mnemonic::Asl, *mode),
    {
        proof {
            reveal(instruction_spec);
        }
        let addr = self.get_operand_address(mode);
        let value = self.mem_read(addr);
        let r = shift_left(value);
        self.finish_memory_shift(addr, r);
    }

    fn lsr_accumulator(&mut self)
        ensures
            final(self)@ == instruction_spec(
                old(self)@,
                Mnemonic::Lsr,
                AddressingMode::NoneAddressing,
            ),
    {
        proof {
            reveal(instruction_spec);
        }
        let r = shift_right(self.register_a);
        self.finish_accumulator_shift(r);
    }

    fn lsr(&mut self, mode: &AddressingMode)
        requires
            *mode != AddressingMode::NoneAddressing,
        ensures
            final(self)@ == instruction_spec(old(self)@, Mnemonic::Lsr, *mode),
    {
        proof {
            reveal(instruction_spec);
        }
        let addr = self.get_operand_address(mode);
        let value = self.mem_read(addr);
        let r = shift_right(value);
        self.finish_memory_shift(addr, r);
    }

    fn rol_accumulator(&mut self)
        ensures
            final(self)@ == instruction_spec(
                old(self)@,
                Mnemonic::Rol,
                AddressingMode::NoneAddressing,
            ),
    {
        proof {
            reveal(instruction_spec);
        }
        let old_carry = self.get_flg(&FlgCodes::CARRY) == 1;
        let r = rotate_left(self.register_a, old_carry);
        self.finish_accumulator_shift(r);
    }

    fn rol(&mut self, mode: &AddressingMode)
        requires
            *mode != AddressingMode::NoneAddressing,
        ensures
            final(self)@ == instruction_spec(old(self)@, Mnemonic::Rol, *mode),
    {
        proof {
            reveal(instruction_spec);
        }
        let addr = self.get_operand_address(mode);
        let value = self.mem_read(addr);
        let old_carry = self.get_flg(&FlgCodes::CARRY) == 1;
        let r = rotate_left(value, old_carry);
        self.finish_memory_shift(addr, r);
    }

    fn ror_accumulator(&mut self)
        ensures
            final(self)@ == instruction_spec(
                old(self)@,
                Mnemonic::Ror,
                AddressingMode::NoneAddressing,
            ),
    {
        proof {
            reveal(instruction_spec);
        }
        let old_carry = self.get_flg(&FlgCodes::CARRY) == 1;
        let r = rotate_right(self.register_a, old_carry);
        self.finish_accumulator_shift(r);
    }

    fn ror(&mut self, mode: &AddressingMode)
        requires
            *mode != AddressingMode::NoneAddressing,
        ensures
            final(self)@ == instruction_spec(old(self)@, Mnemonic::Ror, *mode),
    {
        proof {
            reveal(instruction_spec);
        }
        let addr = self.get_operand_address(mode);
        let value = self.mem_read(addr);
        let old_carry = self.get_flg(&FlgCodes::CARRY) == 1;
        let r = rotate_right(value, old_carry);
        self.finish_memory_shift(addr, r);
    }

    /// Zero from the accumulator AND the operand; overflow and negative from
    /// bits 6 and 7 of the operand.
    fn bit(&mut self, mode: &AddressingMode)
        requires
            *mode != AddressingMode::NoneAddressing,
        ensures
            final(self)@ == instruction_spec(old(self)@, Mnemonic::Bit, *mode),
    {
        proof {
            reveal(instruction_spec);
        }
        let addr = self.get_operand_address(mode);
        let value = self.mem_read(addr);
        let result = self.register_a & value;
        proof {
            lemma_sign_bit(value);
        }
        self.set_flg(
            &FlgCodes::ZERO,
            if result == 0 {
                1
            } else {
                0
            },
        );
        self.set_flg(
            &FlgCodes::OVERFLOW,
            if value & 0b0100_0000 != 0 {
                1
            } else {
                0
            },
        );
        self.set_flg(
            &FlgCodes::NEGATIV,
            if value & 0b1000_0000 != 0 {
                1
            } else {
                0
            },
        );
    }

    fn cmp(&mut self, mode: &AddressingMode, compare_with: u8)
        requires
            *mode != AddressingMode::NoneAddressing,
        ensures
            final(self)@ == crate::machine::compare_state(old(self)@, *mode, compare_with),
    {
        let addr = self.get_operand_address(mode);
        let value = self.mem_read(addr);
        let (diff, carry) = compare(compare_with, value);
        self.set_flg(
            &FlgCodes::CARRY,
            if carry {
                1
            } else {
                0
            },
        );
        self.update_zero_and_negative_flags(diff);
    }

    fn dec(&mut self, mode: &AddressingMode)
        requires
            *mode != AddressingMode::NoneAddressing,
        ensures
            final(self)@ == instruction_spec(old(self)@, Mnemonic::Dec, *mode),
            ({
                let addr = operand_address(old(self)@, *mode);
                let r = final(self)@.mem[addr as int];
                &&& r as int == (old(self)@.mem[addr as int] - 1) % 256
                &&& (final(self).status & 0x02 != 0) <==> (r == 0)
                &&& final(self).status & 0x80 == r & 0x80
            }),
    {
        proof {
            reveal(instruction_spec);
            self.bus.lemma_size();
        }
        let addr = self.get_operand_address(mode);
        let value = self.mem_read(addr);
        let result = value.wrapping_sub(1);
        self.mem_write(addr, result);
        self.update_zero_and_negative_flags(result);
    }

    fn inc(&mut self, mode: &AddressingMode)
        requires
            *mode != AddressingMode::NoneAddressing,
        ensures
            final(self)@ == instruction_spec(old(self)@, Mnemonic::Inc, *mode),
    {
        proof {
            reveal(instruction_spec);
        }
        let addr = self.get_operand_address(mode);
        let value = self.mem_read(addr);
        let result = value.wrapping_add(1);
        self.mem_write(addr, result);
        self.update_zero_and_negative_flags(result);
    }

    fn dex(&mut self)
        ensures
            final(self)@ == instruction_spec(
                old(self)@,
                Mnemonic::Dex,
                AddressingMode::NoneAddressing,
            ),
    {
        proof {
            reveal(instruction_spec);
        }
        let result = self.register_x.wrapping_sub(1);
        self.register_x = result;
        self.update_zero_and_negative_flags(result);
    }

    fn dey(&mut self)
        ensures
            final(self)@ == instruction_spec(
                old(self)@,
                Mnemonic::Dey,
                AddressingMode::NoneAddressing,
            ),
    {
        proof {
            reveal(instruction_spec);
        }
        let result = self.register_y.wrapping_sub(1);
        self.register_y = result;
        self.update_zero_and_negative_flags(result);
    }

    fn inx(&mut self)
        ensures
            final(self)@ == instruction_spec(
                old(self)@,
                Mnemonic::Inx,
                AddressingMode::NoneAddressing,
            ),
    {
        proof {
            reveal(instruction_spec);
        }
        self.register_x = self.register_x.wrapping_add(1);
        self.update_zero_and_negative_flags(self.register_x);
    }

    fn iny(&mut self)
        ensures
            final(self)@ == instruction_spec(
                old(self)@,
                Mnemonic::Iny,
                AddressingMode::NoneAddressing,
            ),
    {
        proof {
            reveal(instruction_spec);
        }
        self.register_y = self.register_y.wrapping_add(1);
        self.update_zero_and_negative_flags(self.register_y);
    }

    fn ld(&mut self, mode: &AddressingMode, kind: &REGISTER)
        requires
            *mode != AddressingMode::NoneAddressing,
        ensures
            final(self)@ == load_spec(old(self)@, *mode, *kind),
    {
        let addr = self.get_operand_address(mode);
        let value = self.mem_read(addr);
        match kind {
            REGISTER::REGISTER_A => self.register_a = value,
            REGISTER::REGISTER_X => self.register_x = value,
            REGISTER::REGISTER_Y => self.register_y = value,
        }
        self.update_zero_and_negative_flags(value);
    }

    fn store(&mut self, mode: &AddressingMode, kind: &REGISTER)
        requires
            *mode != AddressingMode::NoneAddressing,
        ensures
            final(self)@ == store_spec(old(self)@, *mode, *kind),
    {
        let addr = self.get_operand_address(mode);
        let value = match kind {
            REGISTER::REGISTER_A => self.register_a,
            REGISTER::REGISTER_X => self.register_x,
            REGISTER::REGISTER_Y => self.register_y,
        };
        self.mem_write(addr, value);
    }

    fn tax(&mut self)
        ensures
            final(self)@ == instruction_spec(
                old(self)@,
                Mnemonic::Tax,
                AddressingMode::NoneAddressing,
            ),
    {
        proof {
            reveal(instruction_spec);
        }
        self.register_x = self.register_a;
        self.update_zero_and_negative_flags(self.register_x);
    }

    fn txa(&mut self)
        ensures
            final(self)@ == instruction_spec(
                old(self)@,
                Mnemonic::Txa,
                AddressingMode::NoneAddressing,
            ),
    {
        proof {
            reveal(instruction_spec);
        }
        self.register_a = self.register_x;
        self.update_zero_and_negative_flags(self.register_a);
    }

    fn tay(&mut self)
        ensures
            final(self)@ == instruction_spec(
                old(self)@,
                Mnemonic::Tay,
                AddressingMode::NoneAddressing,
            ),
    {
        proof {
            reveal(instruction_spec);
        }
        self.register_y = self.register_a;
        self.update_zero_and_negative_flags(self.register_y);
    }

    fn tya(&mut self)
        ensures
            final(self)@ == instruction_spec(
                old(self)@,
                Mnemonic::Tya,
                AddressingMode::NoneAddressing,
            ),
    {
        proof {
            reveal(instruction_spec);
        }
        self.register_a = self.register_y;
        self.update_zero_and_negative_flags(self.register_a);
    }

    fn tsx(&mut self)
        ensures
            final(self)@ == instruction_spec(
                old(self)@,
                Mnemonic::Tsx,
                AddressingMode::NoneAddressing,
            ),
    {
        proof {
            reveal(instruction_spec);
        }
        self.register_x = self.stack_pointer;
        self.update_zero_and_negative_flags(self.register_x);
    }

    fn txs(&mut self)
        ensures
            final(self)@ == instruction_spec(
                old(self)@,
                Mnemonic::Txs,
                AddressingMode::NoneAddressing,
            ),
    {
        proof {
            reveal(instruction_spec);
        }
        self.stack_pointer = self.register_x;
    }

    /// Takes a relative branch when `condition` holds.
    fn branch(&mut self, condition: bool)
        ensures
            final(self)@ == branch_spec(old(self)@, condition),
    {
        if condition {
            let jump = self.mem_read(self.program_counter);
            let offset: u16 = if jump >= 0x80 {
                jump as u16 | 0xFF00
            } else {
                jump as u16
            };
            assert(jump >= 0x80 ==> (jump as u16 | 0xFF00) == jump + 0xFF00) by (bit_vector);
            self.program_counter = self.program_counter.wrapping_add(1).wrapping_add(offset);
        }
    }

    /// Loads, stores and register transfers.
    fn exec_transfer(&mut self, op: &OpCode)
        requires
            well_formed(*op),
            is_transfer(op.mnemonic),
        ensures
            final(self)@ == instruction_spec(old(self)@, op.mnemonic, op.mode),
    {
        proof {
            reveal(instruction_spec);
        }
        let mode = &op.mode;
        match op.mnemonic {
            Mnemonic::Lda => self.ld(mode, &REGISTER::REGISTER_A),
            Mnemonic::Ldx => self.ld(mode, &REGISTER::REGISTER_X),
            Mnemonic::Ldy => self.ld(mode, &REGISTER::REGISTER_Y),
            Mnemonic::Sta => self.store(mode, &REGISTER::REGISTER_A),
            Mnemonic::Stx => self.store(mode, &REGISTER::REGISTER_X),
            Mnemonic::Sty => self.store(mode, &REGISTER::REGISTER_Y),
            Mnemonic::Tax => self.tax(),
            Mnemonic::Txa => self.txa(),
            Mnemonic::Tay => self.tay(),
            Mnemonic::Tya => self.tya(),
            Mnemonic::Tsx => self.tsx(),
            Mnemonic::Txs => self.txs(),
            _ => {},
        }
    }

    /// Arithmetic, logic, bit test and compares.
    fn exec_arithmetic(&mut self, op: &OpCode)
        requires
            well_formed(*op),
            is_arithmetic(op.mnemonic),
        ensures
            final(self)@ == instruction_spec(old(self)@, op.mnemonic, op.mode),
    {
        proof {
            reveal(instruction_spec);
        }
        let mode = &op.mode;
        match op.mnemonic {
            Mnemonic::Adc => self.adc(mode),
            Mnemonic::Sbc => self.sbc(mode),
            Mnemonic::And => self.and(mode),
            Mnemonic::Ora => self.ora(mode),
            Mnemonic::Eor => self.eor(mode),
            Mnemonic::Bit => self.bit(mode),
            Mnemonic::Cmp => self.cmp(mode, self.register_a),
            Mnemonic::Cpx => self.cmp(mode, self.register_x),
            Mnemonic::Cpy => self.cmp(mode, self.register_y),
            _ => {},
        }
    }

    /// Shifts, rotates, increments and decrements.
    fn exec_shift_count(&mut self, op: &OpCode)
        requires
            well_formed(*op),
            is_shift_or_count(op.mnemonic),
        ensures
            final(self)@ == instruction_spec(old(self)@, op.mnemonic, op.mode),
    {
        proof {
            reveal(instruction_spec);
        }
        let mode = &op.mode;
        let acc = op.mode == AddressingMode::NoneAddressing;
        match op.mnemonic {
            Mnemonic::Asl => if acc {
                self.asl_accumulator()
            } else {
                self.asl(mode)
            },
            Mnemonic::Lsr => if acc {
                self.lsr_accumulator()
            } else {
                self.lsr(mode)
            },
            Mnemonic::Rol => if acc {
                self.rol_accumulator()
            } else {
                self.rol(mode)
            },
            Mnemonic::Ror => if acc {
                self.ror_accumulator()
            } else {
                self.ror(mode)
            },
            Mnemonic::Inc => self.inc(mode),
            Mnemonic::Dec => self.dec(mode),
            Mnemonic::Inx => self.inx(),
            Mnemonic::Iny => self.iny(),
            Mnemonic::Dex => self.dex(),
            Mnemonic::Dey => self.dey(),
            _ => {},
        }
    }

    /// Stack transfers, jumps, calls and returns.
    fn exec_stack_jump(&mut self, op: &OpCode)
        requires
            well_formed(*op),
            is_stack_or_jump(op.mnemonic),
        ensures
            final(self)@ == instruction_spec(old(self)@, op.mnemonic, op.mode),
    {
        proof {
            reveal(instruction_spec);
        }
        match op.mnemonic {
            Mnemonic::Pha => self.stack_push(self.register_a),
            Mnemonic::Php => self.stack_push(self.status),
            Mnemonic::Pla => {
                let value = self.stack_pop();
                self.register_a = value;
                self.update_zero_and_negative_flags(value);
            },
            Mnemonic::Plp => {
                let value = self.stack_pop();
                self.status = value;
                self.update_zero_and_negative_flags(value);
            },
            Mnemonic::Jmp => {
                let mem_address = self.mem_read_u16(self.program_counter);
                if op.mode == AddressingMode::Absolute {
                    self.program_counter = mem_address;
                } else {
                    // The pointer's high byte never carries into the next page.
                    assert((mem_address & 0x00FF == 0x00FF) == (mem_address % 256 == 255)
                        && (mem_address % 256 == 255 ==> mem_address & 0xFF00 == mem_address
                        - 255)) by (bit_vector);
                    let indirect_ref = if mem_address & 0x00FF == 0x00FF {
                        let lo = self.mem_read(mem_address);
                        let hi = self.mem_read(mem_address & 0xFF00);
                        join_bytes(lo, hi)
                    } else {
                        self.mem_read_u16(mem_address)
                    };
                    self.program_counter = indirect_ref;
                }
            },
            Mnemonic::Jsr => {
                self.stack_push_u16(self.program_counter.wrapping_add(1));
                let target_address = self.mem_read_u16(self.program_counter);
                self.program_counter = target_address;
            },
            Mnemonic::Rts => {
                let ret = self.stack_pop_u16();
                self.program_counter = ret.wrapping_add(1);
            },
            Mnemonic::Rti => {
                self.status = self.stack_pop();
                self.program_counter = self.stack_pop_u16();
            },
            _ => {},
        }
    }

    /// Branches, flag changes and the no-op.
    fn exec_flow(&mut self, op: &OpCode)
        requires
            well_formed(*op),
            is_flow(op.mnemonic),
        ensures
            final(self)@ == instruction_spec(old(self)@, op.mnemonic, op.mode),
    {
        proof {
            reveal(instruction_spec);
        }
        match op.mnemonic {
            Mnemonic::Bcc => self.branch(self.get_flg(&FlgCodes::CARRY) == 0),
            Mnemonic::Bcs => self.branch(self.get_flg(&FlgCodes::CARRY) == 1),
            Mnemonic::Beq => self.branch(self.get_flg(&FlgCodes::ZERO) == 1),
            Mnemonic::Bne => self.branch(self.get_flg(&FlgCodes::ZERO) == 0),
            Mnemonic::Bmi => self.branch(self.get_flg(&FlgCodes::NEGATIV) == 1),
            Mnemonic::Bpl => self.branch(self.get_flg(&FlgCodes::NEGATIV) == 0),
            Mnemonic::Bvs => self.branch(self.get_flg(&FlgCodes::OVERFLOW) == 1),
            Mnemonic::Bvc => self.branch(self.get_flg(&FlgCodes::OVERFLOW) == 0),
            Mnemonic::Clc => self.set_flg(&FlgCodes::CARRY, 0),
            Mnemonic::Cld => self.set_flg(&FlgCodes::DECIMAL_MODE, 0),
            Mnemonic::Cli => self.set_flg(&FlgCodes::INTERRUPT_DISABLE, 0),
            Mnemonic::Clv => self.set_flg(&FlgCodes::OVERFLOW, 0),
            Mnemonic::Sec => self.set_flg(&FlgCodes::CARRY, 1),
            Mnemonic::Sed => self.set_flg(&FlgCodes::DECIMAL_MODE, 1),
            Mnemonic::Sei => self.set_flg(&FlgCodes::INTERRUPT_DISABLE, 1),
            Mnemonic::Nop => {},
            _ => {},
        }
    }

    /// Executes one decoded instruction other than the halt, the counter
    /// pointing just past the opcode byte.
    fn execute(&mut self, op: &OpCode)
        requires
            well_formed(*op),
            op.mnemonic != Mnemonic::Brk,
        ensures
            final(self)@ == instruction_spec(old(self)@, op.mnemonic, op.mode),
    {
        match op.mnemonic {
            Mnemonic::Lda | Mnemonic::Ldx | Mnemonic::Ldy | Mnemonic::Sta | Mnemonic::Stx | Mnemonic::Sty | Mnemonic::Tax | Mnemonic::Txa | Mnemonic::Tay | Mnemonic::Tya | Mnemonic::Tsx | Mnemonic::Txs => self.exec_transfer(op),
            Mnemonic::Adc | Mnemonic::Sbc | Mnemonic::And | Mnemonic::Ora | Mnemonic::Eor | Mnemonic::Bit | Mnemonic::Cmp | Mnemonic::Cpx | Mnemonic::Cpy => self.exec_arithmetic(op),
            Mnemonic::Asl | Mnemonic::Lsr | Mnemonic::Rol | Mnemonic::Ror | Mnemonic::Inc | Mnemonic::Dec | Mnemonic::Inx | Mnemonic::Iny | Mnemonic::Dex | Mnemonic::Dey => self.exec_shift_count(op),
            Mnemonic::Pha | Mnemonic::Php | Mnemonic::Pla | Mnemonic::Plp | Mnemonic::Jmp | Mnemonic::Jsr | Mnemonic::Rts | Mnemonic::Rti => self.exec_stack_jump(op),
            Mnemonic::Bcc | Mnemonic::Bcs | Mnemonic::Beq | Mnemonic::Bne | Mnemonic::Bmi | Mnemonic::Bpl | Mnemonic::Bvs | Mnemonic::Bvc | Mnemonic::Clc | Mnemonic::Cld | Mnemonic::Cli | Mnemonic::Clv | Mnemonic::Sec | Mnemonic::Sed | Mnemonic::Sei | Mnemonic::Nop => self.exec_flow(op),
            Mnemonic::Brk => {},
        }
    }

    /// Fetches, decodes and executes one instruction. `Ok(true)` when the
    /// program goes on, `Ok(false)` at the halt opcode.
    pub fn step(&mut self) -> (r: Result<bool, CpuError>)
        ensures
            (final(self)@, r) == step_spec(old(self)@),
    {
        let code = self.mem_read(self.program_counter);
        self.program_counter = self.program_counter.wrapping_add(1);
        let program_counter_state = self.program_counter;
        match decode(code) {
            None => Err(CpuError::UnknownOpcode(code)),
            Some(opcode) => {
                if opcode.mnemonic == Mnemonic::Brk {
                    return Ok(false);
                }
                self.execute(&opcode);
                if program_counter_state == self.program_counter {
                    self.program_counter = self.program_counter.wrapping_add(
                        opcode.len as u16 - 1,
                    );
                }
                Ok(true)
            },
        }
    }

    /// Clears the working registers, resets the status and loads the program
    /// counter from the reset vector. The stack pointer is left as it is.
    pub fn reset(&mut self)
        ensures
            final(self)@ == reset_spec(old(self)@),
    {
        self.register_a = 0;
        self.register_x = 0;
        self.register_y = 0;
        self.status = STATUS_RESET;
        self.program_counter = self.mem_read_u16(RESET_VECTOR);
    }

    /// Writes the program from 0x8000 on and points the reset vector there.
    pub fn load(&mut self, program: Vec<u8>)
        requires
            program@.len() <= 0x8000,
        ensures
            final(self)@ == loaded(old(self)@, program@),
    {
        let ghost start = self@;
        proof {
            self.bus.lemma_size();
        }
        let mut i: usize = 0;
        assert(start.mem =~= with_program(start.mem, 0x8000, program@.take(0)));
        while i < program.len()
            invariant
                program@.len() <= 0x8000,
                i <= program@.len(),
                start.mem.len() == 0x10000,
                self@ == (Machine { mem: with_program(start.mem, 0x8000, program@.take(i as int)), ..start }),
            decreases program@.len() - i,
        {
            self.mem_write(PRG_BASE + i as u16, program[i]);
            i = i + 1;
            assert(self@.mem =~= with_program(start.mem, 0x8000, program@.take(i as int)));
        }
        assert(program@.take(i as int) =~= program@);
        self.mem_write_u16(RESET_VECTOR, PRG_BASE);
    }

    /// Loads the program, resets and runs it.
    pub fn load_and_run(&mut self, program: Vec<u8>) -> (r: Result<(), CpuError>)
        requires
            program@.len() <= 0x8000,
        ensures
            (final(self)@, r) == run_spec(
                reset_spec(loaded(old(self)@, program@)),
                u64::MAX as nat,
            ),
    {
        self.load(program);
        self.reset();
        self.run()
    }

    /// Runs until the halt opcode. Stops with an error at an undefined opcode,
    /// or after `u64::MAX` instructions.
    pub fn run(&mut self) -> (r: Result<(), CpuError>)
        ensures
            (final(self)@, r) == run_spec(old(self)@, u64::MAX as nat),
    {
        let ghost start = self@;
        let mut steps: u64 = 0;
        while steps < u64::MAX
            invariant
                start == old(self)@,
                run_spec(start, u64::MAX as nat) == run_spec(self@, (u64::MAX - steps) as nat),
            decreases u64::MAX - steps,
        {
            let ghost before = self@;
            let r = self.step();
            assert(run_spec(before, (u64::MAX - steps) as nat) == match r {
                Ok(true) => run_spec(self@, (u64::MAX - steps - 1) as nat),
                Ok(false) => (self@, Ok::<(), CpuError>(())),
                Err(e) => (self@, Err::<(), CpuError>(e)),
            });
            match r {
                Ok(true) => {},
                Ok(false) => return Ok(()),
                Err(e) => return Err(e),
            }
            steps = steps + 1;
        }
        Err(CpuError::StepLimit)
    }

    /// Runs like `run`, handing the processor to `callback` after every
    /// instruction that does not halt, and never for the halt.
    ///
    /// The calls form a trace `handed`/`left`: the k-th call is handed what
    /// one non-halting step makes from the start (first call) or from the
    /// state the previous call left, and `left[k]` is where that call left the
    /// processor: every relation `p` that each call of the callback guarantees
    /// between the state it gets and the state it leaves holds of
    /// `(handed[k], left[k])`. The run ends with the step after the last call:
    /// at a halt or an undefined opcode, or with `StepLimit` after `u64::MAX`
    /// calls. A callback that leaves the processor as it got it makes this
    /// exactly `run`.
    pub fn run_with_callback<F: FnMut(&mut CPU)>(&mut self, mut callback: F) -> (r: Result<
        (),
        CpuError,
    >)
        requires
            forall|c: &mut CPU|
                (exists|m: Machine| #[trigger] step_spec(m) == (c@, Ok::<bool, CpuError>(true)))
                    ==> callback.requires((c,)),
        ensures
            step_spec(old(self)@).1 != Ok::<bool, CpuError>(true) ==> (final(self)@, r)
                == run_spec(old(self)@, 1),
            exists|handed: Seq<Machine>, left: Seq<Machine>|
                #[trigger] handed_states(old(self)@, handed, left) && run_ends(
                    old(self)@,
                    left,
                    final(self)@,
                    r,
                ) && forall|p: spec_fn(Machine, Machine) -> bool|
                    (forall|c: &mut CPU|
                        #[trigger] callback.ensures((c,), ()) ==> p((*c)@, (*final(c))@))
                        ==> #[trigger] each_call(p, handed, left),
            (forall|c: &mut CPU| #[trigger] callback.ensures((c,), ()) ==> (*final(c))@ == (*c)@)
                ==> (final(self)@, r) == run_spec(old(self)@, u64::MAX as nat),
    {
        let ghost start = self@;
        let ghost observer = callback;
        let ghost mut handed: Seq<Machine> = Seq::empty();
        let ghost mut left: Seq<Machine> = Seq::empty();
        let mut result: Result<(), CpuError> = Err(CpuError::StepLimit);
        let mut steps: u64 = 0;
        while steps < u64::MAX
            invariant_except_break
                result == Err::<(), CpuError>(CpuError::StepLimit),
                steps == 0 ==> self@ == old(self)@,
                steps > 0 ==> step_spec(old(self)@).1 == Ok::<bool, CpuError>(true),
                self@ == resume_state(start, left),
                (forall|c: &mut CPU| #[trigger] observer.ensures((c,), ()) ==> (*final(c))@ == (*c)@)
                    ==> run_spec(start, u64::MAX as nat) == run_spec(
                    self@,
                    (u64::MAX - steps) as nat,
                ),
            invariant
                forall|c: &mut CPU|
                    (exists|m: Machine| #[trigger] step_spec(m) == (c@, Ok::<bool, CpuError>(true)))
                        ==> callback.requires((c,)),
                start == old(self)@,
                callback == observer,
                steps == left.len(),
                handed_states(start, handed, left),
                forall|p: spec_fn(Machine, Machine) -> bool|
                    (forall|c: &mut CPU|
                        #[trigger] observer.ensures((c,), ()) ==> p((*c)@, (*final(c))@))
                        ==> #[trigger] each_call(p, handed, left),
            ensures
                run_ends(start, left, self@, result),
                step_spec(start).1 != Ok::<bool, CpuError>(true) ==> (self@, result) == run_spec(
                    start,
                    1,
                ),
                (forall|c: &mut CPU| #[trigger] observer.ensures((c,), ()) ==> (*final(c))@ == (*c)@)
                    ==> (self@, result) == run_spec(start, u64::MAX as nat),
            decreases u64::MAX - steps,
        {
            let ghost before = self@;
            let r = self.step();
            assert(run_spec(before, (u64::MAX - steps) as nat) == match r {
                Ok(true) => run_spec(self@, (u64::MAX - steps - 1) as nat),
                Ok(false) => (self@, Ok::<(), CpuError>(())),
                Err(e) => (self@, Err::<(), CpuError>(e)),
            });
            match r {
                Ok(true) => {},
                Ok(false) => {
                    result = Ok(());
                    break;
                },
                Err(e) => {
                    assert(e matches CpuError::UnknownOpcode(_));
                    result = Err(e);
                    break;
                },
            }
            let ghost h = self@;
            assert(step_spec(before) == (h, Ok::<bool, CpuError>(true)));
            callback(self);
            proof {
                let handed0 = handed;
                let left0 = left;
                handed = handed.push(h);
                left = left.push(self@);
                assert forall|k: int| 0 <= k < handed.len() implies step_spec(
                    resume_state(start, left.take(k)),
                ) == (#[trigger] handed[k], Ok::<bool, CpuError>(true)) by {
                    if k < handed0.len() {
                        assert(left.take(k) =~= left0.take(k));
                        assert(handed[k] == handed0[k]);
                    } else {
                        assert(left.take(k) =~= left0);
                    }
                }
                assert forall|p: spec_fn(Machine, Machine) -> bool|
                    (forall|c: &mut CPU|
                        #[trigger] observer.ensures((c,), ()) ==> p((*c)@, (*final(c))@))
                        implies #[trigger] each_call(p, handed, left) by {
                    assert(each_call(p, handed0, left0));
                    assert(p(h, self@));
                    assert forall|k: int| 0 <= k < handed.len() implies #[trigger] p(
                        handed[k],
                        left[k],
                    ) by {
                        if k < handed0.len() {
                            assert(handed[k] == handed0[k] && left[k] == left0[k]);
                        }
                    }
                }
            }
            steps = steps + 1;
        }
        proof {
            if steps == u64::MAX {
                assert(run_spec(self@, 0) == (self@, Err::<(), CpuError>(CpuError::StepLimit)));
            }
        }
        result
    }
}

} // verus!
