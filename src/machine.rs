//! The processor as a mathematical state, and what each instruction does to
//! that state. The executable core in `cpu` is proved against these
//! definitions.
use vstd::prelude::*;
use crate::alu::{
    adc_spec, asl_spec, compare_spec, lsr_spec, rol_spec, ror_spec, sbc_spec, sign, signed,
};
use crate::cpu::{CpuError, FlgCodes, REGISTER};
use crate::opcodes::{AddressingMode, Mnemonic, opcode_spec};

verus! {

/// Registers, status byte and the whole 64 KiB address space.
pub struct Machine {
    pub a: u8,
    pub x: u8,
    pub y: u8,
    pub status: u8,
    pub pc: u16,
    pub sp: u8,
    pub mem: Seq<u8>,
}

pub open spec fn flag_mask(f: FlgCodes) -> u8 {
    match f {
        FlgCodes::CARRY => 0x01,
        FlgCodes::ZERO => 0x02,
        FlgCodes::INTERRUPT_DISABLE => 0x04,
        FlgCodes::DECIMAL_MODE => 0x08,
        FlgCodes::BREAK => 0x10,
        FlgCodes::RESERVED => 0x20,
        FlgCodes::OVERFLOW => 0x40,
        FlgCodes::NEGATIV => 0x80,
    }
}

pub open spec fn has_flag(status: u8, f: FlgCodes) -> bool {
    status & flag_mask(f) != 0
}

pub open spec fn with_flag(status: u8, f: FlgCodes, on: bool) -> u8 {
    if on {
        status | flag_mask(f)
    } else {
        status & !flag_mask(f)
    }
}

/// The shared flag step after a byte result: zero iff the byte is 0,
/// negative iff its bit 7 is set.
pub open spec fn update_zn(status: u8, r: u8) -> u8 {
    with_flag(with_flag(status, FlgCodes::ZERO, r == 0), FlgCodes::NEGATIV, sign(r))
}

pub open spec fn wrap16(v: int) -> u16 {
    (v % 0x10000) as u16
}

pub open spec fn wrap8(v: int) -> u8 {
    (v % 0x100) as u8
}

/// A 16-bit value from its low and high byte.
pub open spec fn word(lo: u8, hi: u8) -> u16 {
    (hi * 256 + lo) as u16
}

/// Little-endian word at `addr`, the high byte at the next address with
/// 16-bit wraparound.
pub open spec fn read_word(mem: Seq<u8>, addr: u16) -> u16 {
    word(mem[addr as int], mem[wrap16(addr + 1) as int])
}

pub open spec fn write_word(mem: Seq<u8>, addr: u16, v: u16) -> Seq<u8> {
    mem.update(addr as int, (v % 256) as u8).update(wrap16(addr + 1) as int, (v / 256) as u8)
}

/// Little-endian word in the zero page; the high byte wraps within the page.
pub open spec fn zero_page_word(mem: Seq<u8>, ptr: u8) -> u16 {
    word(mem[ptr as int], mem[wrap8(ptr + 1) as int])
}

/// The effective address of an operand, the program counter pointing just
/// past the opcode byte. No address applies without an addressing mode.
pub open spec fn operand_address(m: Machine, mode: AddressingMode) -> u16 {
    let b = m.mem[m.pc as int];
    match mode {
        AddressingMode::Immediate => m.pc,
        AddressingMode::ZeroPage => b as u16,
        AddressingMode::ZeroPage_X => wrap8(b + m.x) as u16,
        AddressingMode::ZeroPage_Y => wrap8(b + m.y) as u16,
        AddressingMode::Absolute => read_word(m.mem, m.pc),
        AddressingMode::Absolute_X => wrap16(read_word(m.mem, m.pc) + m.x),
        AddressingMode::Absolute_Y => wrap16(read_word(m.mem, m.pc) + m.y),
        AddressingMode::Indirect_X => zero_page_word(m.mem, wrap8(b + m.x)),
        AddressingMode::Indirect_Y => wrap16(zero_page_word(m.mem, b) + m.y),
        AddressingMode::NoneAddressing => 0,
    }
}

pub open spec fn operand(m: Machine, mode: AddressingMode) -> u8 {
    m.mem[operand_address(m, mode) as int]
}

/// Target of the indirect jump: a pointer whose low byte is 0xFF takes its
/// high byte from the start of the same page.
pub open spec fn indirect_target(mem: Seq<u8>, ptr: u16) -> u16 {
    if ptr % 256 == 255 {
        word(mem[ptr as int], mem[ptr - 255])
    } else {
        read_word(mem, ptr)
    }
}

pub open spec fn stack_address(sp: u8) -> int {
    0x100 + sp
}

pub open spec fn push(m: Machine, v: u8) -> Machine {
    Machine { mem: m.mem.update(stack_address(m.sp), v), sp: wrap8(m.sp - 1), ..m }
}

pub open spec fn pop(m: Machine) -> (u8, Machine) {
    let sp = wrap8(m.sp + 1);
    (m.mem[stack_address(sp)], Machine { sp: sp, ..m })
}

/// Pushes the high byte, then the low byte.
pub open spec fn push_word(m: Machine, v: u16) -> Machine {
    push(push(m, (v / 256) as u8), (v % 256) as u8)
}

/// Pops the low byte, then the high byte.
pub open spec fn pop_word(m: Machine) -> (u16, Machine) {
    let (lo, m1) = pop(m);
    let (hi, m2) = pop(m1);
    (word(lo, hi), m2)
}

pub open spec fn set_zn(m: Machine, r: u8) -> Machine {
    Machine { status: update_zn(m.status, r), ..m }
}

pub open spec fn set_flag(m: Machine, f: FlgCodes, on: bool) -> Machine {
    Machine { status: with_flag(m.status, f, on), ..m }
}

/// Where a relative branch lands: the displacement byte at `pc` is signed and
/// counts from the address after it.
pub open spec fn branch_target(pc: u16, displacement: u8) -> u16 {
    wrap16(pc + 1 + signed(displacement))
}

pub open spec fn branch_spec(m: Machine, condition: bool) -> Machine {
    if condition {
        Machine { pc: branch_target(m.pc, m.mem[m.pc as int]), ..m }
    } else {
        m
    }
}

pub open spec fn load_spec(m: Machine, mode: AddressingMode, kind: REGISTER) -> Machine {
    let v = operand(m, mode);
    let m1 = match kind {
        REGISTER::REGISTER_A => Machine { a: v, ..m },
        REGISTER::REGISTER_X => Machine { x: v, ..m },
        REGISTER::REGISTER_Y => Machine { y: v, ..m },
    };
    set_zn(m1, v)
}

pub open spec fn register_value(m: Machine, kind: REGISTER) -> u8 {
    match kind {
        REGISTER::REGISTER_A => m.a,
        REGISTER::REGISTER_X => m.x,
        REGISTER::REGISTER_Y => m.y,
    }
}

pub open spec fn store_spec(m: Machine, mode: AddressingMode, kind: REGISTER) -> Machine {
    Machine {
        mem: m.mem.update(operand_address(m, mode) as int, register_value(m, kind)),
        ..m
    }
}

/// Arithmetic result into the accumulator with carry and overflow.
pub open spec fn arith_result(m: Machine, r: (u8, bool, bool)) -> Machine {
    let status = with_flag(
        with_flag(m.status, FlgCodes::CARRY, r.1),
        FlgCodes::OVERFLOW,
        r.2,
    );
    Machine { a: r.0, status: update_zn(status, r.0), ..m }
}

/// Shift or rotate result into the accumulator, the bit shifted out to carry.
pub open spec fn shift_accumulator(m: Machine, r: (u8, bool)) -> Machine {
    Machine { a: r.0, status: update_zn(with_flag(m.status, FlgCodes::CARRY, r.1), r.0), ..m }
}

/// Shift or rotate result into memory, the bit shifted out to carry.
pub open spec fn shift_memory(m: Machine, addr: u16, r: (u8, bool)) -> Machine {
    Machine {
        mem: m.mem.update(addr as int, r.0),
        status: update_zn(with_flag(m.status, FlgCodes::CARRY, r.1), r.0),
        ..m
    }
}

/// A new byte at `addr`, with the zero and negative flags from it.
pub open spec fn write_result(m: Machine, addr: u16, r: u8) -> Machine {
    Machine { mem: m.mem.update(addr as int, r), status: update_zn(m.status, r), ..m }
}

pub open spec fn compare_state(m: Machine, mode: AddressingMode, reg: u8) -> Machine {
    let (d, c) = compare_spec(reg, operand(m, mode));
    Machine { status: update_zn(with_flag(m.status, FlgCodes::CARRY, c), d), ..m }
}

pub open spec fn bit_state(m: Machine, mode: AddressingMode) -> Machine {
    let v = operand(m, mode);
    let s1 = with_flag(m.status, FlgCodes::ZERO, m.a & v == 0);
    let s2 = with_flag(s1, FlgCodes::OVERFLOW, v & 0x40 != 0);
    Machine { status: with_flag(s2, FlgCodes::NEGATIV, sign(v)), ..m }
}

/// What an instruction does, the program counter pointing just past its
/// opcode byte. Operand bytes are skipped afterwards by `step_spec`.
#[verifier::opaque]
pub open spec fn instruction_spec(m: Machine, mn: Mnemonic, mode: AddressingMode) -> Machine {
    let carry = has_flag(m.status, FlgCodes::CARRY);
    let addr = operand_address(m, mode);
    let v = operand(m, mode);
    let acc = mode == AddressingMode::NoneAddressing;
    match mn {
        Mnemonic::Lda => load_spec(m, mode, REGISTER::REGISTER_A),
        Mnemonic::Ldx => load_spec(m, mode, REGISTER::REGISTER_X),
        Mnemonic::Ldy => load_spec(m, mode, REGISTER::REGISTER_Y),
        Mnemonic::Sta => store_spec(m, mode, REGISTER::REGISTER_A),
        Mnemonic::Stx => store_spec(m, mode, REGISTER::REGISTER_X),
        Mnemonic::Sty => store_spec(m, mode, REGISTER::REGISTER_Y),
        Mnemonic::Tax => set_zn(Machine { x: m.a, ..m }, m.a),
        Mnemonic::Txa => set_zn(Machine { a: m.x, ..m }, m.x),
        Mnemonic::Tay => set_zn(Machine { y: m.a, ..m }, m.a),
        Mnemonic::Tya => set_zn(Machine { a: m.y, ..m }, m.y),
        Mnemonic::Tsx => set_zn(Machine { x: m.sp, ..m }, m.sp),
        Mnemonic::Txs => Machine { sp: m.x, ..m },
        Mnemonic::Adc => arith_result(m, adc_spec(m.a, v, carry)),
        Mnemonic::Sbc => arith_result(m, sbc_spec(m.a, v, carry)),
        Mnemonic::And => set_zn(Machine { a: m.a & v, ..m }, m.a & v),
        Mnemonic::Ora => set_zn(Machine { a: m.a | v, ..m }, m.a | v),
        Mnemonic::Eor => set_zn(Machine { a: m.a ^ v, ..m }, m.a ^ v),
        Mnemonic::Asl => if acc {
            shift_accumulator(m, asl_spec(m.a))
        } else {
            shift_memory(m, addr, asl_spec(v))
        },
        Mnemonic::Lsr => if acc {
            shift_accumulator(m, lsr_spec(m.a))
        } else {
            shift_memory(m, addr, lsr_spec(v))
        },
        Mnemonic::Rol => if acc {
            shift_accumulator(m, rol_spec(m.a, carry))
        } else {
            shift_memory(m, addr, rol_spec(v, carry))
        },
        Mnemonic::Ror => if acc {
            shift_accumulator(m, ror_spec(m.a, carry))
        } else {
            shift_memory(m, addr, ror_spec(v, carry))
        },
        Mnemonic::Bit => bit_state(m, mode),
        Mnemonic::Cmp => compare_state(m, mode, m.a),
        Mnemonic::Cpx => compare_state(m, mode, m.x),
        Mnemonic::Cpy => compare_state(m, mode, m.y),
        Mnemonic::Inc => write_result(m, addr, wrap8(v + 1)),
        Mnemonic::Dec => write_result(m, addr, wrap8(v - 1)),
        Mnemonic::Inx => set_zn(Machine { x: wrap8(m.x + 1), ..m }, wrap8(m.x + 1)),
        Mnemonic::Iny => set_zn(Machine { y: wrap8(m.y + 1), ..m }, wrap8(m.y + 1)),
        Mnemonic::Dex => set_zn(Machine { x: wrap8(m.x - 1), ..m }, wrap8(m.x - 1)),
        Mnemonic::Dey => set_zn(Machine { y: wrap8(m.y - 1), ..m }, wrap8(m.y - 1)),
        Mnemonic::Pha => push(m, m.a),
        Mnemonic::Php => push(m, m.status),
        Mnemonic::Pla => {
            let (b, m1) = pop(m);
            set_zn(Machine { a: b, ..m1 }, b)
        },
        Mnemonic::Plp => {
            let (b, m1) = pop(m);
            Machine { status: update_zn(b, b), ..m1 }
        },
        Mnemonic::Jmp => if mode == AddressingMode::Absolute {
            Machine { pc: read_word(m.mem, m.pc), ..m }
        } else {
            Machine { pc: indirect_target(m.mem, read_word(m.mem, m.pc)), ..m }
        },
        Mnemonic::Jsr => {
            let m1 = push_word(m, wrap16(m.pc + 1));
            Machine { pc: read_word(m1.mem, m.pc), ..m1 }
        },
        Mnemonic::Rts => {
            let (ret, m1) = pop_word(m);
            Machine { pc: wrap16(ret + 1), ..m1 }
        },
        Mnemonic::Rti => {
            let (s, m1) = pop(m);
            let (ret, m2) = pop_word(m1);
            Machine { status: s, pc: ret, ..m2 }
        },
        Mnemonic::Bcc => branch_spec(m, !carry),
        Mnemonic::Bcs => branch_spec(m, carry),
        Mnemonic::Beq => branch_spec(m, has_flag(m.status, FlgCodes::ZERO)),
        Mnemonic::Bne => branch_spec(m, !has_flag(m.status, FlgCodes::ZERO)),
        Mnemonic::Bmi => branch_spec(m, has_flag(m.status, FlgCodes::NEGATIV)),
        Mnemonic::Bpl => branch_spec(m, !has_flag(m.status, FlgCodes::NEGATIV)),
        Mnemonic::Bvs => branch_spec(m, has_flag(m.status, FlgCodes::OVERFLOW)),
        Mnemonic::Bvc => branch_spec(m, !has_flag(m.status, FlgCodes::OVERFLOW)),
        Mnemonic::Clc => set_flag(m, FlgCodes::CARRY, false),
        Mnemonic::Cld => set_flag(m, FlgCodes::DECIMAL_MODE, false),
        Mnemonic::Cli => set_flag(m, FlgCodes::INTERRUPT_DISABLE, false),
        Mnemonic::Clv => set_flag(m, FlgCodes::OVERFLOW, false),
        Mnemonic::Sec => set_flag(m, FlgCodes::CARRY, true),
        Mnemonic::Sed => set_flag(m, FlgCodes::DECIMAL_MODE, true),
        Mnemonic::Sei => set_flag(m, FlgCodes::INTERRUPT_DISABLE, true),
        Mnemonic::Brk | Mnemonic::Nop => m,
    }
}

/// One fetch-decode-execute step. The counter moves past the opcode before
/// decoding; an undefined byte is a fault and the halt opcode stops. When the
/// instruction leaves the counter where decoding put it, the operand bytes
/// are skipped. `Ok(true)` means the program goes on.
pub open spec fn step_spec(m: Machine) -> (Machine, Result<bool, CpuError>) {
    let code = m.mem[m.pc as int];
    let m1 = Machine { pc: wrap16(m.pc + 1), ..m };
    match opcode_spec(code) {
        None => (m1, Err(CpuError::UnknownOpcode(code))),
        Some(op) => if op.mnemonic == Mnemonic::Brk {
            (m1, Ok(false))
        } else {
            let m2 = instruction_spec(m1, op.mnemonic, op.mode);
            if m2.pc == m1.pc {
                (Machine { pc: wrap16(m2.pc + op.len - 1), ..m2 }, Ok(true))
            } else {
                (m2, Ok(true))
            }
        },
    }
}

/// Steps until the program halts or faults, for at most `fuel` steps.
pub open spec fn run_spec(m: Machine, fuel: nat) -> (Machine, Result<(), CpuError>)
    decreases fuel,
{
    if fuel == 0 {
        (m, Err(CpuError::StepLimit))
    } else {
        let (m1, r) = step_spec(m);
        match r {
            Ok(true) => run_spec(m1, (fuel - 1) as nat),
            Ok(false) => (m1, Ok(())),
            Err(e) => (m1, Err(e)),
        }
    }
}

/// Memory with a program written from `base` on, other bytes kept.
pub open spec fn with_program(mem: Seq<u8>, base: int, program: Seq<u8>) -> Seq<u8> {
    Seq::new(
        mem.len(),
        |i: int|
            if base <= i < base + program.len() {
                program[i - base]
            } else {
                mem[i]
            },
    )
}

/// A program written from 0x8000 on, and the reset vector pointed there.
pub open spec fn loaded(m: Machine, program: Seq<u8>) -> Machine {
    Machine { mem: write_word(with_program(m.mem, 0x8000, program), 0xFFFC, 0x8000), ..m }
}

/// Working registers cleared, status reset, the counter from the reset
/// vector; the stack pointer and memory unchanged.
pub open spec fn reset_spec(m: Machine) -> Machine {
    Machine { a: 0, x: 0, y: 0, status: 0b100100, pc: read_word(m.mem, 0xFFFC), ..m }
}

} // verus!
