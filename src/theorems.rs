//! Properties of the instruction semantics that hold for every state.
use vstd::prelude::*;
use crate::alu::signed;
use crate::cpu::FlgCodes;
use crate::machine::{
    Machine, has_flag, instruction_spec, operand_address, pop_word, push_word, step_spec,
    update_zn, with_flag, wrap16, word,
};
use crate::opcodes::{AddressingMode, Mnemonic, is_branch, lemma_table_well_formed, opcode_spec};

verus! {

/// The zero and negative step: zero is set iff the byte is 0, negative is
/// bit 7 of the byte, and every other flag keeps its value.
pub proof fn lemma_update_zn(status: u8, r: u8)
    ensures
        has_flag(update_zn(status, r), FlgCodes::ZERO) == (r == 0),
        has_flag(update_zn(status, r), FlgCodes::NEGATIV) == (r & 0x80 == 0x80),
        forall|f: FlgCodes|
            f != FlgCodes::ZERO && f != FlgCodes::NEGATIV ==> #[trigger] has_flag(
                update_zn(status, r),
                f,
            ) == has_flag(status, f),
{
    let z = r == 0;
    let n = r >= 0x80;
    let s1: u8 = if z {
        status | 0x02
    } else {
        status & !0x02u8
    };
    let s2: u8 = if n {
        s1 | 0x80
    } else {
        s1 & !0x80u8
    };
    assert(update_zn(status, r) == s2);
    assert((s2 & 0x02 != 0) == z) by (bit_vector)
        requires
            s1 == if z {
                status | 0x02
            } else {
                status & !0x02u8
            },
            s2 == if n {
                s1 | 0x80
            } else {
                s1 & !0x80u8
            },
    ;
    assert((s2 & 0x80 != 0) == n && (r & 0x80 == 0x80) == (r >= 0x80)) by (bit_vector)
        requires
            s2 == if n {
                s1 | 0x80
            } else {
                s1 & !0x80u8
            },
            n == (r >= 0x80),
    ;
    assert forall|f: FlgCodes| f != FlgCodes::ZERO && f != FlgCodes::NEGATIV implies #[trigger] has_flag(
        s2,
        f,
    ) == has_flag(status, f) by {
        assert((s2 & 0x01 != 0) == (status & 0x01 != 0) && (s2 & 0x04 != 0) == (status & 0x04
            != 0) && (s2 & 0x08 != 0) == (status & 0x08 != 0) && (s2 & 0x10 != 0) == (status
            & 0x10 != 0) && (s2 & 0x20 != 0) == (status & 0x20 != 0) && (s2 & 0x40 != 0) == (
        status & 0x40 != 0)) by (bit_vector)
            requires
                s1 == if z {
                    status | 0x02
                } else {
                    status & !0x02u8
                },
                s2 == if n {
                    s1 | 0x80
                } else {
                    s1 & !0x80u8
                },
        ;
    }
}

/// After an add or subtract, carry and overflow read back as the adder gave
/// them, whatever the zero and negative step did next.
pub proof fn lemma_arith_flags(status: u8, r: (u8, bool, bool))
    ensures
        has_flag(update_zn(with_flag(with_flag(status, FlgCodes::CARRY, r.1), FlgCodes::OVERFLOW, r.2), r.0), FlgCodes::CARRY) == r.1,
        has_flag(update_zn(with_flag(with_flag(status, FlgCodes::CARRY, r.1), FlgCodes::OVERFLOW, r.2), r.0), FlgCodes::OVERFLOW) == r.2,
{
    let c = r.1;
    let v = r.2;
    let s1 = with_flag(status, FlgCodes::CARRY, c);
    let s2 = with_flag(s1, FlgCodes::OVERFLOW, v);
    assert(((s1 & 0x01 != 0) == c) && ((s2 & 0x40 != 0) == v) && ((s2 & 0x01 != 0) == c))
        by (bit_vector)
        requires
            s1 == if c {
                status | 0x01
            } else {
                status & !0x01u8
            },
            s2 == if v {
                s1 | 0x40
            } else {
                s1 & !0x40u8
            },
    ;
    lemma_update_zn(s2, r.0);
}

/// The state just after the opcode byte was fetched.
pub open spec fn fetched(m: Machine) -> Machine {
    Machine { pc: wrap16(m.pc + 1), ..m }
}

/// The byte that the instruction at the program counter writes to a register
/// or to memory, read from the state after the step; `None` when the
/// instruction writes no byte result (stores, stack pushes, jumps, flag
/// changes, compares and the bit test among them).
pub open spec fn written_result(m: Machine) -> Option<u8> {
    let before = fetched(m);
    let after = step_spec(m).0;
    match opcode_spec(m.mem[m.pc as int]) {
        None => None,
        Some(op) => match op.mnemonic {
            Mnemonic::Lda | Mnemonic::Txa | Mnemonic::Tya | Mnemonic::Adc | Mnemonic::Sbc
            | Mnemonic::And | Mnemonic::Ora | Mnemonic::Eor | Mnemonic::Pla => Some(after.a),
            Mnemonic::Ldx | Mnemonic::Tax | Mnemonic::Tsx | Mnemonic::Inx | Mnemonic::Dex => Some(
                after.x,
            ),
            Mnemonic::Ldy | Mnemonic::Tay | Mnemonic::Iny | Mnemonic::Dey => Some(after.y),
            Mnemonic::Asl | Mnemonic::Lsr | Mnemonic::Rol | Mnemonic::Ror => if op.mode
                == AddressingMode::NoneAddressing {
                Some(after.a)
            } else {
                Some(after.mem[operand_address(before, op.mode) as int])
            },
            Mnemonic::Inc | Mnemonic::Dec => Some(
                after.mem[operand_address(before, op.mode) as int],
            ),
            _ => None,
        },
    }
}

/// For every instruction that writes a byte result, after its step the zero
/// flag is set iff that byte is 0 and the negative flag equals its bit 7.
pub proof fn lemma_zero_negative_follow_result(m: Machine)
    requires
        m.mem.len() == 0x10000,
        written_result(m) is Some,
    ensures
        has_flag(step_spec(m).0.status, FlgCodes::ZERO) == (written_result(m)->Some_0 == 0),
        has_flag(step_spec(m).0.status, FlgCodes::NEGATIV) == (written_result(m)->Some_0 & 0x80
            == 0x80),
{
    reveal(instruction_spec);
    let r = written_result(m)->Some_0;
    let before = fetched(m);
    let op = opcode_spec(m.mem[m.pc as int])->Some_0;
    let after = instruction_spec(before, op.mnemonic, op.mode);
    assert(step_spec(m).0.status == after.status);
    // Every such instruction ends with the zero and negative step on `r`.
    assert(exists|s: u8| after.status == update_zn(s, r));
    let s = choose|s: u8| after.status == update_zn(s, r);
    lemma_update_zn(s, r);
}

/// Whether a conditional branch is taken under a status byte.
pub open spec fn branch_taken(mn: Mnemonic, status: u8) -> bool {
    match mn {
        Mnemonic::Bcc => !has_flag(status, FlgCodes::CARRY),
        Mnemonic::Bcs => has_flag(status, FlgCodes::CARRY),
        Mnemonic::Beq => has_flag(status, FlgCodes::ZERO),
        Mnemonic::Bne => !has_flag(status, FlgCodes::ZERO),
        Mnemonic::Bmi => has_flag(status, FlgCodes::NEGATIV),
        Mnemonic::Bpl => !has_flag(status, FlgCodes::NEGATIV),
        Mnemonic::Bvs => has_flag(status, FlgCodes::OVERFLOW),
        Mnemonic::Bvc => !has_flag(status, FlgCodes::OVERFLOW),
        _ => false,
    }
}

/// A conditional branch at address A with displacement byte d lands at
/// A + 2 + d (d signed, 16-bit wraparound) when taken, and at A + 2 when not.
/// The displacement 0xFF is left out: its target is the byte right after the
/// opcode, which the step takes for a counter the instruction did not move,
/// so the operand skip applies there.
pub proof fn lemma_branch_displacement(m: Machine)
    requires
        opcode_spec(m.mem[m.pc as int]) is Some,
        is_branch(opcode_spec(m.mem[m.pc as int])->Some_0.mnemonic),
    ensures
        ({
            let op = opcode_spec(m.mem[m.pc as int])->Some_0;
            let d = m.mem[wrap16(m.pc + 1) as int];
            &&& step_spec(m).1 == Ok::<bool, crate::cpu::CpuError>(true)
            &&& branch_taken(op.mnemonic, m.status) && d != 0xFF ==> step_spec(m).0.pc == wrap16(
                m.pc + 2 + signed(d),
            )
            &&& !branch_taken(op.mnemonic, m.status) ==> step_spec(m).0.pc == wrap16(m.pc + 2)
        }),
{
    reveal(instruction_spec);
    lemma_table_well_formed(m.mem[m.pc as int]);
}

/// Pushing a 16-bit value and popping one gives the value back and restores
/// the stack pointer, for every stack pointer, wraparound included.
pub proof fn lemma_stack_round_trip(m: Machine, v: u16)
    requires
        m.mem.len() == 0x10000,
    ensures
        pop_word(push_word(m, v)).0 == v,
        pop_word(push_word(m, v)).1 == (Machine { mem: push_word(m, v).mem, ..m }),
{
    let lo = (v % 256) as u8;
    let hi = (v / 256) as u8;
    assert(word(lo, hi) == v);
}

} // verus!
