use vstd::prelude::*;
use crate::cpu::{CpuError, CPU};
use crate::flags::{flag_is_set, with_flag, with_zn, Flag};
use crate::opcodes::{opcode_entry, operand_len, AddressingMode, Mnemonic};

verus! {

/// First address of the fixed stack page.
pub const STACK_BASE: u16 = 0x0100;

/// Low byte of the reset vector; the high byte follows it.
pub const RESET_VECTOR: u16 = 0xFFFC;

/// Low byte of the IRQ/BRK vector; the high byte follows it.
pub const IRQ_VECTOR: u16 = 0xFFFE;

/// Status bits forced on in every pushed copy of `P`: B and the unused bit.
pub const PUSHED_STATUS_BITS: u8 = 0x30;

/// Status bit forced on whenever `P` is restored from the stack: the unused bit.
pub const RESTORED_STATUS_BITS: u8 = 0x20;

/// The 16-bit value whose low byte is `lo` and high byte is `hi`.
pub open spec fn word(lo: u8, hi: u8) -> u16 {
    (hi * 256 + lo) as u16
}

/// Two's-complement value of a byte.
pub open spec fn signed_byte(b: u8) -> int {
    if b < 128 {
        b as int
    } else {
        b - 256
    }
}

/// Where the indirect JMP fetches its high byte: the address after `ptr`, but
/// without carrying into the high byte (the page-wrap defect).
pub open spec fn same_page_next(ptr: u16) -> u16 {
    (ptr & 0xFF00) | (ptr.wrapping_add(1) & 0x00FF)
}

/// Little-endian word at `a`, the high byte taken from `a + 1` modulo 65536.
pub open spec fn read_word(m: Seq<u8>, a: u16) -> u16 {
    word(m[a as int], m[a.wrapping_add(1) as int])
}

/// Little-endian word in page 0 at `zp`, the high byte taken from `zp + 1` modulo 256.
pub open spec fn read_zero_page_word(m: Seq<u8>, zp: u8) -> u16 {
    word(m[zp as int], m[zp.wrapping_add(1) as int])
}

/// Effective address for an instruction whose operand bytes start at `at`.
/// Accumulator and Implied have no memory operand and give 0.
pub open spec fn operand_address(m: Seq<u8>, mode: AddressingMode, at: u16, x: u8, y: u8) -> u16 {
    match mode {
        AddressingMode::Immediate => at,
        AddressingMode::ZeroPage => m[at as int] as u16,
        AddressingMode::ZeroPageX => m[at as int].wrapping_add(x) as u16,
        AddressingMode::ZeroPageY => m[at as int].wrapping_add(y) as u16,
        AddressingMode::Absolute => read_word(m, at),
        AddressingMode::AbsoluteX => read_word(m, at).wrapping_add(x as u16),
        AddressingMode::AbsoluteY => read_word(m, at).wrapping_add(y as u16),
        AddressingMode::Indirect => {
            let ptr = read_word(m, at);
            word(m[ptr as int], m[same_page_next(ptr) as int])
        },
        AddressingMode::IndexedIndirect => read_zero_page_word(m, m[at as int].wrapping_add(x)),
        AddressingMode::IndirectIndexed => read_zero_page_word(m, m[at as int]).wrapping_add(y as u16),
        AddressingMode::Relative => ((at + 1 + signed_byte(m[at as int])) % 65536) as u16,
        AddressingMode::Accumulator | AddressingMode::Implied => 0,
    }
}

/// Writes `v` at the stack slot and moves SP down.
pub open spec fn push_spec(s: CPU, m: Seq<u8>, v: u8) -> (CPU, Seq<u8>) {
    (CPU { sp: s.sp.wrapping_sub(1), ..s }, m.update(STACK_BASE + s.sp, v))
}

/// Moves SP up and reads the byte at the new stack slot.
pub open spec fn pull_spec(s: CPU, m: Seq<u8>) -> (CPU, u8) {
    let sp = s.sp.wrapping_add(1);
    (CPU { sp, ..s }, m[STACK_BASE + sp])
}

/// ADC on the byte `v`: A + v + C, with C, V, Z and N derived from the sum.
pub open spec fn adc_spec(s: CPU, v: u8) -> CPU {
    let c: int = if flag_is_set(s.p, Flag::Carry) { 1 } else { 0 };
    let sum = s.a + v + c;
    let a = (sum % 256) as u8;
    let overflow = !(-128 <= signed_byte(s.a) + signed_byte(v) + c <= 127);
    CPU {
        a,
        p: with_zn(with_flag(with_flag(s.p, Flag::Carry, sum > 255), Flag::Overflow, overflow), a),
        ..s
    }
}

/// Status after comparing register value `reg` with `v`.
pub open spec fn compare_spec(p: u8, reg: u8, v: u8) -> u8 {
    with_zn(with_flag(p, Flag::Carry, reg >= v), reg.wrapping_sub(v))
}

/// Status after BIT with accumulator `a` and operand `v`.
pub open spec fn bit_spec(p: u8, a: u8, v: u8) -> u8 {
    with_flag(
        with_flag(with_flag(p, Flag::Zero, a & v == 0), Flag::Negative, v & 0x80 != 0),
        Flag::Overflow,
        v & 0x40 != 0,
    )
}

/// Result and carry out of a one-bit shift or rotate of `v` with carry in `c`.
pub open spec fn shift_spec(name: Mnemonic, v: u8, c: bool) -> (u8, bool) {
    match name {
        Mnemonic::Asl => (v << 1u8, v & 0x80 != 0),
        Mnemonic::Lsr => (v >> 1u8, v & 0x01 != 0),
        Mnemonic::Rol => ((v << 1u8) | (if c { 0x01u8 } else { 0u8 }), v & 0x80 != 0),
        _ => ((v >> 1u8) | (if c { 0x80u8 } else { 0u8 }), v & 0x01 != 0),
    }
}

/// Status after a shift produced `r` with carry out `carry`.
pub open spec fn shifted_status(p: u8, r: u8, carry: bool) -> u8 {
    with_zn(with_flag(p, Flag::Carry, carry), r)
}

/// Takes the branch to `target` when `cond` holds.
pub open spec fn branch_spec(s: CPU, cond: bool, target: u16) -> CPU {
    if cond {
        CPU { pc: target, ..s }
    } else {
        s
    }
}

/// JSR: pushes PC - 1 (high byte first) and jumps to `target`.
pub open spec fn jsr_spec(s: CPU, m: Seq<u8>, target: u16) -> (CPU, Seq<u8>) {
    let ret = s.pc.wrapping_sub(1);
    let hi = push_spec(s, m, (ret / 256) as u8);
    let lo = push_spec(hi.0, hi.1, (ret % 256) as u8);
    (CPU { pc: target, ..lo.0 }, lo.1)
}

/// RTS: pulls the low then the high byte and resumes after that address.
pub open spec fn rts_spec(s: CPU, m: Seq<u8>) -> CPU {
    let lo = pull_spec(s, m);
    let hi = pull_spec(lo.0, m);
    CPU { pc: word(lo.1, hi.1).wrapping_add(1), ..hi.0 }
}

/// BRK: pushes PC + 1 (high byte first) and P with B set, sets I and jumps
/// through the IRQ/BRK vector.
pub open spec fn brk_spec(s: CPU, m: Seq<u8>) -> (CPU, Seq<u8>) {
    let ret = s.pc.wrapping_add(1);
    let hi = push_spec(s, m, (ret / 256) as u8);
    let lo = push_spec(hi.0, hi.1, (ret % 256) as u8);
    let st = push_spec(lo.0, lo.1, s.p | PUSHED_STATUS_BITS);
    let target = word(st.1[IRQ_VECTOR as int], st.1[IRQ_VECTOR + 1]);
    (CPU { pc: target, p: with_flag(s.p, Flag::InterruptDisable, true), ..st.0 }, st.1)
}

/// RTI: pulls P, then the low and the high byte of PC.
pub open spec fn rti_spec(s: CPU, m: Seq<u8>) -> CPU {
    let st = pull_spec(s, m);
    let lo = pull_spec(st.0, m);
    let hi = pull_spec(lo.0, m);
    CPU { pc: word(lo.1, hi.1), p: st.1 | RESTORED_STATUS_BITS, ..hi.0 }
}

/// Effect of one instruction `name` whose operand resolved to `addr`, on a state
/// whose PC already points past the instruction.
pub open spec fn execute_spec(
    s: CPU,
    m: Seq<u8>,
    name: Mnemonic,
    mode: AddressingMode,
    addr: u16,
) -> (CPU, Seq<u8>) {
    let v = m[addr as int];
    let c = flag_is_set(s.p, Flag::Carry);
    match name {
        Mnemonic::Lda => (CPU { a: v, p: with_zn(s.p, v), ..s }, m),
        Mnemonic::Ldx => (CPU { x: v, p: with_zn(s.p, v), ..s }, m),
        Mnemonic::Ldy => (CPU { y: v, p: with_zn(s.p, v), ..s }, m),
        Mnemonic::Lax => (CPU { a: v, x: v, p: with_zn(s.p, v), ..s }, m),
        Mnemonic::Sta => (s, m.update(addr as int, s.a)),
        Mnemonic::Stx => (s, m.update(addr as int, s.x)),
        Mnemonic::Sty => (s, m.update(addr as int, s.y)),
        Mnemonic::Sax => (s, m.update(addr as int, s.a & s.x)),
        Mnemonic::Adc => (adc_spec(s, v), m),
        Mnemonic::Sbc => (adc_spec(s, (255 - v) as u8), m),
        Mnemonic::And => (CPU { a: s.a & v, p: with_zn(s.p, s.a & v), ..s }, m),
        Mnemonic::Ora => (CPU { a: s.a | v, p: with_zn(s.p, s.a | v), ..s }, m),
        Mnemonic::Eor => (CPU { a: s.a ^ v, p: with_zn(s.p, s.a ^ v), ..s }, m),
        Mnemonic::Cmp => (CPU { p: compare_spec(s.p, s.a, v), ..s }, m),
        Mnemonic::Cpx => (CPU { p: compare_spec(s.p, s.x, v), ..s }, m),
        Mnemonic::Cpy => (CPU { p: compare_spec(s.p, s.y, v), ..s }, m),
        Mnemonic::Bit => (CPU { p: bit_spec(s.p, s.a, v), ..s }, m),
        Mnemonic::Inc => {
            let r = v.wrapping_add(1);
            (CPU { p: with_zn(s.p, r), ..s }, m.update(addr as int, r))
        },
        Mnemonic::Dec => {
            let r = v.wrapping_sub(1);
            (CPU { p: with_zn(s.p, r), ..s }, m.update(addr as int, r))
        },
        Mnemonic::Dcp => {
            let r = v.wrapping_sub(1);
            (CPU { p: compare_spec(s.p, s.a, r), ..s }, m.update(addr as int, r))
        },
        Mnemonic::Isc => {
            let r = v.wrapping_add(1);
            (adc_spec(s, (255 - r) as u8), m.update(addr as int, r))
        },
        Mnemonic::Inx => (CPU { x: s.x.wrapping_add(1), p: with_zn(s.p, s.x.wrapping_add(1)), ..s }, m),
        Mnemonic::Iny => (CPU { y: s.y.wrapping_add(1), p: with_zn(s.p, s.y.wrapping_add(1)), ..s }, m),
        Mnemonic::Dex => (CPU { x: s.x.wrapping_sub(1), p: with_zn(s.p, s.x.wrapping_sub(1)), ..s }, m),
        Mnemonic::Dey => (CPU { y: s.y.wrapping_sub(1), p: with_zn(s.p, s.y.wrapping_sub(1)), ..s }, m),
        Mnemonic::Tax => (CPU { x: s.a, p: with_zn(s.p, s.a), ..s }, m),
        Mnemonic::Tay => (CPU { y: s.a, p: with_zn(s.p, s.a), ..s }, m),
        Mnemonic::Txa => (CPU { a: s.x, p: with_zn(s.p, s.x), ..s }, m),
        Mnemonic::Tya => (CPU { a: s.y, p: with_zn(s.p, s.y), ..s }, m),
        Mnemonic::Tsx => (CPU { x: s.sp, p: with_zn(s.p, s.sp), ..s }, m),
        Mnemonic::Txs => (CPU { sp: s.x, ..s }, m),
        Mnemonic::Asl | Mnemonic::Lsr | Mnemonic::Rol | Mnemonic::Ror => {
            if mode == AddressingMode::Accumulator {
                let r = shift_spec(name, s.a, c);
                (CPU { a: r.0, p: shifted_status(s.p, r.0, r.1), ..s }, m)
            } else {
                let r = shift_spec(name, v, c);
                (CPU { p: shifted_status(s.p, r.0, r.1), ..s }, m.update(addr as int, r.0))
            }
        },
        Mnemonic::Bcc => (branch_spec(s, !c, addr), m),
        Mnemonic::Bcs => (branch_spec(s, c, addr), m),
        Mnemonic::Beq => (branch_spec(s, flag_is_set(s.p, Flag::Zero), addr), m),
        Mnemonic::Bne => (branch_spec(s, !flag_is_set(s.p, Flag::Zero), addr), m),
        Mnemonic::Bmi => (branch_spec(s, flag_is_set(s.p, Flag::Negative), addr), m),
        Mnemonic::Bpl => (branch_spec(s, !flag_is_set(s.p, Flag::Negative), addr), m),
        Mnemonic::Bvs => (branch_spec(s, flag_is_set(s.p, Flag::Overflow), addr), m),
        Mnemonic::Bvc => (branch_spec(s, !flag_is_set(s.p, Flag::Overflow), addr), m),
        Mnemonic::Jmp => (CPU { pc: addr, ..s }, m),
        Mnemonic::Jsr => jsr_spec(s, m, addr),
        Mnemonic::Rts => (rts_spec(s, m), m),
        Mnemonic::Pha => push_spec(s, m, s.a),
        Mnemonic::Php => push_spec(s, m, s.p | PUSHED_STATUS_BITS),
        Mnemonic::Pla => {
            let r = pull_spec(s, m);
            (CPU { a: r.1, p: with_zn(s.p, r.1), ..r.0 }, m)
        },
        Mnemonic::Plp => {
            let r = pull_spec(s, m);
            (CPU { p: r.1 | RESTORED_STATUS_BITS, ..r.0 }, m)
        },
        Mnemonic::Brk => brk_spec(s, m),
        Mnemonic::Rti => (rti_spec(s, m), m),
        Mnemonic::Clc => (CPU { p: with_flag(s.p, Flag::Carry, false), ..s }, m),
        Mnemonic::Sec => (CPU { p: with_flag(s.p, Flag::Carry, true), ..s }, m),
        Mnemonic::Cli => (CPU { p: with_flag(s.p, Flag::InterruptDisable, false), ..s }, m),
        Mnemonic::Sei => (CPU { p: with_flag(s.p, Flag::InterruptDisable, true), ..s }, m),
        Mnemonic::Clv => (CPU { p: with_flag(s.p, Flag::Overflow, false), ..s }, m),
        Mnemonic::Cld => (CPU { p: with_flag(s.p, Flag::Decimal, false), ..s }, m),
        Mnemonic::Sed => (CPU { p: with_flag(s.p, Flag::Decimal, true), ..s }, m),
        Mnemonic::Nop => (s, m),
    }
}

/// One fetch-decode-execute step: the new state, the new memory and the
/// entry's cycle count, or the illegal opcode that was fetched.
#[verifier::opaque]
pub open spec fn step_spec(s: CPU, m: Seq<u8>) -> Result<(CPU, Seq<u8>, u8), CpuError> {
    let op = m[s.pc as int];
    match opcode_entry(op) {
        None => Err(CpuError::IllegalOpcode(op)),
        Some(entry) => {
            let at = s.pc.wrapping_add(1);
            let mode = entry.addressing_mode;
            let addr = operand_address(m, mode, at, s.x, s.y);
            let advanced = CPU { pc: at.wrapping_add(operand_len(mode)), ..s };
            let r = execute_spec(advanced, m, entry.name, mode, addr);
            Ok((r.0, r.1, entry.cycles))
        },
    }
}

} // verus!
