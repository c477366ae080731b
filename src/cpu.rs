use vstd::prelude::*;
use crate::flags::{flag_is_set, lemma_with_zn, with_flag, with_zn, Flag};
use crate::memory::Memory;
use crate::model::{
    adc_spec, bit_spec, branch_spec, brk_spec, compare_spec, execute_spec, jsr_spec,
    operand_address, pull_spec, push_spec, read_word, read_zero_page_word, rti_spec, rts_spec,
    shift_spec, signed_byte, step_spec, word, IRQ_VECTOR, PUSHED_STATUS_BITS, RESET_VECTOR,
    RESTORED_STATUS_BITS, STACK_BASE,
};
use crate::opcodes::{decode_opcode, opcode_entry, AddressingMode, Mnemonic};

verus! {

/// The register file.
pub struct CPU {
    /// Accumulator.
    pub a: u8,
    /// Index register Y.
    pub y: u8,
    /// Index register X.
    pub x: u8,
    /// Program counter.
    pub pc: u16,
    /// Stack pointer, an offset into the stack page.
    pub sp: u8,
    /// Status register.
    pub p: u8,
}

#[derive(Clone, Copy, Debug, PartialEq, Eq, Structural)]
pub enum CpuError {
    /// The fetched byte has no decode-table entry.
    IllegalOpcode(u8),
}

fn make_word(lo: u8, hi: u8) -> (r: u16)
    ensures
        r == word(lo, hi),
{
    (hi as u16) * 256 + (lo as u16)
}

fn to_signed(b: u8) -> (r: i16)
    ensures
        r == signed_byte(b),
{
    if b < 128 {
        b as i16
    } else {
        b as i16 - 256
    }
}

fn fetch_word(memory: &Memory, a: u16) -> (r: u16)
    ensures
        r == read_word(memory@, a),
{
    let lo = memory.read(a);
    let hi = memory.read(a.wrapping_add(1));
    make_word(lo, hi)
}

fn fetch_zero_page_word(memory: &Memory, zp: u8) -> (r: u16)
    ensures
        r == read_zero_page_word(memory@, zp),
{
    let lo = memory.read(zp as u16);
    let hi = memory.read(zp.wrapping_add(1) as u16);
    make_word(lo, hi)
}

/// One-bit shift or rotate of `v` with carry in `c`: the result and the carry out.
fn shift_byte(name: Mnemonic, v: u8, c: bool) -> (r: (u8, bool))
    ensures
        r == shift_spec(name, v, c),
{
    match name {
        Mnemonic::Asl => (v << 1u8, v & 0x80 != 0),
        Mnemonic::Lsr => (v >> 1u8, v & 0x01 != 0),
        Mnemonic::Rol => ((v << 1u8) | (if c { 0x01u8 } else { 0u8 }), v & 0x80 != 0),
        _ => ((v >> 1u8) | (if c { 0x80u8 } else { 0u8 }), v & 0x01 != 0),
    }
}

impl CPU {
    /// Power-on state.
    pub fn new() -> (r: CPU)
        ensures
            r.a == 0,
            r.x == 0,
            r.y == 0,
            r.pc == 0,
            r.sp == 0xFD,
            r.p == 0x34,
    {
        CPU { a: 0x00, x: 0x00, y: 0x00, pc: 0x0000, sp: 0xFD, p: 0x34 }
    }

    /// Loads PC from the reset vector; no other register changes.
    pub fn reset(&mut self, memory: &Memory)
        ensures
            *final(self) == (CPU {
                pc: word(memory@[RESET_VECTOR as int], memory@[RESET_VECTOR + 1]),
                ..*old(self)
            }),
    {
        let lo = memory.read(RESET_VECTOR);
        let hi = memory.read(RESET_VECTOR + 1);
        self.pc = make_word(lo, hi);
    }

    pub fn get_pc(&self) -> (r: u16)
        ensures
            r == self.pc,
    {
        self.pc
    }

    pub fn get_a(&self) -> (r: u8)
        ensures
            r == self.a,
    {
        self.a
    }

    pub fn get_x(&self) -> (r: u8)
        ensures
            r == self.x,
    {
        self.x
    }

    pub fn get_y(&self) -> (r: u8)
        ensures
            r == self.y,
    {
        self.y
    }

    pub fn get_sp(&self) -> (r: u8)
        ensures
            r == self.sp,
    {
        self.sp
    }

    pub fn get_status(&self) -> (r: u8)
        ensures
            r == self.p,
    {
        self.p
    }

    pub fn get_flag(&self, flag: Flag) -> (r: bool)
        ensures
            r == flag_is_set(self.p, flag),
    {
        self.p & flag.mask() != 0
    }

    pub fn set_flag(&mut self, flag: Flag, on: bool)
        ensures
            *final(self) == (CPU { p: with_flag(old(self).p, flag, on), ..*old(self) }),
    {
        let mask = flag.mask();
        if on {
            self.p = self.p | mask;
        } else {
            self.p = self.p & !mask;
        }
    }

    /// Sets Z iff `value` is zero and N iff bit 7 of `value` is set; the other
    /// flags keep their values.
    pub fn set_zero_and_negative_flags(&mut self, value: u8)
        ensures
            *final(self) == (CPU { p: with_zn(old(self).p, value), ..*old(self) }),
            flag_is_set(final(self).p, Flag::Zero) == (value == 0),
            flag_is_set(final(self).p, Flag::Negative) == (value & 0x80 != 0),
            forall|g: Flag|
                g != Flag::Zero && g != Flag::Negative ==> flag_is_set(final(self).p, g)
                    == flag_is_set(old(self).p, g),
    {
        proof {
            lemma_with_zn(self.p, value);
        }
        self.set_flag(Flag::Zero, value == 0);
        self.set_flag(Flag::Negative, value & 0x80 != 0);
    }

    /// Effective address for `mode`, with the operand bytes starting at PC.
    fn get_operand_address(&self, memory: &Memory, mode: AddressingMode) -> (r: u16)
        ensures
            r == operand_address(memory@, mode, self.pc, self.x, self.y),
    {
        match mode {
            AddressingMode::Immediate => self.pc,
            AddressingMode::ZeroPage => memory.read(self.pc) as u16,
            AddressingMode::ZeroPageX => memory.read(self.pc).wrapping_add(self.x) as u16,
            AddressingMode::ZeroPageY => memory.read(self.pc).wrapping_add(self.y) as u16,
            AddressingMode::Absolute => fetch_word(memory, self.pc),
            AddressingMode::AbsoluteX => fetch_word(memory, self.pc).wrapping_add(self.x as u16),
            AddressingMode::AbsoluteY => fetch_word(memory, self.pc).wrapping_add(self.y as u16),
            AddressingMode::Indirect => {
                let ptr = fetch_word(memory, self.pc);
                let lo = memory.read(ptr);
                let hi = memory.read((ptr & 0xFF00) | (ptr.wrapping_add(1) & 0x00FF));
                make_word(lo, hi)
            },
            AddressingMode::IndexedIndirect => {
                let zp = memory.read(self.pc).wrapping_add(self.x);
                fetch_zero_page_word(memory, zp)
            },
            AddressingMode::IndirectIndexed => {
                let zp = memory.read(self.pc);
                fetch_zero_page_word(memory, zp).wrapping_add(self.y as u16)
            },
            AddressingMode::Relative => {
                let offset = memory.read(self.pc);
                let next = self.pc.wrapping_add(1);
                if offset < 128 {
                    next.wrapping_add(offset as u16)
                } else {
                    next.wrapping_sub(256 - offset as u16)
                }
            },
            AddressingMode::Accumulator | AddressingMode::Implied => 0,
        }
    }

    fn push(&mut self, memory: &mut Memory, value: u8)
        ensures
            (*final(self), final(memory)@) == push_spec(*old(self), old(memory)@, value),
    {
        memory.write(STACK_BASE + self.sp as u16, value);
        self.sp = self.sp.wrapping_sub(1);
    }

    fn pull(&mut self, memory: &Memory) -> (r: u8)
        ensures
            (*final(self), r) == pull_spec(*old(self), memory@),
    {
        self.sp = self.sp.wrapping_add(1);
        memory.read(STACK_BASE + self.sp as u16)
    }

    fn adc(&mut self, value: u8)
        ensures
            *final(self) == adc_spec(*old(self), value),
    {
        let c: u8 = if self.get_flag(Flag::Carry) { 1 } else { 0 };
        let sum: u16 = self.a as u16 + value as u16 + c as u16;
        let signed_sum: i16 = to_signed(self.a) + to_signed(value) + c as i16;
        let result = (sum % 256) as u8;
        self.set_flag(Flag::Carry, sum > 255);
        self.set_flag(Flag::Overflow, signed_sum < -128 || signed_sum > 127);
        self.a = result;
        self.set_zero_and_negative_flags(result);
    }

    fn compare(&mut self, register: u8, value: u8)
        ensures
            *final(self) == (CPU { p: compare_spec(old(self).p, register, value), ..*old(self) }),
    {
        self.set_flag(Flag::Carry, register >= value);
        self.set_zero_and_negative_flags(register.wrapping_sub(value));
    }

    fn bit(&mut self, value: u8)
        ensures
            *final(self) == (CPU { p: bit_spec(old(self).p, old(self).a, value), ..*old(self) }),
    {
        let a = self.a;
        self.set_flag(Flag::Zero, a & value == 0);
        self.set_flag(Flag::Negative, value & 0x80 != 0);
        self.set_flag(Flag::Overflow, value & 0x40 != 0);
    }

    fn branch(&mut self, condition: bool, target: u16)
        ensures
            *final(self) == branch_spec(*old(self), condition, target),
    {
        if condition {
            self.pc = target;
        }
    }

    fn jsr(&mut self, memory: &mut Memory, target: u16)
        ensures
            (*final(self), final(memory)@) == jsr_spec(*old(self), old(memory)@, target),
    {
        let ret = self.pc.wrapping_sub(1);
        self.push(memory, (ret / 256) as u8);
        self.push(memory, (ret % 256) as u8);
        self.pc = target;
    }

    fn rts(&mut self, memory: &Memory)
        ensures
            *final(self) == rts_spec(*old(self), memory@),
    {
        let lo = self.pull(memory);
        let hi = self.pull(memory);
        self.pc = make_word(lo, hi).wrapping_add(1);
    }

    fn brk(&mut self, memory: &mut Memory)
        ensures
            (*final(self), final(memory)@) == brk_spec(*old(self), old(memory)@),
    {
        let ret = self.pc.wrapping_add(1);
        let status = self.p | PUSHED_STATUS_BITS;
        self.push(memory, (ret / 256) as u8);
        self.push(memory, (ret % 256) as u8);
        self.push(memory, status);
        self.set_flag(Flag::InterruptDisable, true);
        let lo = memory.read(IRQ_VECTOR);
        let hi = memory.read(IRQ_VECTOR + 1);
        self.pc = make_word(lo, hi);
    }

    fn rti(&mut self, memory: &Memory)
        ensures
            *final(self) == rti_spec(*old(self), memory@),
    {
        let status = self.pull(memory);
        let lo = self.pull(memory);
        let hi = self.pull(memory);
        self.p = status | RESTORED_STATUS_BITS;
        self.pc = make_word(lo, hi);
    }

    /// Runs the handler of `name` on the resolved operand address `addr`.
    fn dispatch(&mut self, memory: &mut Memory, name: Mnemonic, mode: AddressingMode, addr: u16)
        ensures
            (*final(self), final(memory)@) == execute_spec(
                *old(self),
                old(memory)@,
                name,
                mode,
                addr,
            ),
    {
        match name {
            Mnemonic::Lda => {
                let v = memory.read(addr);
                self.a = v;
                self.set_zero_and_negative_flags(v);
            },
            Mnemonic::Ldx => {
                let v = memory.read(addr);
                self.x = v;
                self.set_zero_and_negative_flags(v);
            },
            Mnemonic::Ldy => {
                let v = memory.read(addr);
                self.y = v;
                self.set_zero_and_negative_flags(v);
            },
            Mnemonic::Lax => {
                let v = memory.read(addr);
                self.a = v;
                self.x = v;
                self.set_zero_and_negative_flags(v);
            },
            Mnemonic::Sta => memory.write(addr, self.a),
            Mnemonic::Stx => memory.write(addr, self.x),
            Mnemonic::Sty => memory.write(addr, self.y),
            Mnemonic::Sax => memory.write(addr, self.a & self.x),
            Mnemonic::Adc => {
                let v = memory.read(addr);
                self.adc(v);
            },
            Mnemonic::Sbc => {
                let v = memory.read(addr);
                self.adc(255 - v);
            },
            Mnemonic::And => {
                let v = memory.read(addr);
                self.a = self.a & v;
                self.set_zero_and_negative_flags(self.a);
            },
            Mnemonic::Ora => {
                let v = memory.read(addr);
                self.a = self.a | v;
                self.set_zero_and_negative_flags(self.a);
            },
            Mnemonic::Eor => {
                let v = memory.read(addr);
                self.a = self.a ^ v;
                self.set_zero_and_negative_flags(self.a);
            },
            Mnemonic::Cmp => {
                let v = memory.read(addr);
                self.compare(self.a, v);
            },
            Mnemonic::Cpx => {
                let v = memory.read(addr);
                self.compare(self.x, v);
            },
            Mnemonic::Cpy => {
                let v = memory.read(addr);
                self.compare(self.y, v);
            },
            Mnemonic::Bit => {
                let v = memory.read(addr);
                self.bit(v);
            },
            Mnemonic::Inc => {
                let r = memory.read(addr).wrapping_add(1);
                memory.write(addr, r);
                self.set_zero_and_negative_flags(r);
            },
            Mnemonic::Dec => {
                let r = memory.read(addr).wrapping_sub(1);
                memory.write(addr, r);
                self.set_zero_and_negative_flags(r);
            },
            Mnemonic::Dcp => {
                let r = memory.read(addr).wrapping_sub(1);
                memory.write(addr, r);
                self.compare(self.a, r);
            },
            Mnemonic::Isc => {
                let r = memory.read(addr).wrapping_add(1);
                memory.write(addr, r);
                self.adc(255 - r);
            },
            Mnemonic::Inx => {
                self.x = self.x.wrapping_add(1);
                self.set_zero_and_negative_flags(self.x);
            },
            Mnemonic::Iny => {
                self.y = self.y.wrapping_add(1);
                self.set_zero_and_negative_flags(self.y);
            },
            Mnemonic::Dex => {
                self.x = self.x.wrapping_sub(1);
                self.set_zero_and_negative_flags(self.x);
            },
            Mnemonic::Dey => {
                self.y = self.y.wrapping_sub(1);
                self.set_zero_and_negative_flags(self.y);
            },
            Mnemonic::Tax => {
                self.x = self.a;
                self.set_zero_and_negative_flags(self.x);
            },
            Mnemonic::Tay => {
                self.y = self.a;
                self.set_zero_and_negative_flags(self.y);
            },
            Mnemonic::Txa => {
                self.a = self.x;
                self.set_zero_and_negative_flags(self.a);
            },
            Mnemonic::Tya => {
                self.a = self.y;
                self.set_zero_and_negative_flags(self.a);
            },
            Mnemonic::Tsx => {
                self.x = self.sp;
                self.set_zero_and_negative_flags(self.x);
            },
            Mnemonic::Txs => self.sp = self.x,
            Mnemonic::Asl | Mnemonic::Lsr | Mnemonic::Rol | Mnemonic::Ror => {
                let c = self.get_flag(Flag::Carry);
                if mode == AddressingMode::Accumulator {
                    let (r, carry) = shift_byte(name, self.a, c);
                    self.a = r;
                    self.set_flag(Flag::Carry, carry);
                    self.set_zero_and_negative_flags(r);
                } else {
                    let (r, carry) = shift_byte(name, memory.read(addr), c);
                    memory.write(addr, r);
                    self.set_flag(Flag::Carry, carry);
                    self.set_zero_and_negative_flags(r);
                }
            },
            Mnemonic::Bcc => {
                let c = self.get_flag(Flag::Carry);
                self.branch(!c, addr);
            },
            Mnemonic::Bcs => {
                let c = self.get_flag(Flag::Carry);
                self.branch(c, addr);
            },
            Mnemonic::Beq => {
                let z = self.get_flag(Flag::Zero);
                self.branch(z, addr);
            },
            Mnemonic::Bne => {
                let z = self.get_flag(Flag::Zero);
                self.branch(!z, addr);
            },
            Mnemonic::Bmi => {
                let n = self.get_flag(Flag::Negative);
                self.branch(n, addr);
            },
            Mnemonic::Bpl => {
                let n = self.get_flag(Flag::Negative);
                self.branch(!n, addr);
            },
            Mnemonic::Bvs => {
                let v = self.get_flag(Flag::Overflow);
                self.branch(v, addr);
            },
            Mnemonic::Bvc => {
                let v = self.get_flag(Flag::Overflow);
                self.branch(!v, addr);
            },
            Mnemonic::Jmp => self.pc = addr,
            Mnemonic::Jsr => self.jsr(memory, addr),
            Mnemonic::Rts => self.rts(memory),
            Mnemonic::Pha => {
                let a = self.a;
                self.push(memory, a);
            },
            Mnemonic::Php => {
                let status = self.p | PUSHED_STATUS_BITS;
                self.push(memory, status);
            },
            Mnemonic::Pla => {
                let v = self.pull(memory);
                self.a = v;
                self.set_zero_and_negative_flags(v);
            },
            Mnemonic::Plp => {
                let v = self.pull(memory);
                self.p = v | RESTORED_STATUS_BITS;
            },
            Mnemonic::Brk => self.brk(memory),
            Mnemonic::Rti => self.rti(memory),
            Mnemonic::Clc => self.set_flag(Flag::Carry, false),
            Mnemonic::Sec => self.set_flag(Flag::Carry, true),
            Mnemonic::Cli => self.set_flag(Flag::InterruptDisable, false),
            Mnemonic::Sei => self.set_flag(Flag::InterruptDisable, true),
            Mnemonic::Clv => self.set_flag(Flag::Overflow, false),
            Mnemonic::Cld => self.set_flag(Flag::Decimal, false),
            Mnemonic::Sed => self.set_flag(Flag::Decimal, true),
            Mnemonic::Nop => {},
        }
    }

    /// Executes one instruction: fetches the opcode at PC, decodes it, resolves
    /// its operand, advances PC past the instruction and runs the handler.
    /// Returns the entry's base cycle count, or the illegal opcode with the
    /// state and memory left as they were.
    pub fn execute_instruction(&mut self, memory: &mut Memory) -> (r: Result<u8, CpuError>)
        ensures
            r is Ok <==> opcode_entry(old(memory)@[old(self).pc as int]) is Some,
            (match step_spec(*old(self), old(memory)@) {
                Ok(out) => r == Ok::<u8, CpuError>(out.2) && *final(self) == out.0
                    && final(memory)@ == out.1,
                Err(e) => r == Err::<u8, CpuError>(e) && *final(self) == *old(self)
                    && final(memory)@ == old(memory)@,
            }),
    {
        reveal(step_spec);
        let opcode = memory.read(self.pc);
        let entry = match decode_opcode(opcode) {
            Some(entry) => entry,
            None => {
                return Err(CpuError::IllegalOpcode(opcode));
            },
        };
        self.pc = self.pc.wrapping_add(1);
        let mode = entry.addressing_mode;
        let addr = self.get_operand_address(memory, mode);
        self.pc = self.pc.wrapping_add(mode.operand_len());
        self.dispatch(memory, entry.name, mode, addr);
        Ok(entry.cycles)
    }
}

} // verus!
