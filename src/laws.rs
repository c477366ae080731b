use vstd::prelude::*;
use crate::cpu::{CpuError, CPU};
use crate::model::{
    jsr_spec, operand_address, pull_spec, push_spec, read_word, rts_spec, same_page_next, step_spec, word,
    STACK_BASE,
};
use crate::opcodes::{mode_fits, opcode, opcode_entry, AddressingMode, Mnemonic};

verus! {

proof fn lemma_word_split(w: u16)
    ensures
        word((w % 256) as u8, (w / 256) as u8) == w,
{
}

/// PC just past a JSR at `pc`.
spec fn after_jsr(s: CPU) -> CPU {
    CPU { pc: s.pc.wrapping_add(3), ..s }
}

proof fn lemma_jsr_step(s: CPU, m: Seq<u8>)
    requires
        m[s.pc as int] == 0x20,
    ensures
        ({
            let called = jsr_spec(after_jsr(s), m, read_word(m, s.pc.wrapping_add(1)));
            step_spec(s, m) == Ok::<(CPU, Seq<u8>, u8), CpuError>((called.0, called.1, 6u8))
        }),
{
    assert(opcode_entry(0x20) == Some(opcode(Mnemonic::Jsr, AddressingMode::Absolute, 6))) by {
        reveal(opcode_entry);
    }
    reveal(step_spec);
    assert(s.pc.wrapping_add(1).wrapping_add(2) == s.pc.wrapping_add(3));
}

proof fn lemma_rts_step(s: CPU, m: Seq<u8>)
    requires
        m[s.pc as int] == 0x60,
    ensures
        step_spec(s, m) == Ok::<(CPU, Seq<u8>, u8), CpuError>(
            (rts_spec(CPU { pc: s.pc.wrapping_add(1), ..s }, m), m, 6u8),
        ),
{
    assert(opcode_entry(0x60) == Some(opcode(Mnemonic::Rts, AddressingMode::Implied, 6))) by {
        reveal(opcode_entry);
    }
    reveal(step_spec);
}

/// A JSR at `s.pc` returns, through a later RTS, to the byte after its three
/// bytes: whatever ran in between, as long as SP is back where the JSR left it
/// and the two return-address slots still hold what the JSR wrote.
pub proof fn lemma_jsr_rts_round_trip(s: CPU, m: Seq<u8>, later: CPU, later_m: Seq<u8>)
    requires
        m.len() == 65536,
        m[s.pc as int] == 0x20,
        later_m[later.pc as int] == 0x60,
        later.sp == step_spec(s, m)->Ok_0.0.sp,
        later_m[STACK_BASE + s.sp] == step_spec(s, m)->Ok_0.1[STACK_BASE + s.sp],
        later_m[STACK_BASE + s.sp.wrapping_sub(1)] == step_spec(s, m)->Ok_0.1[STACK_BASE
            + s.sp.wrapping_sub(1)],
    ensures
        step_spec(s, m) is Ok,
        step_spec(s, m)->Ok_0.0.pc == read_word(m, s.pc.wrapping_add(1)),
        step_spec(later, later_m) is Ok,
        step_spec(later, later_m)->Ok_0.0.pc == (s.pc + 3) % 65536,
{
    lemma_jsr_step(s, m);
    lemma_rts_step(later, later_m);
    let after = after_jsr(s);
    let ret = after.pc.wrapping_sub(1);
    lemma_word_split(ret);
    let called = jsr_spec(after, m, read_word(m, s.pc.wrapping_add(1)));
    assert(called.1[STACK_BASE + s.sp] == (ret / 256) as u8);
    assert(called.1[STACK_BASE + s.sp.wrapping_sub(1)] == (ret % 256) as u8);
    let resumed = CPU { pc: later.pc.wrapping_add(1), ..later };
    let low = pull_spec(resumed, later_m);
    let high = pull_spec(low.0, later_m);
    assert(low.1 == (ret % 256) as u8);
    assert(high.1 == (ret / 256) as u8);
}

/// The indirect JMP reads its target's low byte at the pointer and its high
/// byte at the next address of the same page: from `ptr + 1` when the pointer
/// does not end a page, and from the first byte of the pointer's own page when
/// it does (a pointer of 0x02FF takes its high byte from 0x0200).
pub proof fn lemma_indirect_page_wrap(m: Seq<u8>, at: u16, x: u8, y: u8)
    ensures
        ({
            let ptr = read_word(m, at);
            &&& operand_address(m, AddressingMode::Indirect, at, x, y) == word(
                m[ptr as int],
                m[same_page_next(ptr) as int],
            )
            &&& ptr % 256 == 255 ==> same_page_next(ptr) == ptr - 255
            &&& ptr % 256 != 255 ==> same_page_next(ptr) == ptr + 1
        }),
{
    let ptr = read_word(m, at);
    lemma_same_page_next(ptr);
}

proof fn lemma_same_page_next(ptr: u16)
    ensures
        ptr % 256 == 255 ==> same_page_next(ptr) == ptr - 255,
        ptr % 256 != 255 ==> same_page_next(ptr) == ptr + 1,
{
    assert(ptr % 256 == 255 ==> (ptr & 0xFF00) | (ptr.wrapping_add(1) & 0x00FF) == ptr - 255)
        by (bit_vector);
    assert(ptr % 256 != 255 ==> (ptr & 0xFF00) | (ptr.wrapping_add(1) & 0x00FF) == ptr + 1)
        by (bit_vector);
}

/// Every byte with a decode-table entry is executed by a step: it is never
/// reported as illegal, and the step costs the entry's cycle count.
pub proof fn lemma_decoded_opcodes_execute(s: CPU, m: Seq<u8>)
    requires
        opcode_entry(m[s.pc as int]) is Some,
    ensures
        step_spec(s, m) is Ok,
        step_spec(s, m)->Ok_0.2 == opcode_entry(m[s.pc as int])->Some_0.cycles,
{
    reveal(step_spec);
}

/// Every decode-table entry pairs its mnemonic with an addressing mode that the
/// mnemonic's handler has a meaning for.
pub proof fn lemma_decode_table_modes(b: u8)
    requires
        opcode_entry(b) is Some,
    ensures
        mode_fits(opcode_entry(b)->Some_0.name, opcode_entry(b)->Some_0.addressing_mode),
{
    reveal(opcode_entry);
}

} // verus!
