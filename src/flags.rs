use vstd::prelude::*;

verus! {

/// The bits of the status register `P`.
#[derive(Clone, Copy, Debug, PartialEq, Eq, Structural)]
pub enum Flag {
    Carry,
    Zero,
    InterruptDisable,
    Decimal,
    Break,
    Unused,
    Overflow,
    Negative,
}

/// Bit position of a flag inside `P`: C is bit 0, ..., N is bit 7.
pub open spec fn flag_index(f: Flag) -> u8 {
    match f {
        Flag::Carry => 0,
        Flag::Zero => 1,
        Flag::InterruptDisable => 2,
        Flag::Decimal => 3,
        Flag::Break => 4,
        Flag::Unused => 5,
        Flag::Overflow => 6,
        Flag::Negative => 7,
    }
}

pub open spec fn flag_mask(f: Flag) -> u8 {
    1u8 << flag_index(f)
}

/// Whether flag `f` is set in status byte `p`.
pub open spec fn flag_is_set(p: u8, f: Flag) -> bool {
    p & flag_mask(f) != 0
}

/// Status byte `p` with flag `f` set to `on` and every other bit kept.
pub open spec fn with_flag(p: u8, f: Flag, on: bool) -> u8 {
    if on {
        p | flag_mask(f)
    } else {
        p & !flag_mask(f)
    }
}

/// Status byte `p` after Z and N are derived from the byte `v`.
pub open spec fn with_zn(p: u8, v: u8) -> u8 {
    with_flag(with_flag(p, Flag::Zero, v == 0), Flag::Negative, v & 0x80 != 0)
}

impl Flag {
    pub fn mask(self) -> (r: u8)
        ensures
            r == flag_mask(self),
    {
        let i: u8 = match self {
            Flag::Carry => 0,
            Flag::Zero => 1,
            Flag::InterruptDisable => 2,
            Flag::Decimal => 3,
            Flag::Break => 4,
            Flag::Unused => 5,
            Flag::Overflow => 6,
            Flag::Negative => 7,
        };
        1u8 << i
    }
}

proof fn lemma_bit_update(p: u8, i: u8, j: u8)
    by (bit_vector)
    requires
        i < 8,
        j < 8,
    ensures
        ((p | (1u8 << i)) & (1u8 << j) != 0) == (i == j || p & (1u8 << j) != 0),
        ((p & !(1u8 << i)) & (1u8 << j) != 0) == (i != j && p & (1u8 << j) != 0),
{
}

/// Writing one flag sets that flag as asked and leaves every other flag as it was.
pub proof fn lemma_with_flag(p: u8, f: Flag, on: bool)
    ensures
        flag_is_set(with_flag(p, f, on), f) == on,
        forall|g: Flag| g != f ==> flag_is_set(#[trigger] with_flag(p, f, on), g) == flag_is_set(p, g),
{
    lemma_bit_update(p, flag_index(f), flag_index(f));
    assert forall|g: Flag| g != f implies flag_is_set(#[trigger] with_flag(p, f, on), g) == flag_is_set(p, g) by {
        lemma_bit_update(p, flag_index(f), flag_index(g));
    }
}

/// Deriving Z and N from `v` sets Z exactly when `v` is zero, N exactly when bit 7
/// of `v` is set, and keeps C, I, D, B, the unused bit and V.
pub proof fn lemma_with_zn(p: u8, v: u8)
    ensures
        flag_is_set(with_zn(p, v), Flag::Zero) == (v == 0),
        flag_is_set(with_zn(p, v), Flag::Negative) == (v & 0x80 != 0),
        forall|g: Flag| g != Flag::Zero && g != Flag::Negative
            ==> flag_is_set(#[trigger] with_zn(p, v), g) == flag_is_set(p, g),
{
    lemma_with_flag(p, Flag::Zero, v == 0);
    lemma_with_flag(with_flag(p, Flag::Zero, v == 0), Flag::Negative, v & 0x80 != 0);
}

} // verus!
