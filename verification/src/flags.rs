//! The processor status register: eight one-bit flags packed into a byte.
//!
//! Bit layout, high to low: Negative, Overflow, (unused), Break, Decimal,
//! InterruptDisable, Zero, Carry.

use vstd::prelude::*;

verus! {

/// One of the named bits of the status register.
#[derive(Clone, Copy, Debug, PartialEq, Eq, Structural)]
pub enum Flag {
    Carry,
    Zero,
    InterruptDisable,
    Decimal,
    Break,
    Overflow,
    Negative,
}

impl Flag {
    /// The bit that this flag occupies in the status byte.
    pub open spec fn spec_mask(self) -> u8 {
        match self {
            Flag::Carry => 0b0000_0001,
            Flag::Zero => 0b0000_0010,
            Flag::InterruptDisable => 0b0000_0100,
            Flag::Decimal => 0b0000_1000,
            Flag::Break => 0b0001_0000,
            Flag::Overflow => 0b0100_0000,
            Flag::Negative => 0b1000_0000,
        }
    }

    /// The bit that this flag occupies in the status byte.
    #[verifier::when_used_as_spec(spec_mask)]
    pub fn mask(self) -> (m: u8)
        ensures
            m == self.spec_mask(),
    {
        match self {
            Flag::Carry => 0b0000_0001,
            Flag::Zero => 0b0000_0010,
            Flag::InterruptDisable => 0b0000_0100,
            Flag::Decimal => 0b0000_1000,
            Flag::Break => 0b0001_0000,
            Flag::Overflow => 0b0100_0000,
            Flag::Negative => 0b1000_0000,
        }
    }
}

/// Whether `flag` is set in the status byte `status`.
pub open spec fn flag_is_set(status: u8, flag: Flag) -> bool {
    status & flag.mask() != 0
}

/// The status byte `status` with `flag` set (`on`) or cleared (`!on`).
pub open spec fn with_flag(status: u8, flag: Flag, on: bool) -> u8 {
    if on {
        status | flag.mask()
    } else {
        status & !flag.mask()
    }
}

/// Whether bit 7 of `value` is 1.
pub open spec fn bit7(value: u8) -> bool {
    value & 0x80 != 0
}

/// The status byte after an operation produced `result`: Zero says whether
/// the result is zero, Negative is bit 7 of the result, the rest is kept.
pub open spec fn with_result_flags(status: u8, result: u8) -> u8 {
    with_flag(with_flag(status, Flag::Zero, result == 0), Flag::Negative, bit7(result))
}

/// Reads one flag out of a status byte.
pub fn get_flag(status: u8, flag: Flag) -> (on: bool)
    ensures
        on == flag_is_set(status, flag),
{
    status & flag.mask() != 0
}

/// Sets or clears one flag in a status byte.
pub fn set_flag(status: u8, flag: Flag, on: bool) -> (updated: u8)
    ensures
        updated == with_flag(status, flag, on),
{
    if on {
        status | flag.mask()
    } else {
        status & !flag.mask()
    }
}

/// Writing a flag makes it read back as written and leaves every other bit
/// of the status byte as it was.
pub proof fn lemma_with_flag(status: u8, flag: Flag, on: bool)
    ensures
        flag_is_set(with_flag(status, flag, on), flag) == on,
        with_flag(status, flag, on) & !flag.mask() == status & !flag.mask(),
        forall|other: Flag|
            other != flag ==> flag_is_set(with_flag(status, flag, on), other) == flag_is_set(
                status,
                other,
            ),
{
    let m = flag.mask();
    assert(m == 1 || m == 2 || m == 4 || m == 8 || m == 16 || m == 64 || m == 128);
    assert((status | m) & m != 0 && (status & !m) & m == 0 && (status | m) & !m == status & !m
        && (status & !m) & !m == status & !m) by (bit_vector)
        requires
            m == 1 || m == 2 || m == 4 || m == 8 || m == 16 || m == 64 || m == 128,
    ;
    assert forall|other: Flag| other != flag implies flag_is_set(
        with_flag(status, flag, on),
        other,
    ) == flag_is_set(status, other) by {
        let o = other.mask();
        assert(o == 1 || o == 2 || o == 4 || o == 8 || o == 16 || o == 64 || o == 128);
        assert(o != m);
        assert(((status | m) & o != 0) == (status & o != 0) && ((status & !m) & o != 0) == (status
            & o != 0)) by (bit_vector)
            requires
                m == 1 || m == 2 || m == 4 || m == 8 || m == 16 || m == 64 || m == 128,
                o == 1 || o == 2 || o == 4 || o == 8 || o == 16 || o == 64 || o == 128,
                o != m,
        ;
    }
}

/// Bit 7 is the top bit of a byte: it is 1 in the upper half of the byte's
/// range and nowhere else.
pub proof fn lemma_bit7(value: u8)
    ensures
        bit7(value) <==> value >= 0x80,
{
    assert((value & 0x80 != 0) <==> value >= 0x80) by (bit_vector);
}

/// After a flag update Zero tells whether the result is zero, Negative is
/// bit 7 of the result, and the other six bits of the status byte are as
/// they were.
pub proof fn lemma_with_result_flags(status: u8, result: u8)
    ensures
        flag_is_set(with_result_flags(status, result), Flag::Zero) <==> result == 0,
        flag_is_set(with_result_flags(status, result), Flag::Negative) <==> bit7(result),
        with_result_flags(status, result) & 0b0111_1101 == status & 0b0111_1101,
        forall|other: Flag|
            other != Flag::Zero && other != Flag::Negative ==> flag_is_set(
                with_result_flags(status, result),
                other,
            ) == flag_is_set(status, other),
{
    let zeroed = with_flag(status, Flag::Zero, result == 0);
    lemma_with_flag(status, Flag::Zero, result == 0);
    lemma_with_flag(zeroed, Flag::Negative, bit7(result));
    let updated = with_result_flags(status, result);
    assert(updated & 0b0111_1101 == status & 0b0111_1101) by (bit_vector)
        requires
            updated & !0b1000_0000u8 == zeroed & !0b1000_0000u8,
            zeroed & !0b0000_0010u8 == status & !0b0000_0010u8,
    ;
}

} // verus!
