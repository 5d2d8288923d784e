//! What holds of the model's operations whatever state they start in.

use crate::addressing::AddressingMode;
use crate::flags::{bit7, flag_is_set, lemma_with_result_flags, Flag};
use crate::machine::Machine;
use crate::memory::{lemma_read_word_after_write_word, write_word, RESET_VECTOR};
use vstd::prelude::*;

verus! {

/// After a load in any mode the Zero flag is set exactly if the byte loaded
/// is zero.
pub proof fn lemma_load_zero_flag(s: Machine, mode: AddressingMode)
    ensures
        s.lda(mode).a == s.operand(mode),
        flag_is_set(s.lda(mode).status, Flag::Zero) <==> s.operand(mode) == 0,
{
    lemma_with_result_flags(s.status, s.operand(mode));
}

/// After a load in any mode the Negative flag is bit 7 of the byte loaded.
pub proof fn lemma_load_negative_flag(s: Machine, mode: AddressingMode)
    ensures
        s.lda(mode).a == s.operand(mode),
        flag_is_set(s.lda(mode).status, Flag::Negative) <==> bit7(s.operand(mode)),
{
    lemma_with_result_flags(s.status, s.operand(mode));
}

/// A load changes the accumulator, the Zero and Negative flags and the
/// program counter, and nothing else.
pub proof fn lemma_load_frame(s: Machine, mode: AddressingMode)
    ensures
        s.lda(mode).x == s.x,
        s.lda(mode).y == s.y,
        s.lda(mode).mem == s.mem,
        s.lda(mode).status & 0b0111_1101 == s.status & 0b0111_1101,
{
    lemma_with_result_flags(s.status, s.operand(mode));
}

/// Incrementing X from 0xFF gives 0 and sets the Zero flag. From any other
/// value it adds exactly one, and then the Negative flag is as it was
/// unless bit 7 of the new value is set. The states left out are those in
/// which the Negative flag is set and the new value has bit 7 clear: there
/// the increment clears the flag.
pub proof fn lemma_inx_wraps(s: Machine)
    requires
        !(s.x != 0xFF && flag_is_set(s.status, Flag::Negative) && !bit7(s.inx().x)),
    ensures
        s.x == 0xFF ==> s.inx().x == 0 && flag_is_set(s.inx().status, Flag::Zero),
        s.x != 0xFF ==> s.inx().x == s.x + 1 && (bit7(s.inx().x) || flag_is_set(
            s.inx().status,
            Flag::Negative,
        ) == flag_is_set(s.status, Flag::Negative)),
{
    lemma_with_result_flags(s.status, s.inx().x);
}

/// In every state the increment sets the flags by the new value of X and
/// touches neither the accumulator, nor Y, nor the program counter, nor
/// memory.
pub proof fn lemma_inx_flags(s: Machine)
    ensures
        flag_is_set(s.inx().status, Flag::Zero) <==> s.inx().x == 0,
        flag_is_set(s.inx().status, Flag::Negative) <==> bit7(s.inx().x),
        s.inx().x == 0 <==> s.x == 0xFF,
        s.inx().a == s.a && s.inx().y == s.y && s.inx().pc == s.pc && s.inx().mem == s.mem,
{
    lemma_with_result_flags(s.status, s.inx().x);
}

/// The transfer copies the accumulator to X and leaves the accumulator,
/// like Y, the program counter and memory, as it was.
pub proof fn lemma_tax_copies(s: Machine)
    ensures
        s.tax().x == s.a,
        s.tax().a == s.a,
        s.tax().y == s.y && s.tax().pc == s.pc && s.tax().mem == s.mem,
        flag_is_set(s.tax().status, Flag::Zero) <==> s.a == 0,
        flag_is_set(s.tax().status, Flag::Negative) <==> bit7(s.a),
{
    lemma_with_result_flags(s.status, s.a);
}

/// A load of a value gives the same accumulator and the same Zero and
/// Negative flags in every addressing mode as an immediate load of that
/// value, whatever else differs between the two states; where the two
/// status bytes were equal before, they are equal after.
pub proof fn lemma_load_same_in_every_mode(
    s: Machine,
    mode: AddressingMode,
    immediate: Machine,
    value: u8,
)
    requires
        mode != AddressingMode::NoneAddressing,
        s.operand(mode) == value,
        immediate.operand(AddressingMode::Immediate) == value,
    ensures
        s.lda(mode).a == immediate.lda(AddressingMode::Immediate).a,
        flag_is_set(s.lda(mode).status, Flag::Zero) == flag_is_set(
            immediate.lda(AddressingMode::Immediate).status,
            Flag::Zero,
        ),
        flag_is_set(s.lda(mode).status, Flag::Negative) == flag_is_set(
            immediate.lda(AddressingMode::Immediate).status,
            Flag::Negative,
        ),
        s.status == immediate.status ==> s.lda(mode).status == immediate.lda(
            AddressingMode::Immediate,
        ).status,
{
    lemma_with_result_flags(s.status, value);
    lemma_with_result_flags(immediate.status, value);
}

/// An address written as a word to the reset vector is the program counter
/// after the next reset.
pub proof fn lemma_reset_follows_vector(s: Machine, addr: u16)
    requires
        s.wf(),
    ensures
        (Machine { mem: write_word(s.mem, RESET_VECTOR, addr), ..s }).reset().pc == addr,
{
    lemma_read_word_after_write_word(s.mem, RESET_VECTOR, addr);
}

} // verus!
