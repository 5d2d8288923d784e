//! The mathematical model of the 64 KiB address space: a sequence of 65536
//! bytes, addressed modulo its size, holding 16-bit words little-endian.

use vstd::prelude::*;

verus! {

/// Number of bytes in the address space.
pub const MEMORY_SIZE: usize = 0x1_0000;

/// Address at which a program image is placed.
pub const PROGRAM_ORIGIN: u16 = 0x8000;

/// Address of the two-byte slot that holds the address execution starts from
/// after a reset.
pub const RESET_VECTOR: u16 = 0xFFFC;

/// `n` reduced to eight bits.
pub open spec fn wrap8(n: int) -> u8 {
    (n % 0x100) as u8
}

/// `n` reduced to sixteen bits.
pub open spec fn wrap16(n: int) -> u16 {
    (n % 0x1_0000) as u16
}

/// The 16-bit word with low byte `lo` and high byte `hi`.
pub open spec fn word_of(lo: u8, hi: u8) -> u16 {
    (lo + 0x100 * hi) as u16
}

/// The low eight bits of `word`.
pub open spec fn low_byte(word: u16) -> u8 {
    (word % 0x100) as u8
}

/// The high eight bits of `word`.
pub open spec fn high_byte(word: u16) -> u8 {
    (word / 0x100) as u8
}

/// A memory image is a sequence with one byte for each 16-bit address.
pub open spec fn is_memory(mem: Seq<u8>) -> bool {
    mem.len() == MEMORY_SIZE
}

/// The little-endian word at `addr`: low byte at `addr`, high byte at the
/// next address, which is 0 after 0xFFFF.
pub open spec fn read_word(mem: Seq<u8>, addr: u16) -> u16 {
    word_of(mem[addr as int], mem[wrap16(addr + 1) as int])
}

/// `mem` with `value` stored little-endian at `addr` and the next address.
pub open spec fn write_word(mem: Seq<u8>, addr: u16, value: u16) -> Seq<u8> {
    mem.update(addr as int, low_byte(value)).update(wrap16(addr + 1) as int, high_byte(value))
}

/// The little-endian word whose low byte is at zero-page address `ptr` and
/// whose high byte is at the next zero-page address, which is 0 after 0xFF.
pub open spec fn read_zero_page_word(mem: Seq<u8>, ptr: u8) -> u16 {
    word_of(mem[ptr as int], mem[wrap8(ptr + 1) as int])
}

/// `mem` with `program` copied to `PROGRAM_ORIGIN` and the following
/// addresses.
pub open spec fn with_image(mem: Seq<u8>, program: Seq<u8>) -> Seq<u8> {
    Seq::new(
        mem.len(),
        |i: int|
            if PROGRAM_ORIGIN <= i < PROGRAM_ORIGIN + program.len() {
                program[i - PROGRAM_ORIGIN]
            } else {
                mem[i]
            },
    )
}

/// `mem` after a program load: the image in place, then the reset vector
/// pointing at its first byte.
pub open spec fn with_program(mem: Seq<u8>, program: Seq<u8>) -> Seq<u8> {
    write_word(with_image(mem, program), RESET_VECTOR, PROGRAM_ORIGIN)
}

/// Assembles a word from its two bytes.
pub fn make_word(lo: u8, hi: u8) -> (word: u16)
    ensures
        word == word_of(lo, hi),
        low_byte(word) == lo,
        high_byte(word) == hi,
{
    let word: u16 = ((hi as u16) << 8) | (lo as u16);
    assert(((hi as u16) << 8) | (lo as u16) == lo + 0x100 * hi) by (bit_vector);
    word
}

/// Splits a word into its low and its high byte.
pub fn split_word(word: u16) -> (bytes: (u8, u8))
    ensures
        bytes.0 == low_byte(word),
        bytes.1 == high_byte(word),
        word_of(bytes.0, bytes.1) == word,
{
    let lo: u8 = (word & 0xff) as u8;
    let hi: u8 = (word >> 8) as u8;
    assert(word & 0xff == word % 0x100 && word >> 8 == word / 0x100) by (bit_vector);
    (lo, hi)
}

/// A word written to memory is the word read back from the same address,
/// wherever in the address space it lies.
pub proof fn lemma_read_word_after_write_word(mem: Seq<u8>, addr: u16, value: u16)
    requires
        is_memory(mem),
    ensures
        is_memory(write_word(mem, addr, value)),
        read_word(write_word(mem, addr, value), addr) == value,
{
}

/// After a load the image lies at the origin, the reset vector points at
/// it, and the bytes below the origin are untouched.
pub proof fn lemma_with_program(mem: Seq<u8>, program: Seq<u8>)
    requires
        is_memory(mem),
        program.len() <= MEMORY_SIZE - PROGRAM_ORIGIN,
    ensures
        is_memory(with_program(mem, program)),
        read_word(with_program(mem, program), RESET_VECTOR) == PROGRAM_ORIGIN,
        forall|a: int|
            PROGRAM_ORIGIN <= a < PROGRAM_ORIGIN + program.len() && a != RESET_VECTOR && a
                != RESET_VECTOR + 1 ==> #[trigger] with_program(mem, program)[a] == program[a
                - PROGRAM_ORIGIN],
        forall|a: int|
            0 <= a < PROGRAM_ORIGIN ==> #[trigger] with_program(mem, program)[a] == mem[a],
{
    lemma_read_word_after_write_word(with_image(mem, program), RESET_VECTOR, PROGRAM_ORIGIN);
}

} // verus!
