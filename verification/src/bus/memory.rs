use vstd::prelude::*;

verus! {

/// The byte at `index`, or zero past the end.
pub open spec fn byte_or_zero(memory: Seq<u8>, index: int) -> u8 {
    if 0 <= index < memory.len() {
        memory[index]
    } else {
        0
    }
}

/// The little-endian halfword at `offset`; missing bytes read as zero.
pub open spec fn spec_read_u16_le(memory: Seq<u8>, offset: int) -> u16 {
    (byte_or_zero(memory, offset) as int + byte_or_zero(memory, offset + 1) as int * 0x100) as u16
}

/// The little-endian word at `offset`; missing bytes read as zero.
pub open spec fn spec_read_u32_le(memory: Seq<u8>, offset: int) -> u32 {
    (byte_or_zero(memory, offset) as int + byte_or_zero(memory, offset + 1) as int * 0x100
        + byte_or_zero(memory, offset + 2) as int * 0x1_0000 + byte_or_zero(memory, offset + 3) as int
        * 0x100_0000) as u32
}

/// `memory` with `bytes` written from `offset`, dropping bytes past the end.
pub open spec fn spec_write_bytes(memory: Seq<u8>, offset: int, bytes: Seq<u8>) -> Seq<u8> {
    Seq::new(
        memory.len(),
        |i: int|
            if offset <= i < offset + bytes.len() {
                bytes[i - offset]
            } else {
                memory[i]
            },
    )
}

pub open spec fn le_bytes_u16(value: u16) -> Seq<u8> {
    seq![(value % 0x100) as u8, (value / 0x100) as u8]
}

pub open spec fn le_bytes_u32(value: u32) -> Seq<u8> {
    seq![
        (value % 0x100) as u8,
        ((value / 0x100) % 0x100) as u8,
        ((value / 0x1_0000) % 0x100) as u8,
        (value / 0x100_0000) as u8,
    ]
}

fn get_or_zero(memory: &[u8], index: usize) -> (r: u8)
    ensures
        r == byte_or_zero(memory@, index as int),
{
    if index < memory.len() {
        memory[index]
    } else {
        0
    }
}

/// Reads a little-endian halfword; bytes past the end read as zero.
pub fn read_u16_le(memory: &[u8], offset: usize) -> (r: u16)
    requires
        offset + 2 <= usize::MAX,
    ensures
        r == spec_read_u16_le(memory@, offset as int),
{
    let low = get_or_zero(memory, offset) as u16;
    let high = get_or_zero(memory, offset + 1) as u16;
    low + high * 0x100
}

/// Reads a little-endian word; bytes past the end read as zero.
pub fn read_u32_le(memory: &[u8], offset: usize) -> (r: u32)
    requires
        offset + 4 <= usize::MAX,
    ensures
        r == spec_read_u32_le(memory@, offset as int),
{
    let b0 = get_or_zero(memory, offset) as u32;
    let b1 = get_or_zero(memory, offset + 1) as u32;
    let b2 = get_or_zero(memory, offset + 2) as u32;
    let b3 = get_or_zero(memory, offset + 3) as u32;
    b0 + b1 * 0x100 + b2 * 0x1_0000 + b3 * 0x100_0000
}

fn set_if_present(memory: &mut [u8], index: usize, value: u8)
    ensures
        final(memory)@ == if index < old(memory)@.len() {
            old(memory)@.update(index as int, value)
        } else {
            old(memory)@
        },
{
    if index < memory.len() {
        memory[index] = value;
    }
}

/// Writes a little-endian halfword; bytes past the end are dropped.
pub fn write_u16_le(memory: &mut [u8], offset: usize, value: u16)
    requires
        offset + 2 <= usize::MAX,
    ensures
        final(memory)@ == spec_write_bytes(old(memory)@, offset as int, le_bytes_u16(value)),
{
    set_if_present(memory, offset, (value % 0x100) as u8);
    set_if_present(memory, offset + 1, (value / 0x100) as u8);
    assert(final(memory)@ =~= spec_write_bytes(old(memory)@, offset as int, le_bytes_u16(value)));
}

/// Writes a little-endian word; bytes past the end are dropped.
pub fn write_u32_le(memory: &mut [u8], offset: usize, value: u32)
    requires
        offset + 4 <= usize::MAX,
    ensures
        final(memory)@ == spec_write_bytes(old(memory)@, offset as int, le_bytes_u32(value)),
{
    set_if_present(memory, offset, (value % 0x100) as u8);
    set_if_present(memory, offset + 1, ((value / 0x100) % 0x100) as u8);
    set_if_present(memory, offset + 2, ((value / 0x1_0000) % 0x100) as u8);
    set_if_present(memory, offset + 3, (value / 0x100_0000) as u8);
    assert(final(memory)@ =~= spec_write_bytes(old(memory)@, offset as int, le_bytes_u32(value)));
}

/// A word written and read back at the same offset is unchanged when it
/// fits inside the memory, and a halfword likewise.
pub proof fn law_write_then_read(memory: Seq<u8>, offset: int, word: u32, half: u16)
    requires
        0 <= offset,
        offset + 4 <= memory.len(),
    ensures
        spec_read_u32_le(spec_write_bytes(memory, offset, le_bytes_u32(word)), offset) == word,
        spec_read_u16_le(spec_write_bytes(memory, offset, le_bytes_u16(half)), offset) == half,
{
    let m = spec_write_bytes(memory, offset, le_bytes_u32(word));
    assert(byte_or_zero(m, offset) == (word % 0x100) as u8);
    assert(byte_or_zero(m, offset + 1) == ((word / 0x100) % 0x100) as u8);
    assert(byte_or_zero(m, offset + 2) == ((word / 0x1_0000) % 0x100) as u8);
    assert(byte_or_zero(m, offset + 3) == (word / 0x100_0000) as u8);
    let h = spec_write_bytes(memory, offset, le_bytes_u16(half));
    assert(byte_or_zero(h, offset) == (half % 0x100) as u8);
    assert(byte_or_zero(h, offset + 1) == (half / 0x100) as u8);
}

} // verus!
