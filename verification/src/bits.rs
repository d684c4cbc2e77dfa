use vstd::prelude::*;

verus! {

/// Field extraction from 32-bit words: masked values fit their width,
/// and a masked value survives a narrowing cast.
pub proof fn lemma_u32_fields()
    by (bit_vector)
    ensures
        forall|x: u32| #![trigger x & 1] x & 1 < 2,
        forall|x: u32| #![trigger x & 3] x & 3 < 4,
        forall|x: u32| #![trigger x & 7] x & 7 < 8,
        forall|x: u32| #![trigger x & 0xF] x & 0xF < 16,
        forall|x: u32| #![trigger x & 0x1F] x & 0x1F < 32,
        forall|x: u32| #![trigger x & 0xFF] x & 0xFF < 256,
        forall|x: u32| #![trigger x & 0xFFFF] x & 0xFFFF < 0x1_0000,
        forall|x: u32| #![trigger x & 0xFFF] x & 0xFFF < 0x1000,
        forall|x: u32| #![trigger x & 0x00FF_FFFF] x & 0x00FF_FFFF < 0x100_0000,
        forall|x: u32| #![trigger x & 0x0FFF_FFFF] x & 0x0FFF_FFFF < 0x1000_0000,
        forall|x: u32| #![trigger (x & !1u32) & !1u32] (x & !1u32) & !1u32 == x & !1u32,
        forall|x: u32| #![trigger x >> 28u32] x >> 28u32 < 16,
        forall|x: u32| #![trigger x >> 24u32] x >> 24u32 < 256,
        forall|x: u32| #![trigger x >> 16u32] x >> 16u32 < 0x1_0000,
        forall|x: u32| #![trigger (x & 0x1F) as u8] ((x & 0x1F) as u8) & 0x1F == (x & 0x1F) as u8,
        forall|x: u32| #![trigger (x & 0x1F) as u8] ((x & 0x1F) as u8) as u32 == x & 0x1F,
        forall|x: u32| #![trigger ((x & 0xF) as u8) & 0xF] (((x & 0xF) as u8) & 0xF) as u32 == x & 0xF,
        forall|x: u32| #![trigger ((x & 3) as u8) & 3] (((x & 3) as u8) & 3) as u32 == x & 3,
        forall|x: u32| #![trigger ((x >> 28u32) as u8) & 0xF] (((x >> 28u32) as u8) & 0xF) as u32 == x >> 28u32,
        forall|x: u8| #![trigger x & 0x1F] x & 0x1F < 32,
        forall|x: u8| #![trigger x & 0xF] x & 0xF < 16,
        forall|x: u8| #![trigger x & 3] x & 3 < 4,
        forall|x: u8| #![trigger x & 1] x & 1 < 2,
{
}

/// Setting or clearing the bits of a mask: the mask bits take the new
/// value and the bits of any disjoint mask are kept.
pub proof fn lemma_u32_set_clear()
    by (bit_vector)
    ensures
        forall|v: u32, m: u32| #![trigger (v | m) & m] m != 0 ==> (v | m) & m != 0,
        forall|v: u32, m: u32| #![trigger (v & !m) & m] (v & !m) & m == 0,
        forall|v: u32, m: u32, o: u32| #![trigger (v | m) & o] o & m == 0 ==> (v | m) & o == v & o,
        forall|v: u32, m: u32, o: u32| #![trigger (v & !m) & o] o & m == 0 ==> (v & !m) & o == v
            & o,
        forall|v: u32, b: u32| #![trigger (v & !0x1Fu32) | b] b < 32 ==> ((v & !0x1Fu32) | b) & 0x1F
            == b,
        forall|v: u32, b: u32| #![trigger (v & !0x1Fu32) | b] b < 32 ==> ((v & !0x1Fu32) | b)
            & 0xFFFF_FFE0 == v & 0xFFFF_FFE0,
        forall|v: u32| #![trigger v & 0x8000_0000u32] (v & 0x8000_0000u32 != 0) == (v >= 0x8000_0000),
        0x7FFF_FFFFu32 & 0x8000_0000u32 == 0,
        0xBFFF_FFFFu32 & 0x4000_0000u32 == 0,
        0xDFFF_FFFFu32 & 0x2000_0000u32 == 0,
        0xEFFF_FFFFu32 & 0x1000_0000u32 == 0,
        0xF000_001Fu32 & 0x80u32 == 0,
        0xF000_001Fu32 & 0x40u32 == 0,
        0xF000_001Fu32 & 0x20u32 == 0,
        0x1Fu32 & 0x80u32 == 0,
        0x1Fu32 & 0x8000_0000u32 == 0,
        0x1Fu32 & 0x4000_0000u32 == 0,
        0x1Fu32 & 0x2000_0000u32 == 0,
        0x1Fu32 & 0x1000_0000u32 == 0,
        0x1Fu32 & 0x40u32 == 0,
        0x1Fu32 & 0x20u32 == 0,
        0xD3u32 & 0x1F == 0x13,
{
}

/// Clearing and recombining flag bits of a word.
pub proof fn lemma_u32_flag_chain(psr: u32, a: u32, b: u32, d: u32, e: u32)
    by (bit_vector)
    requires
        e & 0xEFFF_FFFF == d & 0xEFFF_FFFF,
        d & 0xDFFF_FFFF == b & 0xDFFF_FFFF,
        b & 0xBFFF_FFFF == a & 0xBFFF_FFFF,
        a & 0x7FFF_FFFF == psr & 0x7FFF_FFFF,
    ensures
        e & 0x0FFF_FFFF == psr & 0x0FFF_FFFF,
        e & 0x8000_0000 == a & 0x8000_0000,
        e & 0x4000_0000 == b & 0x4000_0000,
        e & 0x2000_0000 == d & 0x2000_0000,
{
}

} // verus!
verus! {

/// Sign-bit logic of 32-bit words: the overflow test of the adder and the
/// complement of a word.
pub proof fn lemma_u32_sign_logic()
    by (bit_vector)
    ensures
        forall|x: u32, y: u32, v: u32| #![trigger (x ^ v) & (y ^ v)]
            ((x ^ v) & (y ^ v) & 0x8000_0000u32 != 0) == ((x >= 0x8000_0000) == (y >= 0x8000_0000)
                && (v >= 0x8000_0000) != (x >= 0x8000_0000)),
        forall|y: u32| #![trigger !y] (!y) as int == 0xFFFF_FFFF - y as int,
{
}

} // verus!
verus! {

/// Masked merge of two words: the bits outside the mask come from the
/// first word.
pub proof fn lemma_u32_masked_merge(current: u32, operand: u32, mask: u32)
    by (bit_vector)
    ensures
        mask & 0x20 == 0 ==> ((current & !mask) | (operand & mask)) & 0x20 == current & 0x20,
        mask & 0x1F == 0 ==> ((current & !mask) | (operand & mask)) & 0x1F == current & 0x1F,
        (mask & !0x20u32) & 0x20 == 0,
        ((mask & 0xFF00_0000u32) & !0x20u32) & 0x1F == 0,
{
}

} // verus!
verus! {

/// Setting and clearing masks of 16-bit words.
pub proof fn lemma_u16_set_clear()
    by (bit_vector)
    ensures
        forall|v: u16, m: u16| #![trigger (v | m) & m] (v | m) & m == m,
        forall|v: u16, m: u16| #![trigger (v & !m) & m] (v & !m) & m == 0,
        forall|v: u16, m: u16, o: u16| #![trigger (v | m) & o] o & m == 0 ==> (v | m) & o == v & o,
        forall|v: u16, m: u16, o: u16| #![trigger (v & !m) & o] o & m == 0 ==> (v & !m) & o == v
            & o,
        forall|v: u16, m: u16| #![trigger v & m, v & !m] (v & m) | (v & !m) == v,
        forall|v: u16| #![trigger v & 0x3FFF] v & 0x3FFF <= 0x3FFF,
        forall|v: u16| #![trigger v & 0x03FF] v & 0x03FF <= 0x03FF,
{
}

} // verus!
verus! {

/// Distinct single-bit masks of the low byte of a halfword do not
/// overlap.
pub proof fn lemma_u16_pairwise()
    by (bit_vector)
    ensures
        8u16 & 0x10u16 == 0,
        8u16 & 0x20u16 == 0,
        8u16 & 0x40u16 == 0,
        0x10u16 & 0x20u16 == 0,
        0x10u16 & 0x40u16 == 0,
        0x20u16 & 0x40u16 == 0,
        0x10u16 & 8u16 == 0,
        0x20u16 & 8u16 == 0,
        0x40u16 & 8u16 == 0,
        0x20u16 & 0x10u16 == 0,
        0x40u16 & 0x10u16 == 0,
        0x40u16 & 0x20u16 == 0,
        forall|v: u16, m: u16, o: u16| #![trigger (v | m) & o] m & o == 0 ==> ((v | m) & o != 0) == (v
            & o != 0),
        forall|v: u16, m: u16| #![trigger (v | m) & m] m != 0 ==> (v | m) & m != 0,
        forall|m: u16| #![trigger 0u16 & m] 0u16 & m == 0,
{
}

} // verus!
verus! {

/// Setting or clearing bit `i` of a byte changes bit `i` alone, and keeps
/// a value below 16 below 16 when `i` is below 4.
pub proof fn lemma_u8_single_bit(m: u8, i: u8, j: u8)
    by (bit_vector)
    requires
        i < 8,
        j < 8,
    ensures
        ((m | (1u8 << i)) >> j) & 1 == if i == j {
            1u8
        } else {
            (m >> j) & 1
        },
        ((m & !(1u8 << i)) >> j) & 1 == if i == j {
            0u8
        } else {
            (m >> j) & 1
        },
        m < 16 && i < 4 ==> (m | (1u8 << i)) < 16,
        m < 16 ==> (m & !(1u8 << i)) < 16,
{
}

/// A byte below 16 whose low four bits are clear is zero.
pub proof fn lemma_u8_low_nibble(m: u8)
    by (bit_vector)
    ensures
        m < 16 ==> (m == 0 <==> ((m >> 0u8) & 1 == 0 && (m >> 1u8) & 1 == 0 && (m >> 2u8) & 1 == 0
            && (m >> 3u8) & 1 == 0)),
        (m >> 0u8) & 1 == 1 || (m >> 0u8) & 1 == 0,
        (m >> 1u8) & 1 == 1 || (m >> 1u8) & 1 == 0,
        (m >> 2u8) & 1 == 1 || (m >> 2u8) & 1 == 0,
        (m >> 3u8) & 1 == 1 || (m >> 3u8) & 1 == 0,
{
}

} // verus!
verus! {

/// The fields of a background control halfword fit their widths.
pub proof fn lemma_u16_fields(x: u16)
    by (bit_vector)
    ensures
        x & 3 < 4,
        (x >> 2u16) & 3 < 4,
        (x >> 8u16) & 0x1F < 32,
        (x >> 14u16) & 3 < 4,
        x & 7 < 8,
        (x >> 10u16) & 1 < 2,
        (x >> 14u16) & 1 < 2,
        (x & 0x80) & 0x80 == x & 0x80,
{
}

/// Widening the three 5-bit channels of a BGR555 colour by bit
/// replication is the arithmetic 8c + c/4.
pub proof fn lemma_bgr555(color: u16)
    by (bit_vector)
    ensures
        0xFF00_0000u32 | (((((color & 0x001F) as u32) << 3u32) | (((color & 0x001F) as u32)
            >> 2u32)) << 16u32) | ((((((color >> 5u16) & 0x001F) as u32) << 3u32) | ((((color
            >> 5u16) & 0x001F) as u32) >> 2u32)) << 8u32) | (((((color >> 10u16) & 0x001F) as u32)
            << 3u32) | ((((color >> 10u16) & 0x001F) as u32) >> 2u32)) == 0xFF00_0000u32 + ((color
            % 32) * 8 + (color % 32) / 4) * 0x1_0000 + (((color / 32) % 32) * 8 + ((color / 32)
            % 32) / 4) * 0x100 + (((color / 1024) % 32) * 8 + ((color / 1024) % 32) / 4),
{
}

} // verus!
verus! {

/// Fields of a byte fit their widths.
pub proof fn lemma_u8_fields(x: u8)
    by (bit_vector)
    ensures
        (x >> 1u8) & 7 < 8,
        x & 1 < 2,
{
}

} // verus!
verus! {

/// Field extraction from 16-bit Thumb instruction words.
pub proof fn lemma_u16_thumb_fields()
    by (bit_vector)
    ensures
        forall|x: u16| #![trigger x & 7] x & 7 < 8,
        forall|x: u16, s: u16| #![trigger (x >> s) & 7] (x >> s) & 7 < 8,
        forall|x: u16| #![trigger x & 0x7FF] x & 0x7FF < 0x800,
        forall|x: u16|
            #![trigger (x & 7) | (((x >> 7u16) & 1) << 3u16)]
            (x & 7) | (((x >> 7u16) & 1) << 3u16) < 16,
        forall|x: u16|
            #![trigger ((x >> 3u16) & 7) | (((x >> 6u16) & 1) << 3u16)]
            ((x >> 3u16) & 7) | (((x >> 6u16) & 1) << 3u16) < 16,
{
}

} // verus!

verus! {

/// Bit `index` of `value` is set.
pub open spec fn bit_set_at(value: u32, index: u32) -> bool {
    (value >> index) & 1 == 1
}

/// The bits of the bitwise operations, one bit at a time.
pub proof fn lemma_bitwise_bits(a: u32, b: u32, i: u32)
    by (bit_vector)
    requires
        i < 32,
    ensures
        (((a & b) >> i) & 1 == 1) == (((a >> i) & 1 == 1) && ((b >> i) & 1 == 1)),
        (((a | b) >> i) & 1 == 1) == (((a >> i) & 1 == 1) || ((b >> i) & 1 == 1)),
        (((a ^ b) >> i) & 1 == 1) == (((a >> i) & 1 == 1) != ((b >> i) & 1 == 1)),
        (((a & !b) >> i) & 1 == 1) == (((a >> i) & 1 == 1) && !((b >> i) & 1 == 1)),
        (((!b) >> i) & 1 == 1) == !((b >> i) & 1 == 1),
{
}

} // verus!

verus! {

/// The bits of the shifts by 1..=31, one bit at a time: LSL moves bit
/// `i - n` to `i`, LSR moves bit `i + n` to `i`, the arithmetic shift
/// fills from bit 31, and the rotation wraps around.
pub proof fn lemma_shift_bits(v: u32, n: u32, i: u32)
    by (bit_vector)
    requires
        1 <= n < 32,
        i < 32,
    ensures
        (((v << n) >> i) & 1 == 1) == (i >= n && ((v >> ((i - n) as u32)) & 1 == 1)),
        (((v >> n) >> i) & 1 == 1) == (i + n < 32 && ((v >> ((i + n) as u32)) & 1 == 1)),
        (((if v >= 0x8000_0000 {
            !((!v) >> n)
        } else {
            v >> n
        }) >> i) & 1 == 1) == (if i + n < 32 {
            (v >> ((i + n) as u32)) & 1 == 1
        } else {
            (v >> 31u32) & 1 == 1
        }),
        ((((v >> n) | (v << ((32 - n) as u32))) >> i) & 1 == 1) == (if i + n < 32 {
            (v >> ((i + n) as u32)) & 1 == 1
        } else {
            (v >> ((i + n - 32) as u32)) & 1 == 1
        }),
{
}

} // verus!
