use vstd::prelude::*;

use crate::bus::{BIOS_SIZE, GAME_PAK_ROM_MAX_SIZE};

verus! {

pub const GBA_ROM_HEADER_MIN_SIZE: usize = 0xC0;

pub const TITLE_START: usize = 0xA0;

pub const TITLE_END: usize = 0xAC;

pub const GAME_CODE_START: usize = 0xAC;

pub const GAME_CODE_END: usize = 0xB0;

pub const MAKER_CODE_START: usize = 0xB0;

pub const MAKER_CODE_END: usize = 0xB2;

pub const FIXED_VALUE_OFFSET: usize = 0xB2;

pub const SOFTWARE_VERSION_OFFSET: usize = 0xBC;

pub const HEADER_CHECKSUM_OFFSET: usize = 0xBD;

pub const EXPECTED_FIXED_VALUE: u8 = 0x96;

/// Why an image was refused.
#[derive(Debug, Clone, Copy, PartialEq, Eq, Structural)]
pub enum LoadError {
    InvalidBiosSize { expected: usize, actual: usize },
    RomTooSmall { minimum: usize, actual: usize },
    RomTooLarge { maximum: usize, actual: usize },
    InvalidRomFixedValue { expected: u8, actual: u8 },
    InvalidRomHeaderChecksum { expected: u8, actual: u8 },
}

/// A BIOS image.
#[derive(Debug)]
pub struct BiosImage {
    bytes: Vec<u8>,
}

impl View for BiosImage {
    type V = Seq<u8>;

    closed spec fn view(&self) -> Seq<u8> {
        self.bytes@
    }
}

impl BiosImage {
    pub fn new(bytes: Vec<u8>) -> (r: Self)
        ensures
            r@ == bytes@,
    {
        BiosImage { bytes }
    }

    pub fn bytes(&self) -> (r: &[u8])
        ensures
            r@ == self@,
    {
        self.bytes.as_slice()
    }

    pub fn into_bytes(self) -> (r: Vec<u8>)
        ensures
            r@ == self@,
    {
        self.bytes
    }
}

/// The cartridge header fields the emulator reports.
#[derive(Debug, Clone, PartialEq, Eq)]
pub struct RomHeader {
    title: String,
    game_code: String,
    maker_code: String,
    software_version: u8,
    header_checksum: u8,
}

/// The header as plain values.
pub struct RomHeaderView {
    pub title: Seq<char>,
    pub game_code: Seq<char>,
    pub maker_code: Seq<char>,
    pub software_version: u8,
    pub header_checksum: u8,
}

impl View for RomHeader {
    type V = RomHeaderView;

    closed spec fn view(&self) -> RomHeaderView {
        RomHeaderView {
            title: self.title@,
            game_code: self.game_code@,
            maker_code: self.maker_code@,
            software_version: self.software_version,
            header_checksum: self.header_checksum,
        }
    }
}

/// A cartridge ROM image and its parsed header.
#[derive(Debug)]
pub struct RomImage {
    bytes: Vec<u8>,
    header: RomHeader,
}

impl RomImage {
    pub closed spec fn spec_bytes(&self) -> Seq<u8> {
        self.bytes@
    }

    pub closed spec fn spec_header(&self) -> RomHeaderView {
        self.header@
    }

    pub fn bytes(&self) -> (r: &[u8])
        ensures
            r@ == self.spec_bytes(),
    {
        self.bytes.as_slice()
    }

    pub fn header(&self) -> (r: &RomHeader)
        ensures
            r@ == self.spec_header(),
    {
        &self.header
    }

    pub fn into_bytes(self) -> (r: Vec<u8>)
        ensures
            r@ == self.spec_bytes(),
    {
        self.bytes
    }
}

// ---------------------------------------------------------------------
// The header's model.

/// The sum of `bytes[low..high]`.
pub open spec fn byte_sum(bytes: Seq<u8>, low: int, high: int) -> int
    decreases high - low,
{
    if high <= low {
        0
    } else {
        byte_sum(bytes, low, high - 1) + bytes[high - 1]
    }
}

/// The complement check of bytes 0xA0..=0xBC: zero minus their sum
/// minus 0x19, modulo 256.
pub open spec fn header_checksum(rom: Seq<u8>) -> u8 {
    ((-(byte_sum(rom, 0xA0, 0xBD) + 0x19)) % 256) as u8
}

/// The position of the first zero byte, or the length without one.
pub open spec fn zero_position(bytes: Seq<u8>) -> int
    decreases bytes.len(),
{
    if bytes.len() == 0 {
        0
    } else if bytes[0] == 0 {
        0
    } else {
        1 + zero_position(bytes.subrange(1, bytes.len() as int))
    }
}

/// A printable ASCII byte (graphic or space) is its character; any other
/// byte is U+FFFD.
pub open spec fn field_char(byte: u8) -> char {
    if 0x20 <= byte <= 0x7E {
        byte as char
    } else {
        '\u{FFFD}'
    }
}

/// The length of `chars` without its trailing spaces.
pub open spec fn trimmed_length(chars: Seq<char>) -> int
    decreases chars.len(),
{
    if chars.len() == 0 {
        0
    } else if chars.last() == ' ' {
        trimmed_length(chars.drop_last())
    } else {
        chars.len() as int
    }
}

/// The characters of the bytes before the first zero.
pub open spec fn field_chars(bytes: Seq<u8>) -> Seq<char> {
    Seq::new(zero_position(bytes) as nat, |i: int| field_char(bytes[i]))
}

/// A header text field: the bytes up to the first zero, as characters,
/// without trailing spaces.
pub open spec fn field_text(bytes: Seq<u8>) -> Seq<char> {
    field_chars(bytes).take(trimmed_length(field_chars(bytes)))
}

/// The header of `rom`, or why it is refused: too short, a wrong fixed
/// byte, or a wrong checksum, in that order.
pub open spec fn spec_parse_header(rom: Seq<u8>) -> Result<RomHeaderView, LoadError> {
    if rom.len() < 0xC0 {
        Err(LoadError::RomTooSmall { minimum: 0xC0, actual: rom.len() as usize })
    } else if rom[0xB2] != 0x96 {
        Err(LoadError::InvalidRomFixedValue { expected: 0x96, actual: rom[0xB2] })
    } else if rom[0xBD] != header_checksum(rom) {
        Err(LoadError::InvalidRomHeaderChecksum { expected: header_checksum(rom), actual: rom[0xBD] })
    } else {
        Ok(
            RomHeaderView {
                title: field_text(rom.subrange(0xA0, 0xAC)),
                game_code: field_text(rom.subrange(0xAC, 0xB0)),
                maker_code: field_text(rom.subrange(0xB0, 0xB2)),
                software_version: rom[0xBC],
                header_checksum: rom[0xBD],
            },
        )
    }
}

/// Whether a parse result carries the expected header or error.
pub open spec fn header_outcome(r: Result<RomHeader, LoadError>, expected: Result<RomHeaderView, LoadError>) -> bool {
    match (r, expected) {
        (Ok(header), Ok(view)) => header@ == view,
        (Err(e), Err(x)) => e == x,
        _ => false,
    }
}

// ---------------------------------------------------------------------
// The implementation.

/// Appends `c` to `text` (`String::push`).
#[verifier::external_body]
fn push_char(text: &mut String, c: char)
    ensures
        final(text)@ == old(text)@.push(c),
{
    text.push(c);
}

proof fn lemma_zero_position(bytes: Seq<u8>, n: int)
    requires
        0 <= n <= bytes.len(),
        forall|j: int| 0 <= j < n ==> bytes[j] != 0,
        n == bytes.len() || bytes[n] == 0,
    ensures
        zero_position(bytes) == n,
    decreases n,
{
    if n > 0 {
        let rest = bytes.subrange(1, bytes.len() as int);
        assert forall|j: int| 0 <= j < n - 1 implies rest[j] != 0 by {
            assert(rest[j] == bytes[j + 1]);
        }
        if n < bytes.len() {
            assert(rest[n - 1] == bytes[n]);
        }
        lemma_zero_position(rest, n - 1);
    }
}

proof fn lemma_trimmed_step(chars: Seq<char>, end: int)
    requires
        0 < end <= chars.len(),
        chars[end - 1] == ' ',
    ensures
        trimmed_length(chars.take(end)) == trimmed_length(chars.take(end - 1)),
{
    assert(chars.take(end).drop_last() =~= chars.take(end - 1));
}

/// The text of a header field: the bytes before the first zero, each
/// printable ASCII byte as its character and any other as U+FFFD, without
/// trailing spaces.
pub fn decode_ascii_field(bytes: &[u8]) -> (r: String)
    ensures
        r@ == field_text(bytes@),
{
    let mut length: usize = 0;
    while length < bytes.len() && bytes[length] != 0
        invariant
            length <= bytes@.len(),
            forall|j: int| 0 <= j < length ==> bytes@[j] != 0,
        decreases bytes@.len() - length,
    {
        length = length + 1;
    }
    proof {
        lemma_zero_position(bytes@, length as int);
    }
    let ghost chars = field_chars(bytes@);
    assert(chars.take(length as int) =~= chars);
    let mut end: usize = length;
    while end > 0 && (bytes[end - 1] == 0x20)
        invariant
            end <= length,
            length == zero_position(bytes@),
            length <= bytes@.len(),
            chars == field_chars(bytes@),
            trimmed_length(chars.take(end as int)) == trimmed_length(chars),
        decreases end,
    {
        proof {
            assert(chars[end - 1] == ' ');
            lemma_trimmed_step(chars, end as int);
        }
        end = end - 1;
    }
    proof {
        assert(chars.take(length as int) =~= chars);
        if end > 0 {
            assert(chars.take(end as int).last() == chars[end - 1]);
            assert(chars[end - 1] != ' ');
        }
    }
    let mut text = String::new();
    let mut index: usize = 0;
    while index < end
        invariant
            index <= end,
            end <= length,
            length == zero_position(bytes@),
            length <= bytes@.len(),
            chars == field_chars(bytes@),
            trimmed_length(chars.take(end as int)) == end,
            text@ == chars.take(index as int),
        decreases end - index,
    {
        let byte = bytes[index];
        let c = if 0x20 <= byte && byte <= 0x7E {
            byte as char
        } else {
            '\u{FFFD}'
        };
        push_char(&mut text, c);
        proof {
            assert(chars.take(index as int + 1) =~= chars.take(index as int).push(c));
        }
        index = index + 1;
    }
    proof {
        assert(trimmed_length(chars) == end);
    }
    text
}

/// The checksum that byte 0xBD must hold.
pub fn calculate_header_checksum(rom: &[u8]) -> (r: u8)
    requires
        rom@.len() >= 0xBD,
    ensures
        r == header_checksum(rom@),
{
    let mut sum: u32 = 0;
    let mut index: usize = TITLE_START;
    while index <= SOFTWARE_VERSION_OFFSET
        invariant
            0xA0 <= index <= 0xBD,
            rom@.len() >= 0xBD,
            sum == byte_sum(rom@, 0xA0, index as int),
            sum <= 255 * (index - 0xA0),
        decreases 0xBD - index,
    {
        sum = sum + rom[index] as u32;
        index = index + 1;
    }
    let value: u32 = (0x1_0000 - sum - 0x19) % 256;
    proof {
        let s = sum as int;
        vstd::arithmetic::div_mod::lemma_mod_multiples_vanish(256, -(s + 0x19), 256);
        assert(256 * 256 + -(s + 0x19) == 0x1_0000 - s - 0x19);
    }
    value as u8
}

impl RomHeader {
    pub fn title(&self) -> (r: &str)
        ensures
            r@ == self@.title,
    {
        self.title.as_str()
    }

    pub fn game_code(&self) -> (r: &str)
        ensures
            r@ == self@.game_code,
    {
        self.game_code.as_str()
    }

    pub fn maker_code(&self) -> (r: &str)
        ensures
            r@ == self@.maker_code,
    {
        self.maker_code.as_str()
    }

    pub fn software_version(&self) -> (r: u8)
        ensures
            r == self@.software_version,
    {
        self.software_version
    }

    pub fn header_checksum(&self) -> (r: u8)
        ensures
            r == self@.header_checksum,
    {
        self.header_checksum
    }

    /// Parses and checks the header at the start of `rom`.
    pub fn parse(rom: &[u8]) -> (r: Result<Self, LoadError>)
        ensures
            header_outcome(r, spec_parse_header(rom@)),
    {
        if rom.len() < GBA_ROM_HEADER_MIN_SIZE {
            return Err(LoadError::RomTooSmall { minimum: GBA_ROM_HEADER_MIN_SIZE, actual: rom.len() });
        }
        let fixed_value = rom[FIXED_VALUE_OFFSET];
        if fixed_value != EXPECTED_FIXED_VALUE {
            return Err(
                LoadError::InvalidRomFixedValue { expected: EXPECTED_FIXED_VALUE, actual: fixed_value },
            );
        }
        let expected_checksum = calculate_header_checksum(rom);
        let actual_checksum = rom[HEADER_CHECKSUM_OFFSET];
        if actual_checksum != expected_checksum {
            return Err(
                LoadError::InvalidRomHeaderChecksum {
                    expected: expected_checksum,
                    actual: actual_checksum,
                },
            );
        }
        let title = decode_ascii_field(slice_of(rom, TITLE_START, TITLE_END));
        let game_code = decode_ascii_field(slice_of(rom, GAME_CODE_START, GAME_CODE_END));
        let maker_code = decode_ascii_field(slice_of(rom, MAKER_CODE_START, MAKER_CODE_END));
        Ok(
            RomHeader {
                title,
                game_code,
                maker_code,
                software_version: rom[SOFTWARE_VERSION_OFFSET],
                header_checksum: actual_checksum,
            },
        )
    }
}

/// `bytes[start..end]`.
fn slice_of(bytes: &[u8], start: usize, end: usize) -> (r: &[u8])
    requires
        start <= end <= bytes@.len(),
    ensures
        r@ == bytes@.subrange(start as int, end as int),
{
    vstd::slice::slice_subrange(bytes, start, end)
}

/// A BIOS image from its bytes: exactly 16 KiB are required.
pub fn bios_image_from_bytes(bytes: Vec<u8>) -> (r: Result<BiosImage, LoadError>)
    ensures
        bytes@.len() == 0x4000 ==> (r matches Ok(image) && image@ == bytes@),
        bytes@.len() != 0x4000 ==> r == Err::<BiosImage, LoadError>(
            LoadError::InvalidBiosSize { expected: 0x4000, actual: bytes@.len() as usize },
        ),
{
    if bytes.len() != BIOS_SIZE {
        return Err(LoadError::InvalidBiosSize { expected: BIOS_SIZE, actual: bytes.len() });
    }
    Ok(BiosImage { bytes })
}

/// A ROM image from its bytes: at most 32 MiB, with a valid header.
pub fn rom_image_from_bytes(bytes: Vec<u8>) -> (r: Result<RomImage, LoadError>)
    ensures
        bytes@.len() > 0x0200_0000 ==> r == Err::<RomImage, LoadError>(
            LoadError::RomTooLarge { maximum: 0x0200_0000, actual: bytes@.len() as usize },
        ),
        bytes@.len() <= 0x0200_0000 ==> match spec_parse_header(bytes@) {
            Ok(header) => (r matches Ok(image) && image.spec_bytes() == bytes@ && image.spec_header()
                == header),
            Err(e) => r == Err::<RomImage, LoadError>(e),
        },
{
    if bytes.len() > GAME_PAK_ROM_MAX_SIZE {
        return Err(LoadError::RomTooLarge { maximum: GAME_PAK_ROM_MAX_SIZE, actual: bytes.len() });
    }
    match RomHeader::parse(bytes.as_slice()) {
        Ok(header) => Ok(RomImage { bytes, header }),
        Err(error) => Err(error),
    }
}

} // verus!

verus! {

/// A ROM of at least 0xC0 bytes whose fixed byte is 0x96 and whose byte
/// 0xBD holds the header checksum has a valid header, and the header
/// reports that checksum.
pub proof fn law_checksummed_header_is_valid(rom: Seq<u8>)
    requires
        rom.len() >= 0xC0,
        rom[0xB2] == 0x96,
        rom[0xBD] == header_checksum(rom),
    ensures
        spec_parse_header(rom) matches Ok(header) && header.header_checksum == header_checksum(rom)
            && header.software_version == rom[0xBC],
{
}

/// Any other byte at 0xBD makes the header invalid.
pub proof fn law_wrong_checksum_is_refused(rom: Seq<u8>)
    requires
        rom.len() >= 0xC0,
        rom[0xB2] == 0x96,
        rom[0xBD] != header_checksum(rom),
    ensures
        spec_parse_header(rom) == Err::<RomHeaderView, LoadError>(
            LoadError::InvalidRomHeaderChecksum { expected: header_checksum(rom), actual: rom[0xBD] },
        ),
{
}

} // verus!
