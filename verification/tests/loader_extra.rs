use running_man_advance::loader::{
    bios_image_from_bytes, calculate_header_checksum, decode_ascii_field, rom_image_from_bytes,
    LoadError, RomHeader,
};

fn header_rom() -> Vec<u8> {
    let mut rom = vec![0; 0xC0];
    rom[0xA0..0xAC].copy_from_slice(b"GAME  \x01 X   ");
    rom[0xAC..0xB0].copy_from_slice(b"ABCD");
    rom[0xB0..0xB2].copy_from_slice(b"99");
    rom[0xB2] = 0x96;
    rom[0xBC] = 7;
    rom[0xBD] = calculate_header_checksum(&rom);
    rom
}

#[test]
fn checksum_of_blank_header_is_minus_0x19() {
    let rom = vec![0u8; 0xC0];
    assert_eq!(calculate_header_checksum(&rom), 0xE7);
}

#[test]
fn checksummed_header_law_on_concrete_rom() {
    let rom = header_rom();
    let header = RomHeader::parse(&rom).unwrap();
    assert_eq!(header.header_checksum(), rom[0xBD]);
    assert_eq!(header.software_version(), 7);
    assert_eq!(header.title(), "GAME  \u{FFFD} X");
    assert_eq!(header.game_code(), "ABCD");
    assert_eq!(header.maker_code(), "99");
}

#[test]
fn short_rom_is_refused() {
    assert_eq!(
        RomHeader::parse(&[0; 0x10]).unwrap_err(),
        LoadError::RomTooSmall {
            minimum: 0xC0,
            actual: 0x10
        }
    );
}

#[test]
fn wrong_fixed_value_is_reported_with_the_byte() {
    let mut rom = header_rom();
    rom[0xB2] = 0x12;
    assert_eq!(
        RomHeader::parse(&rom).unwrap_err(),
        LoadError::InvalidRomFixedValue {
            expected: 0x96,
            actual: 0x12
        }
    );
}

#[test]
fn wrong_checksum_is_reported_with_both_values() {
    let mut rom = header_rom();
    let expected = rom[0xBD];
    rom[0xBD] = expected.wrapping_add(1);
    assert_eq!(
        RomHeader::parse(&rom).unwrap_err(),
        LoadError::InvalidRomHeaderChecksum {
            expected,
            actual: expected.wrapping_add(1)
        }
    );
}

#[test]
fn trailing_spaces_are_trimmed_and_control_bytes_replaced() {
    assert_eq!(decode_ascii_field(b"AB\x07  "), "AB\u{FFFD}");
    assert_eq!(decode_ascii_field(b"   "), "");
    assert_eq!(decode_ascii_field(b"\0ABC"), "");
}

#[test]
fn bios_image_needs_sixteen_kibibytes() {
    assert_eq!(
        bios_image_from_bytes(vec![0; 10]).unwrap_err(),
        LoadError::InvalidBiosSize {
            expected: 0x4000,
            actual: 10
        }
    );
    let image = bios_image_from_bytes(vec![5; 0x4000]).unwrap();
    assert_eq!(image.bytes()[0x3FFF], 5);
}

#[test]
fn rom_image_keeps_bytes_and_header() {
    let rom = header_rom();
    let image = rom_image_from_bytes(rom.clone()).unwrap();
    assert_eq!(image.bytes(), &rom[..]);
    assert_eq!(image.header().game_code(), "ABCD");
    assert_eq!(image.into_bytes(), rom);
}
