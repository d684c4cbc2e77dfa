use running_man_advance::loader::{
    FIXED_VALUE_OFFSET, HEADER_CHECKSUM_OFFSET, RomHeader, SOFTWARE_VERSION_OFFSET,
    calculate_header_checksum, decode_ascii_field,
};

fn create_test_rom() -> Vec<u8> {
    let mut rom = vec![0; 0xC0];

    rom[0xA0..0xAC].copy_from_slice(b"TEST GAME   ");
    rom[0xAC..0xB0].copy_from_slice(b"TEST");
    rom[0xB0..0xB2].copy_from_slice(b"01");

    rom[FIXED_VALUE_OFFSET] = 0x96;
    rom[SOFTWARE_VERSION_OFFSET] = 0;

    rom[HEADER_CHECKSUM_OFFSET] = calculate_header_checksum(&rom);

    rom
}

#[test]
fn parses_valid_rom_header() {
    let rom = create_test_rom();

    let header = RomHeader::parse(&rom).unwrap();

    assert_eq!(header.title(), "TEST GAME");
    assert_eq!(header.game_code(), "TEST");
    assert_eq!(header.maker_code(), "01");
    assert_eq!(header.software_version(), 0);
}

#[test]
fn rejects_invalid_fixed_value() {
    let mut rom = create_test_rom();

    rom[FIXED_VALUE_OFFSET] = 0;

    let result = RomHeader::parse(&rom);

    assert!(result.is_err());
}

#[test]
fn rejects_invalid_checksum() {
    let mut rom = create_test_rom();

    rom[HEADER_CHECKSUM_OFFSET] ^= 0xFF;

    let result = RomHeader::parse(&rom);

    assert!(result.is_err());
}

#[test]
fn decodes_zero_terminated_ascii_field() {
    let text = decode_ascii_field(b"HELLO\0WORLD");

    assert_eq!(text, "HELLO");
}

