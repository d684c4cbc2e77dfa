use running_man_advance::cpu::arm::{HalfwordDataTransferExecutionError, execute_halfword_data_transfer};

use running_man_advance::{
    bus::Bus,
    cpu::{Registers, arm::decode_halfword_data_transfer},
};

fn execute(registers: &mut Registers, bus: &mut Bus, raw: u32) {
    let instruction = decode_halfword_data_transfer(raw).unwrap();

    execute_halfword_data_transfer(registers, bus, instruction, 0x0800_0000).unwrap();
}

#[test]
fn executes_strh() {
    let mut registers = Registers::new();
    let mut bus = Bus::new();

    registers.write(0, 0x0200_0100);
    registers.write(1, 0x1234_ABCD);

    // STRH R1, [R0]
    execute(&mut registers, &mut bus, 0xE1C0_10B0);

    assert_eq!(bus.read16(0x0200_0100), 0xABCD);
}

#[test]
fn ldrh_zero_extends() {
    let mut registers = Registers::new();
    let mut bus = Bus::new();

    registers.write(0, 0x0200_0100);
    bus.write16(0x0200_0100, 0xFF80);

    // LDRH R1, [R0]
    execute(&mut registers, &mut bus, 0xE1D0_10B0);

    assert_eq!(registers.read(1), 0x0000_FF80);
}

#[test]
fn ldrsb_sign_extends_negative_byte() {
    let mut registers = Registers::new();
    let mut bus = Bus::new();

    registers.write(0, 0x0200_0101);
    bus.write8(0x0200_0101, 0x80);

    // LDRSB R1, [R0]
    execute(&mut registers, &mut bus, 0xE1D0_10D0);

    assert_eq!(registers.read(1), 0xFFFF_FF80);
}

#[test]
fn ldrsb_sign_extends_positive_byte() {
    let mut registers = Registers::new();
    let mut bus = Bus::new();

    registers.write(0, 0x0200_0100);
    bus.write8(0x0200_0100, 0x7F);

    execute(&mut registers, &mut bus, 0xE1D0_10D0);

    assert_eq!(registers.read(1), 0x0000_007F);
}

#[test]
fn ldrsh_sign_extends() {
    let mut registers = Registers::new();
    let mut bus = Bus::new();

    registers.write(0, 0x0200_0100);
    bus.write16(0x0200_0100, 0x8001);

    // LDRSH R1, [R0]
    execute(&mut registers, &mut bus, 0xE1D0_10F0);

    assert_eq!(registers.read(1), 0xFFFF_8001);
}

#[test]
fn applies_immediate_offset() {
    let mut registers = Registers::new();
    let mut bus = Bus::new();

    registers.write(0, 0x0200_0100);
    bus.write16(0x0200_0104, 0xCAFE);

    // LDRH R1, [R0, #4]
    execute(&mut registers, &mut bus, 0xE1D0_10B4);

    assert_eq!(registers.read(1), 0xCAFE);
}

#[test]
fn applies_register_offset() {
    let mut registers = Registers::new();
    let mut bus = Bus::new();

    registers.write(0, 0x0200_0100);
    registers.write(2, 4);

    bus.write16(0x0200_0104, 0x1234);

    // LDRH R1, [R0, R2]
    execute(&mut registers, &mut bus, 0xE190_10B2);

    assert_eq!(registers.read(1), 0x1234);
}

#[test]
fn post_index_uses_old_base_then_writes_back() {
    let mut registers = Registers::new();
    let mut bus = Bus::new();

    registers.write(0, 0x0200_0100);
    bus.write16(0x0200_0100, 0xBEEF);

    // LDRH R1, [R0], #4
    execute(&mut registers, &mut bus, 0xE0D0_10B4);

    assert_eq!(registers.read(1), 0xBEEF);

    assert_eq!(registers.read(0), 0x0200_0104);
}

#[test]
fn rejects_odd_halfword_load_address() {
    let mut registers = Registers::new();
    let mut bus = Bus::new();

    registers.write(0, 0x0200_0101);

    let instruction = decode_halfword_data_transfer(0xE1D0_10B0).unwrap();

    let result =
        execute_halfword_data_transfer(&mut registers, &mut bus, instruction, 0x0800_0000);

    assert_eq!(
        result,
        Err(HalfwordDataTransferExecutionError::MisalignedHalfwordAccess)
    );
}

#[test]
fn strh_pc_stores_instruction_address_plus_twelve() {
    let mut registers = Registers::new();
    let mut bus = Bus::new();

    registers.write(0, 0x0200_0100);

    // STRH PC, [R0]
    execute(&mut registers, &mut bus, 0xE1C0_F0B0);

    assert_eq!(bus.read16(0x0200_0100), 0x000C);
}

