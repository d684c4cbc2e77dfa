use running_man_advance::cpu::thumb::decode_thumb;
use running_man_advance::cpu::thumb::{
    ThumbHalfwordTransferKind, ThumbInstruction, ThumbLoadAddressBase,
    ThumbRegisterOffsetTransferKind,
};

#[test]
fn decodes_literal_load() {
    assert_eq!(
        decode_thumb(0x4902).unwrap(),
        ThumbInstruction::LiteralLoad {
            destination: 1,
            offset: 8,
        }
    );
}

#[test]
fn decodes_register_offset_signed_halfword_load() {
    assert_eq!(
        decode_thumb(0x5E88).unwrap(),
        ThumbInstruction::RegisterOffsetTransfer {
            kind: ThumbRegisterOffsetTransferKind::LoadSignedHalfword,
            offset_register: 2,
            base_register: 1,
            destination: 0,
        }
    );
}

#[test]
fn decodes_halfword_immediate_load() {
    assert_eq!(
        decode_thumb(0x8948).unwrap(),
        ThumbInstruction::HalfwordImmediateTransfer {
            kind: ThumbHalfwordTransferKind::Load,
            offset: 10,
            base_register: 1,
            destination: 0,
        }
    );
}

#[test]
fn decodes_pc_relative_address() {
    assert_eq!(
        decode_thumb(0xA204).unwrap(),
        ThumbInstruction::LoadAddress {
            base: ThumbLoadAddressBase::ProgramCounter,
            destination: 2,
            offset: 16,
        }
    );
}

#[test]
fn decodes_push_with_lr() {
    assert_eq!(
        decode_thumb(0xB503).unwrap(),
        ThumbInstruction::Push {
            registers: 0x03,
            include_link_register: true,
        }
    );
}

#[test]
fn decodes_pop_with_pc() {
    assert_eq!(
        decode_thumb(0xBD01).unwrap(),
        ThumbInstruction::Pop {
            registers: 0x01,
            include_program_counter: true,
        }
    );
}

#[test]
fn decodes_alu_multiply() {
    assert_eq!(
        decode_thumb(0x4348).unwrap(),
        ThumbInstruction::Alu {
            operation: running_man_advance::cpu::thumb::ThumbAluOperation::Multiply,
            source: 1,
            destination: 0,
        }
    );
}

#[test]
fn decodes_first_half_of_bl() {
    assert_eq!(
        decode_thumb(0xF001).unwrap(),
        ThumbInstruction::LongBranchWithLink {
            half: running_man_advance::cpu::thumb::ThumbLongBranchHalf::First,
            offset: 0x1000,
        }
    );
}

#[test]
fn decodes_second_half_of_bl() {
    assert_eq!(
        decode_thumb(0xF802).unwrap(),
        ThumbInstruction::LongBranchWithLink {
            half: running_man_advance::cpu::thumb::ThumbLongBranchHalf::Second,
            offset: 4,
        }
    );
}

