use vstd::prelude::*;

use super::decoder::{condition_from_field, ArmCondition};

verus! {

#[derive(Debug, Clone, Copy, PartialEq, Eq, Structural)]
pub enum BlockAddressingMode {
    IncrementAfter,
    IncrementBefore,
    DecrementAfter,
    DecrementBefore,
}

pub open spec fn addressing_mode(pre_index: bool, add: bool) -> BlockAddressingMode {
    if add {
        if pre_index {
            BlockAddressingMode::IncrementBefore
        } else {
            BlockAddressingMode::IncrementAfter
        }
    } else {
        if pre_index {
            BlockAddressingMode::DecrementBefore
        } else {
            BlockAddressingMode::DecrementAfter
        }
    }
}

impl BlockAddressingMode {
    /// The mode named by the P (pre-index) and U (add) bits.
    pub fn from_bits(pre_index: bool, add: bool) -> (r: Self)
        ensures
            r == addressing_mode(pre_index, add),
    {
        match (pre_index, add) {
            (false, true) => BlockAddressingMode::IncrementAfter,
            (true, true) => BlockAddressingMode::IncrementBefore,
            (false, false) => BlockAddressingMode::DecrementAfter,
            (true, false) => BlockAddressingMode::DecrementBefore,
        }
    }
}

/// The sixteen-bit register list of LDM/STM.
#[derive(Debug, Clone, Copy, PartialEq, Eq, Structural)]
pub struct RegisterList {
    bits: u16,
}

/// Whether register `r` is in the list `bits`.
pub open spec fn list_contains(bits: u16, r: int) -> bool {
    0 <= r < 16 && (bits as int / vstd::arithmetic::power2::pow2(r as nat) as int) % 2 == 1
}

/// The number of registers in the lowest `n` positions of the list.
pub open spec fn list_count_below(bits: u16, n: int) -> int
    decreases n,
{
    if n <= 0 {
        0
    } else {
        list_count_below(bits, n - 1) + if list_contains(bits, n - 1) {
            1int
        } else {
            0
        }
    }
}

impl View for RegisterList {
    type V = u16;

    closed spec fn view(&self) -> u16 {
        self.bits
    }
}

pub(crate) proof fn lemma_count_bounds(bits: u16, n: int)
    requires
        0 <= n <= 16,
    ensures
        0 <= list_count_below(bits, n) <= n,
    decreases n,
{
    if n > 0 {
        lemma_count_bounds(bits, n - 1);
    }
}

/// The register list whose bits are `bits`.
pub closed spec fn register_list_of(bits: u16) -> RegisterList {
    RegisterList { bits }
}

proof fn lemma_empty_count(bits: u16, n: int)
    requires
        0 <= n <= 16,
        list_count_below(bits, n) == 0,
    ensures
        (bits as int) % (vstd::arithmetic::power2::pow2(n as nat) as int) == 0,
    decreases n,
{
    vstd::arithmetic::power2::lemma_pow2_pos(n as nat);
    if n == 0 {
        vstd::arithmetic::power2::lemma2_to64();
    } else {
        lemma_count_bounds(bits, n - 1);
        lemma_empty_count(bits, n - 1);
        let p = vstd::arithmetic::power2::pow2((n - 1) as nat) as int;
        vstd::arithmetic::power2::lemma_pow2_pos((n - 1) as nat);
        vstd::arithmetic::power2::lemma_pow2_unfold(n as nat);
        vstd::arithmetic::div_mod::lemma_mod_breakdown(bits as int, p, 2);
        assert((bits as int / p) % 2 == 0);
        assert(p * 2 == vstd::arithmetic::power2::pow2(n as nat));
    }
}

/// A list with any bit set names at least one register.
pub proof fn lemma_nonempty_count(bits: u16)
    ensures
        bits != 0 ==> list_count_below(bits, 16) > 0,
{
    lemma_count_bounds(bits, 16);
    if list_count_below(bits, 16) == 0 {
        lemma_empty_count(bits, 16);
        vstd::arithmetic::power2::lemma2_to64();
        vstd::arithmetic::div_mod::lemma_small_mod(bits as nat, 0x1_0000);
    }
}

/// The list built from `bits` has those bits.
pub proof fn lemma_register_list_of(bits: u16)
    ensures
        register_list_of(bits)@ == bits,
{
}

impl RegisterList {
    pub fn new(bits: u16) -> (r: Self)
        ensures
            r@ == bits,
            r == register_list_of(bits),
    {
        RegisterList { bits }
    }

    pub fn bits(self) -> (r: u16)
        ensures
            r == self@,
    {
        self.bits
    }

    pub fn is_empty(self) -> (r: bool)
        ensures
            r == (self@ == 0),
    {
        self.bits == 0
    }

    /// Whether the list names `register`; registers above 15 never are.
    pub fn contains(self, register: u8) -> (r: bool)
        ensures
            r == list_contains(self@, register as int),
    {
        if register >= 16 {
            return false;
        }
        let divisor: u32 = power_of_two(register as u32);
        (self.bits as u32 / divisor) % 2 == 1
    }

    /// The number of registers in the list.
    pub fn count(self) -> (r: u32)
        ensures
            r == list_count_below(self@, 16),
            r <= 16,
    {
        let mut count: u32 = 0;
        let mut register: u8 = 0;
        while register < 16
            invariant
                register <= 16,
                count == list_count_below(self@, register as int),
                count <= register,
            decreases 16 - register,
        {
            if self.contains(register) {
                count = count + 1;
            }
            register = register + 1;
        }
        count
    }
}

/// 2^n for n < 16, computed by doubling.
pub fn power_of_two(n: u32) -> (r: u32)
    requires
        n < 16,
    ensures
        r == vstd::arithmetic::power2::pow2(n as nat),
        r <= 0x8000,
        r >= 1,
{
    proof {
        vstd::arithmetic::power2::lemma_pow2_pos(n as nat);
    }
    let mut value: u32 = 1;
    let mut i: u32 = 0;
    proof {
        vstd::arithmetic::power2::lemma2_to64();
    }
    while i < n
        invariant
            i <= n,
            n < 16,
            value == vstd::arithmetic::power2::pow2(i as nat),
            value <= 0x8000,
        decreases n - i,
    {
        proof {
            vstd::arithmetic::power2::lemma_pow2_unfold((i + 1) as nat);
            vstd::arithmetic::power2::lemma2_to64();
        }
        value = value * 2;
        i = i + 1;
    }
    value
}

#[derive(Debug, Clone, Copy, PartialEq, Eq, Structural)]
pub struct BlockDataTransferInstruction {
    pub condition: ArmCondition,
    pub addressing_mode: BlockAddressingMode,
    /// The S bit: user-bank transfer or SPSR restore; rejected by the
    /// executor.
    pub psr_or_user_mode: bool,
    pub write_back: bool,
    pub load: bool,
    pub rn: u8,
    pub registers: RegisterList,
}

#[derive(Debug, Clone, Copy, PartialEq, Eq, Structural)]
pub enum BlockDataTransferDecodeError {
    InvalidEncoding,
    EmptyRegisterList,
}

/// The decoding of LDM and STM.
pub open spec fn spec_decode_block_data_transfer(i: u32) -> Result<BlockDataTransferInstruction, BlockDataTransferDecodeError> {
    if i & 0x0E00_0000 != 0x0800_0000 {
        Err(BlockDataTransferDecodeError::InvalidEncoding)
    } else if i as u16 == 0 {
        Err(BlockDataTransferDecodeError::EmptyRegisterList)
    } else {
        Ok(
            BlockDataTransferInstruction {
                condition: condition_from_field((i >> 28) as int),
                addressing_mode: addressing_mode(i & 0x0100_0000 != 0, i & 0x0080_0000 != 0),
                psr_or_user_mode: i & 0x0040_0000 != 0,
                write_back: i & 0x0020_0000 != 0,
                load: i & 0x0010_0000 != 0,
                rn: ((i >> 16) & 0xF) as u8,
                registers: register_list_of(i as u16),
            },
        )
    }
}

/// Decodes LDM and STM. An empty register list is rejected.
pub fn decode_block_data_transfer(instruction: u32) -> (r: Result<
    BlockDataTransferInstruction,
    BlockDataTransferDecodeError,
>)
    ensures
        instruction & 0x0E00_0000 != 0x0800_0000 ==> r == Err::<
            BlockDataTransferInstruction,
            BlockDataTransferDecodeError,
        >(BlockDataTransferDecodeError::InvalidEncoding),
        instruction & 0x0E00_0000 == 0x0800_0000 && instruction as u16 == 0 ==> r == Err::<
            BlockDataTransferInstruction,
            BlockDataTransferDecodeError,
        >(BlockDataTransferDecodeError::EmptyRegisterList),
        instruction & 0x0E00_0000 == 0x0800_0000 && instruction as u16 != 0 ==> (r matches Ok(d) && d
            == (BlockDataTransferInstruction {
            condition: condition_from_field((instruction >> 28) as int),
            addressing_mode: addressing_mode(
                instruction & 0x0100_0000 != 0,
                instruction & 0x0080_0000 != 0,
            ),
            psr_or_user_mode: instruction & 0x0040_0000 != 0,
            write_back: instruction & 0x0020_0000 != 0,
            load: instruction & 0x0010_0000 != 0,
            rn: ((instruction >> 16) & 0xF) as u8,
            registers: d.registers,
        }) && d.registers@ == instruction as u16),
        r matches Ok(d) ==> d.rn < 16,
        r == spec_decode_block_data_transfer(instruction),
{
    if instruction & 0x0E00_0000 != 0x0800_0000 {
        return Err(BlockDataTransferDecodeError::InvalidEncoding);
    }
    proof {
        crate::bits::lemma_u32_fields();
        super::decoder::lemma_condition_field(instruction);
    }
    let registers = RegisterList::new(instruction as u16);
    if registers.is_empty() {
        return Err(BlockDataTransferDecodeError::EmptyRegisterList);
    }
    Ok(
        BlockDataTransferInstruction {
            condition: ArmCondition::from_bits((instruction >> 28) as u8),
            addressing_mode: BlockAddressingMode::from_bits(
                instruction & 0x0100_0000 != 0,
                instruction & 0x0080_0000 != 0,
            ),
            psr_or_user_mode: instruction & 0x0040_0000 != 0,
            write_back: instruction & 0x0020_0000 != 0,
            load: instruction & 0x0010_0000 != 0,
            rn: ((instruction >> 16) & 0x0F) as u8,
            registers,
        },
    )
}

} // verus!
