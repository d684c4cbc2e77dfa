use vstd::prelude::*;

use crate::bus::memory::{le_bytes_u32, spec_read_u32_le, spec_write_bytes};
use crate::bus::{bus_written32, law_work_ram_write_then_read, Bus};
use crate::cpu::arm::block_data_transfer::{list_contains, list_count_below};
use crate::cpu::arm::block_data_transfer_executor::{slot_address, store_step, store_value, stored};
use crate::cpu::registers::{law_register_write_read, RegisterFile};

use super::executor::{multiple_transfer_done, pop_list, push_list, thumb_loaded};
use super::instruction::ThumbInstruction;

verus! {

/// One of the work-RAM blocks, by its base and size: EWRAM's 256 KiB or
/// IWRAM's 32 KiB.
pub open spec fn work_ram_block(base: u32, size: u32) -> bool {
    (base == 0x0200_0000 && size == 0x4_0000) || (base == 0x0300_0000 && size == 0x8000)
}

/// An aligned word of the block at `base`, below its first mirror.
pub open spec fn ram_word(base: u32, size: u32, address: u32) -> bool {
    base <= address && address + 4 <= base + size && address % 4 == 0
}

proof fn lemma_ram_word_frame(
    before: Bus,
    after: Bus,
    base: u32,
    size: u32,
    written: u32,
    value: u32,
    other: u32,
)
    requires
        before.wf(),
        work_ram_block(base, size),
        bus_written32(before, after, written, value),
        ram_word(base, size, written),
        ram_word(base, size, other),
        written + 4 <= other || other + 4 <= written,
    ensures
        after.spec_read32(other) == before.spec_read32(other),
{
    assert(written & !3u32 == written && other & !3u32 == other) by (bit_vector)
        requires
            written % 4 == 0,
            other % 4 == 0,
    ;
    let o1 = (written - base) as int;
    let o2 = (other - base) as int;
    vstd::arithmetic::div_mod::lemma_small_mod(o1 as nat, size as nat);
    vstd::arithmetic::div_mod::lemma_small_mod(o2 as nat, size as nat);
    if base == 0x0200_0000 {
        let m = spec_write_bytes(before.ewram@, o1, le_bytes_u32(value));
        assert(spec_read_u32_le(m, o2) == spec_read_u32_le(before.ewram@, o2));
    } else {
        let m = spec_write_bytes(before.iwram@, o1, le_bytes_u32(value));
        assert(spec_read_u32_le(m, o2) == spec_read_u32_le(before.iwram@, o2));
    }
}

proof fn lemma_count_step(bits: u16, r: int)
    requires
        0 <= r,
    ensures
        list_count_below(bits, r + 1) == list_count_below(bits, r) + if list_contains(bits, r) {
            1int
        } else {
            0
        },
{
    assert((r + 1) - 1 == r);
}

proof fn lemma_count_monotonic(bits: u16, a: int, b: int)
    requires
        0 <= a <= b,
    ensures
        list_count_below(bits, a) <= list_count_below(bits, b),
    decreases b - a,
{
    if a < b {
        lemma_count_monotonic(bits, a, b - 1);
        lemma_count_step(bits, b - 1);
    }
}

/// The slot of each listed register is an aligned word of the block, and
/// later registers lie at least a word higher.
proof fn lemma_slots(bits: u16, base: u32, size: u32, first: u32, r: int, s: int)
    requires
        0 <= r < 16,
        0 <= s < 16,
        list_contains(bits, r),
        work_ram_block(base, size),
        first % 4 == 0,
        base <= first,
        first + 4 * list_count_below(bits, 16) <= base + size,
    ensures
        slot_address(first, bits, r) == first + 4 * list_count_below(bits, r),
        ram_word(base, size, slot_address(first, bits, r)),
        r < s ==> slot_address(first, bits, r) + 4 <= first + 4 * list_count_below(bits, s),
{
    lemma_count_step(bits, r);
    lemma_count_monotonic(bits, r + 1, 16);
    lemma_count_monotonic(bits, 0, r);
    if r < s {
        lemma_count_monotonic(bits, r + 1, s);
    }
    let c = list_count_below(bits, r);
    vstd::arithmetic::div_mod::lemma_small_mod((first + 4 * c) as nat, 0x1_0000_0000);
    vstd::arithmetic::div_mod::lemma_mod_multiples_vanish(c, first as int, 4);
}

/// After the stores of the listed registers below `n`, each one's slot
/// reads back the register, and the bus stays well formed.
proof fn lemma_stored_reads(
    start: Bus,
    end: Bus,
    registers: RegisterFile,
    bits: u16,
    base: u32,
    size: u32,
    first: u32,
    instruction_address: u32,
    n: int,
)
    requires
        0 <= n <= 16,
        start.wf(),
        stored(start, end, registers, bits, first, instruction_address, n),
        !list_contains(bits, 15),
        work_ram_block(base, size),
        first % 4 == 0,
        base <= first,
        first + 4 * list_count_below(bits, 16) <= base + size,
    ensures
        end.wf(),
        forall|r: int|
            0 <= r < n && list_contains(bits, r) ==> #[trigger] end.spec_read32(
                slot_address(first, bits, r),
            ) == registers.read(r),
    decreases n,
{
    if n > 0 {
        if !list_contains(bits, n - 1) {
            lemma_stored_reads(start, end, registers, bits, base, size, first, instruction_address, n - 1);
        } else {
            let slot = slot_address(first, bits, n - 1);
            let value = store_value(registers, n - 1, instruction_address);
            let middle = choose|middle: Bus|
                #[trigger] store_step(middle, end, slot, value) && stored(
                    start,
                    middle,
                    registers,
                    bits,
                    first,
                    instruction_address,
                    n - 1,
                );
            lemma_stored_reads(start, middle, registers, bits, base, size, first, instruction_address, n - 1);
            lemma_slots(bits, base, size, first, n - 1, 15);
            law_work_ram_write_then_read(middle, end, slot, value);
            assert forall|r: int| 0 <= r < n && list_contains(bits, r) implies #[trigger] end.spec_read32(
                slot_address(first, bits, r),
            ) == registers.read(r) by {
                if r < n - 1 {
                    lemma_slots(bits, base, size, first, r, n - 1);
                    lemma_ram_word_frame(middle, end, base, size, slot, value, slot_address(first, bits, r));
                }
            }
        }
    }
}

/// A low register after loading the listed registers below `n`: its slot's
/// word if it is listed, else its old value.
proof fn lemma_loaded_low(registers: RegisterFile, bus: Bus, bits: u16, first: u32, n: int, r: int)
    requires
        0 <= n <= 16,
        0 <= r < 8,
        registers.well_sized(),
        forall|k: int| 8 <= k < 16 ==> !#[trigger] list_contains(bits, k),
    ensures
        thumb_loaded(registers, bus, bits, first, n).read(r) == if r < n && list_contains(bits, r) {
            bus.spec_read32(slot_address(first, bits, r))
        } else {
            registers.read(r)
        },
        thumb_loaded(registers, bus, bits, first, n).cpsr == registers.cpsr,
        thumb_loaded(registers, bus, bits, first, n).well_sized(),
    decreases n,
{
    if n > 0 {
        lemma_loaded_low(registers, bus, bits, first, n - 1, r);
    }
}

/// A list of low registers names no register from 8 up.
proof fn lemma_low_list_only(list: u8)
    ensures
        forall|k: int| 8 <= k < 16 ==> !#[trigger] list_contains(list as u16, k),
{
    vstd::arithmetic::power2::lemma2_to64();
    assert forall|k: int| 8 <= k < 16 implies !#[trigger] list_contains(list as u16, k) by {
        if k > 8 {
            vstd::arithmetic::power2::lemma_pow2_strictly_increases(8, k as nat);
        }
        vstd::arithmetic::div_mod::lemma_basic_div(list as int, vstd::arithmetic::power2::pow2(k as nat) as int);
    }
}

/// PUSH then POP of the same low registers, with the stack inside one
/// work-RAM block (EWRAM or IWRAM, below its first mirror), restores
/// every low register and the stack pointer, and POP leaves the bus as
/// PUSH left it.
pub proof fn law_push_then_pop_restores_registers(
    registers: RegisterFile,
    bus: Bus,
    pushed_registers: RegisterFile,
    pushed_bus: Bus,
    popped_registers: RegisterFile,
    popped_bus: Bus,
    list: u8,
    address: u32,
    branch: bool,
)
    requires
        registers.valid(),
        registers.well_sized(),
        bus.wf(),
        list != 0,
        registers.read(13) % 4 == 0,
        0x0200_0000 + 4 * list_count_below(list as u16, 16) <= registers.read(13) <= 0x0204_0000
            || 0x0300_0000 + 4 * list_count_below(list as u16, 16) <= registers.read(13) <= 0x0300_8000,
        multiple_transfer_done(
            registers,
            bus,
            pushed_registers,
            pushed_bus,
            ThumbInstruction::Push { registers: list, include_link_register: false },
            address,
            false,
        ),
        multiple_transfer_done(
            pushed_registers,
            pushed_bus,
            popped_registers,
            popped_bus,
            ThumbInstruction::Pop { registers: list, include_program_counter: false },
            address.wrapping_add(2),
            branch,
        ),
    ensures
        forall|r: int| 0 <= r < 8 ==> #[trigger] popped_registers.read(r) == registers.read(r),
        popped_registers.read(13) == registers.read(13),
        popped_bus == pushed_bus,
        !branch,
{
    let bits = list as u16;
    assert(push_list(list, false) == bits && pop_list(list, false) == bits) by (bit_vector)
        requires
            bits == list as u16,
    ;
    crate::cpu::arm::block_data_transfer::lemma_nonempty_count(bits);
    lemma_low_list_only(list);
    let count = list_count_below(bits, 16);
    let sp = registers.read(13);
    let first = sp.wrapping_sub((count * 4) as u32);
    assert(first == sp - 4 * count);
    assert(first % 4 == 0) by {
        vstd::arithmetic::div_mod::lemma_mod_multiples_vanish(-count, sp as int, 4);
    }
    let (base, size): (u32, u32) = if sp <= 0x0204_0000 {
        (0x0200_0000, 0x4_0000)
    } else {
        (0x0300_0000, 0x8000)
    };
    lemma_stored_reads(bus, pushed_bus, registers, bits, base, size, first, address, 16);
    law_register_write_read(registers, 13, 13, first);
    let loaded = thumb_loaded(pushed_registers, pushed_bus, bits, first, 16);
    let end = first.wrapping_add((count * 4) as u32);
    assert(end == sp);
    lemma_loaded_low(pushed_registers, pushed_bus, bits, first, 16, 0);
    law_register_write_read(loaded, 13, 13, end);
    assert forall|r: int| 0 <= r < 8 implies #[trigger] popped_registers.read(r) == registers.read(r) by {
        law_register_write_read(registers, 13, r, first);
        lemma_loaded_low(pushed_registers, pushed_bus, bits, first, 16, r);
        law_register_write_read(loaded, 13, r, end);
    }
}

} // verus!
