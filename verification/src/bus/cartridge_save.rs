use vstd::prelude::*;

verus! {

pub const SRAM_SIZE: usize = 32768;
pub const FLASH_1M_SIZE: usize = 131072;
pub const FLASH_BANK_SIZE: usize = 65536;
pub const FLASH_SECTOR_SIZE: usize = 4096;

/// The identifiers a 1 Mbit flash chip reports in ID mode.
pub const FLASH_MAKER_ID: u8 = 0x62;
pub const FLASH_DEVICE_ID: u8 = 0x13;

#[derive(Debug, Clone, Copy, PartialEq, Eq, Structural)]
pub enum CartridgeSaveType {
    Sram,
    Flash1M,
}

pub open spec fn save_size(save_type: CartridgeSaveType) -> usize {
    match save_type {
        CartridgeSaveType::Sram => 32768,
        CartridgeSaveType::Flash1M => 131072,
    }
}

impl CartridgeSaveType {
    pub fn size(self) -> (r: usize)
        ensures
            r == save_size(self),
    {
        match self {
            CartridgeSaveType::Sram => SRAM_SIZE,
            CartridgeSaveType::Flash1M => FLASH_1M_SIZE,
        }
    }

    pub fn name(self) -> (r: &'static str)
        ensures
            self is Sram ==> r@ == "SRAM"@,
            self is Flash1M ==> r@ == "Flash 1M"@,
    {
        match self {
            CartridgeSaveType::Sram => "SRAM",
            CartridgeSaveType::Flash1M => "Flash 1M",
        }
    }
}

/// A save image of the wrong size.
#[derive(Debug, Clone, PartialEq, Eq, Structural)]
pub struct CartridgeSaveLoadError {
    pub expected: usize,
    pub actual: usize,
}

/// Where the flash command sequencer stands.
#[derive(Debug, Clone, Copy, PartialEq, Eq, Structural)]
pub enum FlashCommandState {
    Ready,
    Unlock1,
    Unlock2,
    Program,
    SelectBank,
    EraseUnlock1,
    EraseUnlock2,
    EraseCommand,
}

/// A 1 Mbit (two 64 KiB banks) flash chip: its cells, the selected bank,
/// ID mode, and the command sequencer.
#[derive(Debug, Clone)]
pub struct Flash1M {
    pub storage: Vec<u8>,
    pub bank: usize,
    pub id_mode: bool,
    pub command_state: FlashCommandState,
}

/// The sequencer's next state after `value` is written at `offset`
/// (within the bank): the unlock pair 0x5555=0xAA, 0x2AAA=0x55, then a
/// command at 0x5555.
pub open spec fn next_flash_state(state: FlashCommandState, offset: int, value: u8) -> FlashCommandState {
    match state {
        FlashCommandState::Ready => if offset == 0x5555 && value == 0xAA {
            FlashCommandState::Unlock1
        } else {
            FlashCommandState::Ready
        },
        FlashCommandState::Unlock1 => if offset == 0x2AAA && value == 0x55 {
            FlashCommandState::Unlock2
        } else {
            FlashCommandState::Ready
        },
        FlashCommandState::Unlock2 => if offset != 0x5555 {
            FlashCommandState::Ready
        } else if value == 0xA0 {
            FlashCommandState::Program
        } else if value == 0xB0 {
            FlashCommandState::SelectBank
        } else if value == 0x80 {
            FlashCommandState::EraseUnlock1
        } else {
            FlashCommandState::Ready
        },
        FlashCommandState::EraseUnlock1 => if offset == 0x5555 && value == 0xAA {
            FlashCommandState::EraseUnlock2
        } else {
            FlashCommandState::Ready
        },
        FlashCommandState::EraseUnlock2 => if offset == 0x2AAA && value == 0x55 {
            FlashCommandState::EraseCommand
        } else {
            FlashCommandState::Ready
        },
        _ => FlashCommandState::Ready,
    }
}

/// `cells` with `[start, end)` erased to 0xFF.
pub open spec fn erased(cells: Seq<u8>, start: int, end: int) -> Seq<u8> {
    Seq::new(cells.len(), |i: int| if start <= i < end { 0xFFu8 } else { cells[i] })
}

pub open spec fn all_erased(cells: Seq<u8>, start: int, end: int) -> bool {
    forall|i: int| start <= i < end ==> #[trigger] cells[i] == 0xFF
}

/// The cells after a write: programming can only clear bits; a chip erase
/// (0x10 at 0x5555) or a sector erase (0x30) sets cells to 0xFF.
pub open spec fn cells_after_write(flash: Flash1M, offset: int, value: u8) -> Seq<u8> {
    let cells = flash.storage@;
    let bank_start = flash.bank as int * 0x1_0000;
    match flash.command_state {
        FlashCommandState::Program => {
            let index = bank_start + offset;
            cells.update(index, cells[index] & value)
        },
        FlashCommandState::EraseCommand => if offset == 0x5555 && value == 0x10 {
            erased(cells, 0, cells.len() as int)
        } else if value == 0x30 {
            let start = bank_start + (offset / 4096) * 4096;
            erased(cells, start, start + 4096)
        } else {
            cells
        },
        _ => cells,
    }
}

impl Flash1M {
    pub open spec fn wf(&self) -> bool {
        self.storage@.len() == 131072 && self.bank < 2
    }

    pub fn new() -> (r: Self)
        ensures
            r.wf(),
            forall|i: int| 0 <= i < 131072 ==> #[trigger] r.storage@[i] == 0xFF,
            r.bank == 0,
            !r.id_mode,
            r.command_state == FlashCommandState::Ready,
    {
        Flash1M {
            storage: vec![0xFFu8; FLASH_1M_SIZE],
            bank: 0,
            id_mode: false,
            command_state: FlashCommandState::Ready,
        }
    }

    /// In ID mode the chip answers its maker and device IDs at 0 and 1
    /// and 0xFF elsewhere; otherwise the cell of the selected bank.
    pub fn read8(&self, offset: usize) -> (r: u8)
        requires
            self.wf(),
        ensures
            r == if self.id_mode {
                if offset % 0x1_0000 == 0 {
                    0x62
                } else if offset % 0x1_0000 == 1 {
                    0x13
                } else {
                    0xFFu8
                }
            } else {
                self.storage@[self.bank * 0x1_0000 + offset % 0x1_0000]
            },
    {
        let offset = offset % FLASH_BANK_SIZE;
        if self.id_mode {
            return if offset == 0 {
                FLASH_MAKER_ID
            } else if offset == 1 {
                FLASH_DEVICE_ID
            } else {
                0xFF
            };
        }
        self.storage[self.bank * FLASH_BANK_SIZE + offset]
    }

    /// Feeds one byte write to the command sequencer; reports whether the
    /// cells changed.
    pub fn write8(&mut self, offset: usize, value: u8) -> (r: bool)
        requires
            old(self).wf(),
        ensures
            final(self).wf(),
            final(self).storage@ == cells_after_write(*old(self), (offset % 0x1_0000) as int, value),
            r == (final(self).storage@ != old(self).storage@),
            final(self).command_state == next_flash_state(
                old(self).command_state,
                (offset % 0x1_0000) as int,
                value,
            ),
            final(self).id_mode == if old(self).command_state == FlashCommandState::Unlock2
                && offset % 0x1_0000 == 0x5555 && value == 0x90 {
                true
            } else if old(self).command_state == FlashCommandState::Unlock2 && offset % 0x1_0000
                == 0x5555 && value == 0xF0 {
                false
            } else {
                old(self).id_mode
            },
            final(self).bank == if old(self).command_state == FlashCommandState::SelectBank
                && offset % 0x1_0000 == 0 {
                (value & 1) as usize
            } else {
                old(self).bank
            },
    {
        let offset = offset % FLASH_BANK_SIZE;
        let mut storage_changed = false;
        let ghost before = self.storage@;
        let next = match self.command_state {
            FlashCommandState::Ready => {
                if offset == 0x5555 && value == 0xAA {
                    FlashCommandState::Unlock1
                } else {
                    FlashCommandState::Ready
                }
            },
            FlashCommandState::Unlock1 => {
                if offset == 0x2AAA && value == 0x55 {
                    FlashCommandState::Unlock2
                } else {
                    FlashCommandState::Ready
                }
            },
            FlashCommandState::Unlock2 => {
                if offset != 0x5555 {
                    FlashCommandState::Ready
                } else if value == 0x90 {
                    self.id_mode = true;
                    FlashCommandState::Ready
                } else if value == 0xF0 {
                    self.id_mode = false;
                    FlashCommandState::Ready
                } else if value == 0xA0 {
                    FlashCommandState::Program
                } else if value == 0xB0 {
                    FlashCommandState::SelectBank
                } else if value == 0x80 {
                    FlashCommandState::EraseUnlock1
                } else {
                    FlashCommandState::Ready
                }
            },
            FlashCommandState::Program => {
                let index = self.bank * FLASH_BANK_SIZE + offset;
                let previous = self.storage[index];
                let programmed = previous & value;
                self.storage.set(index, programmed);
                storage_changed = programmed != previous;
                proof {
                    if !storage_changed {
                        assert(self.storage@ =~= before);
                    } else {
                        assert(self.storage@[index as int] != before[index as int]);
                    }
                }
                FlashCommandState::Ready
            },
            FlashCommandState::SelectBank => {
                if offset == 0 {
                    proof {
                        crate::bits::lemma_u32_fields();
                    }
                    self.bank = (value & 1) as usize;
                }
                FlashCommandState::Ready
            },
            FlashCommandState::EraseUnlock1 => {
                if offset == 0x5555 && value == 0xAA {
                    FlashCommandState::EraseUnlock2
                } else {
                    FlashCommandState::Ready
                }
            },
            FlashCommandState::EraseUnlock2 => {
                if offset == 0x2AAA && value == 0x55 {
                    FlashCommandState::EraseCommand
                } else {
                    FlashCommandState::Ready
                }
            },
            FlashCommandState::EraseCommand => {
                if offset == 0x5555 && value == 0x10 {
                    storage_changed = self.erase_range(0, FLASH_1M_SIZE);
                } else if value == 0x30 {
                    let bank_start = self.bank * FLASH_BANK_SIZE;
                    let sector_start = bank_start + (offset / FLASH_SECTOR_SIZE) * FLASH_SECTOR_SIZE;
                    storage_changed = self.erase_range(sector_start, sector_start + FLASH_SECTOR_SIZE);
                }
                FlashCommandState::Ready
            },
        };
        self.command_state = next;
        storage_changed
    }

    /// Sets `[start, end)` to 0xFF; reports whether any cell was not 0xFF.
    fn erase_range(&mut self, start: usize, end: usize) -> (r: bool)
        requires
            old(self).wf(),
            start <= end <= 131072,
        ensures
            final(self).wf(),
            final(self).storage@ == erased(old(self).storage@, start as int, end as int),
            r == !all_erased(old(self).storage@, start as int, end as int),
            r == (final(self).storage@ != old(self).storage@),
            final(self).bank == old(self).bank,
            final(self).id_mode == old(self).id_mode,
            final(self).command_state == old(self).command_state,
    {
        let mut changed = false;
        let mut i: usize = start;
        while i < end
            invariant
                start <= i <= end,
                end <= 131072,
                self.wf(),
                self.bank == old(self).bank,
                self.id_mode == old(self).id_mode,
                self.command_state == old(self).command_state,
                self.storage@ == erased(old(self).storage@, start as int, i as int),
                changed == !all_erased(old(self).storage@, start as int, i as int),
            decreases end - i,
        {
            if self.storage[i] != 0xFF {
                changed = true;
            }
            self.storage.set(i, 0xFF);
            i = i + 1;
            proof {
                assert(self.storage@ =~= erased(old(self).storage@, start as int, i as int));
            }
        }
        proof {
            if changed {
                let k = choose|k: int| start <= k < end && old(self).storage@[k] != 0xFF;
                assert(self.storage@[k] != old(self).storage@[k]);
            } else {
                assert(self.storage@ =~= old(self).storage@);
            }
        }
        changed
    }

    pub fn data(&self) -> (r: &[u8])
        ensures
            r@ == self.storage@,
    {
        self.storage.as_slice()
    }

    /// Replaces the cells and returns the sequencer to its idle state.
    pub fn load_data(&mut self, data: &[u8])
        requires
            old(self).wf(),
            data@.len() == 131072,
        ensures
            final(self).wf(),
            final(self).storage@ == data@,
            final(self).bank == 0,
            !final(self).id_mode,
            final(self).command_state == FlashCommandState::Ready,
    {
        let mut i: usize = 0;
        while i < data.len()
            invariant
                i <= data@.len(),
                data@.len() == 131072,
                self.wf(),
                forall|k: int| 0 <= k < i ==> #[trigger] self.storage@[k] == data@[k],
            decreases data.len() - i,
        {
            self.storage.set(i, data[i]);
            i = i + 1;
        }
        proof {
            assert(self.storage@ =~= data@);
        }
        self.reset_protocol();
    }

    pub fn reset_protocol(&mut self)
        ensures
            final(self).storage == old(self).storage,
            final(self).bank == 0,
            !final(self).id_mode,
            final(self).command_state == FlashCommandState::Ready,
    {
        self.bank = 0;
        self.id_mode = false;
        self.command_state = FlashCommandState::Ready;
    }
}

/// The backing store of the cartridge's save chip.
#[derive(Debug, Clone)]
pub enum CartridgeSaveStorage {
    Sram(Vec<u8>),
    Flash1M(Flash1M),
}

/// The save chip and whether its contents changed since the last save.
#[derive(Debug, Clone)]
pub struct CartridgeSave {
    pub storage: CartridgeSaveStorage,
    pub dirty: bool,
}

/// `signature` occurs in `bytes` starting at `start`.
pub open spec fn occurs_at(bytes: Seq<u8>, signature: Seq<u8>, start: int) -> bool {
    0 <= start && start + signature.len() <= bytes.len() && bytes.subrange(start, start
        + signature.len()) == signature
}

pub open spec fn contains(bytes: Seq<u8>, signature: Seq<u8>) -> bool {
    exists|start: int| #[trigger] occurs_at(bytes, signature, start)
}

/// The ROM names 1 Mbit flash ("FLASH1M_V"); every other ROM gets SRAM.
pub open spec fn flash_signature() -> Seq<u8> {
    seq![0x46u8, 0x4C, 0x41, 0x53, 0x48, 0x31, 0x4D, 0x5F, 0x56]
}

/// Whether `signature` occurs anywhere in `bytes` (an empty signature
/// occurs in every slice).
pub fn contains_signature(bytes: &[u8], signature: &[u8]) -> (r: bool)
    ensures
        r == contains(bytes@, signature@),
{
    if signature.len() > bytes.len() {
        proof {
            assert forall|start: int| !#[trigger] occurs_at(bytes@, signature@, start) by {}
        }
        return false;
    }
    let last = bytes.len() - signature.len();
    let mut start: usize = 0;
    while start <= last
        invariant
            last == bytes.len() - signature.len(),
            start <= last + 1,
            forall|s: int| 0 <= s < start ==> !#[trigger] occurs_at(bytes@, signature@, s),
        decreases last + 1 - start,
    {
        let mut k: usize = 0;
        let mut matched = true;
        while k < signature.len()
            invariant
                k <= signature.len(),
                start + signature.len() <= bytes.len(),
                matched == forall|j: int| 0 <= j < k ==> bytes@[start + j] == signature@[j],
            decreases signature.len() - k,
        {
            if bytes[start + k] != signature[k] {
                matched = false;
            }
            k = k + 1;
        }
        if matched {
            proof {
                assert(bytes@.subrange(start as int, start + signature.len()) =~= signature@);
                assert(occurs_at(bytes@, signature@, start as int));
            }
            return true;
        }
        proof {
            let j = choose|j: int| 0 <= j < signature.len() && bytes@[start + j] != signature@[j];
            assert(bytes@.subrange(start as int, start + signature.len())[j] != signature@[j]);
        }
        start = start + 1;
    }
    proof {
        assert forall|s: int| !#[trigger] occurs_at(bytes@, signature@, s) by {
            if 0 <= s && s + signature.len() <= bytes.len() {
                assert(s < start);
            }
        }
    }
    false
}

/// The image lengths a chip accepts: its size, and for SRAM also the
/// legacy image of twice its size.
pub open spec fn accepted_save_length(save_type: CartridgeSaveType, length: nat) -> bool {
    length == save_size(save_type) || (save_type == CartridgeSaveType::Sram && length == 2
        * save_size(save_type))
}

/// The save chip after a byte write; it becomes dirty exactly when its
/// persistent contents change.
pub open spec fn save_written8(before: CartridgeSave, after: CartridgeSave, offset: usize, value: u8) -> bool {
    &&& after.spec_save_type() == before.spec_save_type()
    &&& after.dirty == (before.dirty || after.cells() != before.cells())
    &&& before.storage matches CartridgeSaveStorage::Sram(cells) ==> after.cells()
        == cells@.update(offset as int % 32768, value)
    &&& before.storage matches CartridgeSaveStorage::Flash1M(flash) ==> after.cells()
        == cells_after_write(flash, (offset % 0x1_0000) as int, value)
    &&& before.storage matches CartridgeSaveStorage::Flash1M(flash) ==> (after.storage matches CartridgeSaveStorage::Flash1M(next)
        && flash_registers_written(flash, next, offset, value))
}

/// The sequencer, ID mode and bank of a flash chip after a byte write.
pub open spec fn flash_registers_written(before: Flash1M, after: Flash1M, offset: usize, value: u8) -> bool {
    &&& after.command_state == next_flash_state(before.command_state, (offset % 0x1_0000) as int, value)
    &&& after.id_mode == if before.command_state == FlashCommandState::Unlock2 && offset % 0x1_0000
        == 0x5555 && value == 0x90 {
        true
    } else if before.command_state == FlashCommandState::Unlock2 && offset % 0x1_0000 == 0x5555
        && value == 0xF0 {
        false
    } else {
        before.id_mode
    }
    &&& after.bank == if before.command_state == FlashCommandState::SelectBank && offset % 0x1_0000 == 0 {
        (value & 1) as usize
    } else {
        before.bank
    }
}

impl CartridgeSave {
    pub open spec fn wf(&self) -> bool {
        match self.storage {
            CartridgeSaveStorage::Sram(cells) => cells@.len() == 32768,
            CartridgeSaveStorage::Flash1M(flash) => flash.wf(),
        }
    }

    pub open spec fn spec_save_type(&self) -> CartridgeSaveType {
        match self.storage {
            CartridgeSaveStorage::Sram(_) => CartridgeSaveType::Sram,
            CartridgeSaveStorage::Flash1M(_) => CartridgeSaveType::Flash1M,
        }
    }

    /// The persistent contents.
    pub open spec fn cells(&self) -> Seq<u8> {
        match self.storage {
            CartridgeSaveStorage::Sram(cells) => cells@,
            CartridgeSaveStorage::Flash1M(flash) => flash.storage@,
        }
    }

    /// A ROM naming 1 Mbit flash gets an erased flash chip, any other an
    /// erased SRAM; both start clean.
    pub fn from_rom(rom: &[u8]) -> (r: Self)
        ensures
            r.wf(),
            r.spec_save_type() == if contains(rom@, flash_signature()) {
                CartridgeSaveType::Flash1M
            } else {
                CartridgeSaveType::Sram
            },
            forall|i: int| 0 <= i < r.cells().len() ==> #[trigger] r.cells()[i] == 0xFF,
            !r.dirty,
            r.storage matches CartridgeSaveStorage::Flash1M(f) ==> f.bank == 0 && !f.id_mode
                && f.command_state == FlashCommandState::Ready,
    {
        let signature: [u8; 9] = [0x46, 0x4C, 0x41, 0x53, 0x48, 0x31, 0x4D, 0x5F, 0x56];
        proof {
            assert(signature@ =~= flash_signature());
        }
        let storage = if contains_signature(rom, &signature) {
            CartridgeSaveStorage::Flash1M(Flash1M::new())
        } else {
            CartridgeSaveStorage::Sram(vec![0xFFu8; SRAM_SIZE])
        };
        CartridgeSave { storage, dirty: false }
    }

    pub fn save_type(&self) -> (r: CartridgeSaveType)
        ensures
            r == self.spec_save_type(),
    {
        match &self.storage {
            CartridgeSaveStorage::Sram(_) => CartridgeSaveType::Sram,
            CartridgeSaveStorage::Flash1M(_) => CartridgeSaveType::Flash1M,
        }
    }

    pub fn data(&self) -> (r: &[u8])
        ensures
            r@ == self.cells(),
    {
        match &self.storage {
            CartridgeSaveStorage::Sram(cells) => cells.as_slice(),
            CartridgeSaveStorage::Flash1M(flash) => flash.data(),
        }
    }

    /// Loads a save image of the chip's size and marks it clean; for SRAM
    /// a legacy image of twice the size is accepted too and its first half
    /// kept. An image of another size is refused and nothing changes.
    pub fn load_data(&mut self, data: &[u8]) -> (r: Result<(), CartridgeSaveLoadError>)
        requires
            old(self).wf(),
        ensures
            final(self).wf(),
            final(self).spec_save_type() == old(self).spec_save_type(),
            accepted_save_length(old(self).spec_save_type(), data@.len()) ==> {
                &&& r is Ok
                &&& final(self).cells() == data@.take(save_size(old(self).spec_save_type()) as int)
                &&& !final(self).dirty
            },
            !accepted_save_length(old(self).spec_save_type(), data@.len()) ==> {
                &&& r matches Err(e)
                &&& e.expected == save_size(old(self).spec_save_type())
                &&& e.actual == data@.len()
                &&& final(self).cells() == old(self).cells()
                &&& final(self).dirty == old(self).dirty
            },
    {
        let save_type = self.save_type();
        let expected = save_type.size();
        let legacy_sram = match save_type {
            CartridgeSaveType::Sram => data.len() == 2 * SRAM_SIZE,
            CartridgeSaveType::Flash1M => false,
        };
        if data.len() != expected && !legacy_sram {
            return Err(CartridgeSaveLoadError { expected, actual: data.len() });
        }
        match &mut self.storage {
            CartridgeSaveStorage::Sram(cells) => {
                let mut i: usize = 0;
                while i < SRAM_SIZE
                    invariant
                        i <= SRAM_SIZE,
                        data@.len() >= 32768,
                        cells@.len() == 32768,
                        forall|k: int| 0 <= k < i ==> #[trigger] cells@[k] == data@[k],
                    decreases SRAM_SIZE - i,
                {
                    cells.set(i, data[i]);
                    i = i + 1;
                }
                proof {
                    assert(cells@ =~= data@.take(32768));
                }
            },
            CartridgeSaveStorage::Flash1M(flash) => {
                flash.load_data(data);
                proof {
                    assert(data@.take(131072) =~= data@);
                }
            },
        }
        self.dirty = false;
        Ok(())
    }

    pub fn is_dirty(&self) -> (r: bool)
        ensures
            r == self.dirty,
    {
        self.dirty
    }

    pub fn mark_clean(&mut self)
        ensures
            final(self).storage == old(self).storage,
            !final(self).dirty,
    {
        self.dirty = false;
    }

    /// The byte a read at `offset` returns.
    pub open spec fn spec_read8(&self, offset: usize) -> u8 {
        match self.storage {
            CartridgeSaveStorage::Sram(cells) => cells@[offset as int % 32768],
            CartridgeSaveStorage::Flash1M(flash) => if flash.id_mode {
                if offset % 0x1_0000 == 0 {
                    0x62
                } else if offset % 0x1_0000 == 1 {
                    0x13
                } else {
                    0xFFu8
                }
            } else {
                flash.storage@[flash.bank * 0x1_0000 + offset % 0x1_0000]
            },
        }
    }

    /// SRAM is mirrored every 32 KiB; flash answers through its
    /// sequencer.
    pub fn read8(&self, offset: usize) -> (r: u8)
        requires
            self.wf(),
        ensures
            r == self.spec_read8(offset),
            self.storage matches CartridgeSaveStorage::Sram(cells) ==> r == cells@[offset as int % 32768],
            self.storage matches CartridgeSaveStorage::Flash1M(flash) ==> r == if flash.id_mode {
                if offset % 0x1_0000 == 0 {
                    0x62
                } else if offset % 0x1_0000 == 1 {
                    0x13
                } else {
                    0xFFu8
                }
            } else {
                flash.storage@[flash.bank * 0x1_0000 + offset % 0x1_0000]
            },
    {
        match &self.storage {
            CartridgeSaveStorage::Sram(cells) => cells[offset % SRAM_SIZE],
            CartridgeSaveStorage::Flash1M(flash) => flash.read8(offset),
        }
    }

    /// Writes a byte; the save becomes dirty exactly when its persistent
    /// contents change.
    pub fn write8(&mut self, offset: usize, value: u8)
        requires
            old(self).wf(),
        ensures
            final(self).wf(),
            save_written8(*old(self), *final(self), offset, value),
    {
        let changed = match &mut self.storage {
            CartridgeSaveStorage::Sram(cells) => {
                let index = offset % SRAM_SIZE;
                let changed = cells[index] != value;
                let ghost before = cells@;
                cells.set(index, value);
                proof {
                    if !changed {
                        assert(cells@ =~= before);
                    } else {
                        assert(cells@[index as int] != before[index as int]);
                    }
                }
                changed
            },
            CartridgeSaveStorage::Flash1M(flash) => flash.write8(offset, value),
        };
        self.dirty = self.dirty || changed;
    }

    pub fn reset_protocol(&mut self)
        requires
            old(self).wf(),
        ensures
            final(self).wf(),
            final(self).spec_save_type() == old(self).spec_save_type(),
            final(self).cells() == old(self).cells(),
            final(self).dirty == old(self).dirty,
            final(self).storage matches CartridgeSaveStorage::Flash1M(f) ==> f.bank == 0
                && !f.id_mode && f.command_state == FlashCommandState::Ready,
    {
        match &mut self.storage {
            CartridgeSaveStorage::Flash1M(flash) => flash.reset_protocol(),
            CartridgeSaveStorage::Sram(_) => {},
        }
    }
}

/// Reading back what was written: an SRAM byte written at an offset reads
/// back at the same offset (modulo the 32 KiB mirror).
pub proof fn law_sram_write_then_read(cells: Seq<u8>, offset: int, value: u8)
    requires
        cells.len() == 32768,
        offset >= 0,
    ensures
        cells.update(offset % 32768, value)[offset % 32768] == value,
{
}

/// Flash programming can only clear bits: every cell after a write is
/// either unchanged, erased to 0xFF, or a subset of its old bits.
pub proof fn law_flash_program_clears_bits(flash: Flash1M, offset: int, value: u8)
    requires
        flash.wf(),
        0 <= offset < 0x1_0000,
        flash.command_state == FlashCommandState::Program,
    ensures
        ({
            let index = flash.bank * 0x1_0000 + offset;
            &&& cells_after_write(flash, offset, value)[index] == flash.storage@[index] & value
            &&& forall|i: int|
                0 <= i < 131072 && i != index ==> #[trigger] cells_after_write(flash, offset, value)[i]
                    == flash.storage@[i]
        }),
{
}

} // verus!
