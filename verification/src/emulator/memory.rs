//! The 4 KiB address space, with the built-in hexadecimal font and program
//! loading.
//!
//! Contracts are stated over the memory's view, the sequence of its 4096
//! bytes, and over pure functions on such sequences (`read_at`, `write_at`,
//! ...), which the engine's own model reuses.

use crate::error::{EmulatorError, Result};
use vstd::prelude::*;
use vstd::slice::slice_subrange;

verus! {

/// Number of addressable bytes.
pub const MEMORY_SIZE: usize = 4096;

/// Address at which most programs start.
pub const PROGRAM_START: u16 = 0x200;

/// Address at which ETI 660 programs start.
pub const ETI_PROGRAM_START: u16 = 0x600;

/// Address of the first font byte.
pub const FONT_START: u16 = 0x50;

/// Number of font bytes: sixteen glyphs of five rows each.
pub const FONT_SIZE: usize = 80;

/// Largest program that fits behind `PROGRAM_START`.
pub const MAX_ROM_SIZE: usize = 3584;

/// The hexadecimal glyphs 0 to F, five rows each, four pixels wide.
pub const FONT_SET: [u8; 80] = [
    0xF0, 0x90, 0x90, 0x90, 0xF0,
    0x20, 0x60, 0x20, 0x20, 0x70,
    0xF0, 0x10, 0xF0, 0x80, 0xF0,
    0xF0, 0x10, 0xF0, 0x10, 0xF0,
    0x90, 0x90, 0xF0, 0x10, 0x10,
    0xF0, 0x80, 0xF0, 0x10, 0xF0,
    0xF0, 0x80, 0xF0, 0x90, 0xF0,
    0xF0, 0x10, 0x20, 0x40, 0x40,
    0xF0, 0x90, 0xF0, 0x90, 0xF0,
    0xF0, 0x90, 0xF0, 0x10, 0xF0,
    0xF0, 0x90, 0xF0, 0x90, 0x90,
    0xE0, 0x90, 0xE0, 0x90, 0xE0,
    0xF0, 0x80, 0x80, 0x80, 0xF0,
    0xE0, 0x90, 0x90, 0x90, 0xE0,
    0xF0, 0x80, 0xF0, 0x80, 0xF0,
    0xF0, 0x80, 0xF0, 0x80, 0x80,
];

/// What a memory holds when it is created or cleared: the font at
/// `FONT_START`, zero everywhere else.
pub open spec fn initial_contents() -> Seq<u8> {
    Seq::new(
        4096,
        |a: int|
            if 0x50 <= a < 0xA0 {
                FONT_SET@[a - 0x50]
            } else {
                0u8
            },
    )
}

/// The cell that an address denotes: the address modulo the memory size
/// with wraparound on, the address itself if it is in range with
/// wraparound off, and none otherwise.
pub open spec fn resolve(wraparound: bool, address: u16) -> Option<int> {
    if wraparound {
        Some(address as int % 4096)
    } else if address < 4096 {
        Some(address as int)
    } else {
        None
    }
}

/// The address after `address`, wrapping at the end of the 16-bit range.
pub open spec fn next_address(address: u16) -> u16 {
    if address == 0xFFFF {
        0
    } else {
        (address + 1) as u16
    }
}

/// The byte that a read of `address` yields.
pub open spec fn read_at(mem: Seq<u8>, wraparound: bool, address: u16) -> Result<u8> {
    match resolve(wraparound, address) {
        Some(a) => Ok(mem[a]),
        None => Err(EmulatorError::InvalidMemoryAccess { address }),
    }
}

/// The memory after a write of `value` to `address`.
pub open spec fn write_at(mem: Seq<u8>, wraparound: bool, address: u16, value: u8) -> Result<
    Seq<u8>,
> {
    match resolve(wraparound, address) {
        Some(a) => Ok(mem.update(a, value)),
        None => Err(EmulatorError::InvalidMemoryAccess { address }),
    }
}

/// The big-endian word at `address`: high byte first, low byte at the next
/// address.
pub open spec fn read_word_at(mem: Seq<u8>, wraparound: bool, address: u16) -> Result<u16> {
    match read_at(mem, wraparound, address) {
        Ok(high) => match read_at(mem, wraparound, next_address(address)) {
            Ok(low) => Ok((high as int * 256 + low as int) as u16),
            Err(e) => Err(e),
        },
        Err(e) => Err(e),
    }
}

/// The memory after a big-endian write of `value` to `address`, and
/// whether the write succeeded. The high byte is written first and stays
/// written when the low byte's address is refused.
pub open spec fn write_word_at(mem: Seq<u8>, wraparound: bool, address: u16, value: u16) -> (
    Seq<u8>,
    Result<()>,
) {
    match write_at(mem, wraparound, address, (value / 256) as u8) {
        Ok(m1) => match write_at(m1, wraparound, next_address(address), (value % 256) as u8) {
            Ok(m2) => (m2, Ok(())),
            Err(e) => (m1, Err(e)),
        },
        Err(e) => (mem, Err(e)),
    }
}

/// The memory after `data` is loaded at `start`: untouched below `start`,
/// `data` from `start` on, zero from the end of `data` to the end of
/// memory.
pub open spec fn loaded(mem: Seq<u8>, data: Seq<u8>, start: int) -> Seq<u8> {
    Seq::new(
        4096,
        |a: int|
            if a < start {
                mem[a]
            } else if a < start + data.len() {
                data[a - start]
            } else {
                0u8
            },
    )
}

/// The memory after `length` bytes are copied from `source` to `dest`; the
/// bytes copied are those that stood at `source` before the copy, also
/// where the two ranges overlap.
pub open spec fn copied(mem: Seq<u8>, source: int, dest: int, length: int) -> Seq<u8> {
    Seq::new(
        4096,
        |a: int|
            if dest <= a < dest + length {
                mem[source + (a - dest)]
            } else {
                mem[a]
            },
    )
}

/// Law: what was written is what is read. After a write that an address
/// allows, a read of the same address yields the value written, and every
/// other cell holds what it held.
pub proof fn lemma_write_then_read(mem: Seq<u8>, wraparound: bool, address: u16, value: u8)
    requires
        mem.len() == 4096,
        address < 4096 || wraparound,
    ensures
        write_at(mem, wraparound, address, value) is Ok,
        read_at(write_at(mem, wraparound, address, value)->Ok_0, wraparound, address) == Ok::<
            u8,
            EmulatorError,
        >(value),
        forall|other: u16|
            resolve(wraparound, other) is Some && resolve(wraparound, other) != resolve(
                wraparound,
                address,
            ) ==> #[trigger] read_at(
                write_at(mem, wraparound, address, value)->Ok_0,
                wraparound,
                other,
            ) == read_at(mem, wraparound, other),
{
}

/// Law: words are stored big-endian and read back as they were written.
/// After a word write that succeeded, the address holds the word's high
/// byte, the next address its low byte, and a word read of the address
/// yields the word.
pub proof fn lemma_write_word_then_read(mem: Seq<u8>, wraparound: bool, address: u16, value: u16)
    requires
        mem.len() == 4096,
        write_word_at(mem, wraparound, address, value).1 is Ok,
    ensures
        read_at(write_word_at(mem, wraparound, address, value).0, wraparound, address) == Ok::<
            u8,
            EmulatorError,
        >((value / 256) as u8),
        read_at(
            write_word_at(mem, wraparound, address, value).0,
            wraparound,
            next_address(address),
        ) == Ok::<u8, EmulatorError>((value % 256) as u8),
        read_word_at(write_word_at(mem, wraparound, address, value).0, wraparound, address)
            == Ok::<u16, EmulatorError>(value),
{
}

/// Law: a program that fills the space behind its start address exactly
/// reaches the last address, and a loaded program can be read back byte by
/// byte, with zeros behind it.
pub proof fn lemma_loaded_program(mem: Seq<u8>, data: Seq<u8>, start: int)
    requires
        mem.len() == 4096,
        0 <= start,
        data.len() > 0,
        start + data.len() <= 4096,
    ensures
        forall|k: int| 0 <= k < data.len() ==> #[trigger] loaded(mem, data, start)[start + k]
            == data[k],
        forall|a: int|
            start + data.len() <= a < 4096 ==> #[trigger] loaded(mem, data, start)[a] == 0,
        forall|a: int| 0 <= a < start ==> #[trigger] loaded(mem, data, start)[a] == mem[a],
        start + data.len() == 4096 ==> loaded(mem, data, start)[4095] == data.last(),
{
}

/// The machine's memory.
///
/// Layout: `0x000..0x200` belongs to the interpreter, with the font at
/// `0x050..0x0A0`; programs occupy `0x200..0x1000`.
pub struct Memory {
    data: [u8; MEMORY_SIZE],
    wraparound_enabled: bool,
}

impl View for Memory {
    type V = Seq<u8>;

    closed spec fn view(&self) -> Seq<u8> {
        self.data@
    }
}

impl Memory {
    /// Whether out-of-range addresses wrap instead of failing.
    pub closed spec fn wraparound(&self) -> bool {
        self.wraparound_enabled
    }

    /// A memory always holds exactly `MEMORY_SIZE` bytes.
    pub proof fn lemma_len(&self)
        ensures
            self@.len() == 4096,
    {
    }

    /// Creates a memory with the font loaded and wraparound off.
    pub fn new() -> (memory: Self)
        ensures
            memory@ == initial_contents(),
            !memory.wraparound(),
    {
        let mut memory = Self { data: [0;MEMORY_SIZE], wraparound_enabled: false };
        memory.load_font_data();
        assert(memory@ =~= initial_contents());
        memory
    }

    /// Creates a memory with the font loaded and the given wraparound mode.
    pub fn new_with_wraparound(wraparound: bool) -> (memory: Self)
        ensures
            memory@ == initial_contents(),
            memory.wraparound() == wraparound,
    {
        let mut memory = Self { data: [0;MEMORY_SIZE], wraparound_enabled: wraparound };
        memory.load_font_data();
        assert(memory@ =~= initial_contents());
        memory
    }

    /// Switches wraparound on or off.
    pub fn set_wraparound(&mut self, enabled: bool)
        ensures
            final(self).wraparound() == enabled,
            final(self)@ == old(self)@,
    {
        self.wraparound_enabled = enabled;
    }

    /// The current wraparound mode.
    pub fn get_wraparound(&self) -> (enabled: bool)
        ensures
            enabled == self.wraparound(),
    {
        self.wraparound_enabled
    }

    /// Writes the font to its place and leaves every other byte alone.
    pub fn load_font_data(&mut self)
        ensures
            final(self).wraparound() == old(self).wraparound(),
            final(self)@.len() == 4096,
            forall|a: int|
                0 <= a < 4096 ==> #[trigger] final(self)@[a] == if 0x50 <= a < 0xA0 {
                    FONT_SET@[a - 0x50]
                } else {
                    old(self)@[a]
                },
    {
        let mut i: usize = 0;
        while i < FONT_SIZE
            invariant
                i <= 80,
                self.wraparound_enabled == old(self).wraparound_enabled,
                forall|a: int|
                    0 <= a < 4096 ==> #[trigger] self.data@[a] == if 0x50 <= a < 0x50 + i {
                        FONT_SET@[a - 0x50]
                    } else {
                        old(self).data@[a]
                    },
            decreases 80 - i,
        {
            self.data[0x50 + i] = FONT_SET[i];
            i += 1;
        }
    }

    /// Reads the byte at `address`.
    pub fn read_byte(&self, address: u16) -> (result: Result<u8>)
        ensures
            result == read_at(self@, self.wraparound(), address),
    {
        let addr = if self.wraparound_enabled {
            (address as usize) % MEMORY_SIZE
        } else {
            let addr = address as usize;
            if addr >= MEMORY_SIZE {
                return Err(EmulatorError::InvalidMemoryAccess { address });
            }
            addr
        };
        Ok(self.data[addr])
    }

    /// Writes `value` to `address`. A refused write changes nothing.
    pub fn write_byte(&mut self, address: u16, value: u8) -> (result: Result<()>)
        ensures
            final(self).wraparound() == old(self).wraparound(),
            match write_at(old(self)@, old(self).wraparound(), address, value) {
                Ok(mem) => result == Ok::<(), EmulatorError>(()) && final(self)@ == mem,
                Err(e) => result == Err::<(), EmulatorError>(e) && final(self)@ == old(self)@,
            },
    {
        let addr = if self.wraparound_enabled {
            (address as usize) % MEMORY_SIZE
        } else {
            let addr = address as usize;
            if addr >= MEMORY_SIZE {
                return Err(EmulatorError::InvalidMemoryAccess { address });
            }
            addr
        };
        self.data[addr] = value;
        Ok(())
    }

    /// Reads the big-endian word at `address`.
    pub fn read_word(&self, address: u16) -> (result: Result<u16>)
        ensures
            result == read_word_at(self@, self.wraparound(), address),
    {
        let high_byte = self.read_byte(address)?;
        let low_byte = self.read_byte(address.wrapping_add(1))?;
        let word = (high_byte as u16) << 8 | low_byte as u16;
        assert(word == (high_byte as int * 256 + low_byte as int) as u16) by (bit_vector)
            requires
                word == (high_byte as u16) << 8 | low_byte as u16,
        ;
        Ok(word)
    }

    /// Writes `value` to `address`, high byte first.
    pub fn write_word(&mut self, address: u16, value: u16) -> (result: Result<()>)
        ensures
            final(self).wraparound() == old(self).wraparound(),
            (final(self)@, result) == write_word_at(
                old(self)@,
                old(self).wraparound(),
                address,
                value,
            ),
    {
        let high_byte = (value >> 8) as u8;
        let low_byte = (value & 0xFF) as u8;
        assert(high_byte == (value / 256) as u8 && low_byte == (value % 256) as u8)
            by (bit_vector)
            requires
                high_byte == (value >> 8) as u8,
                low_byte == (value & 0xFF) as u8,
        ;
        self.write_byte(address, high_byte)?;
        self.write_byte(address.wrapping_add(1), low_byte)?;
        Ok(())
    }

    /// Loads a program at `PROGRAM_START`.
    pub fn load_rom(&mut self, rom_data: &[u8]) -> (result: Result<()>)
        ensures
            final(self).wraparound() == old(self).wraparound(),
            rom_data@.len() == 0 ==> result == Err::<(), EmulatorError>(EmulatorError::RomEmpty)
                && final(self)@ == old(self)@,
            rom_data@.len() > 3584 ==> result == Err::<(), EmulatorError>(
                (EmulatorError::RomTooLarge { size: rom_data.len(), max_size: 3584 }),
            ) && final(self)@ == old(self)@,
            0 < rom_data@.len() <= 3584 ==> result == Ok::<(), EmulatorError>(()) && final(self)@
                == loaded(old(self)@, rom_data@, 0x200),
    {
        self.load_rom_at(rom_data, PROGRAM_START)
    }

    /// Loads a program at `start_address`.
    ///
    /// Fails on an empty program and on one longer than the space from
    /// `start_address` to the end of memory; a start address past the end
    /// leaves no space at all. On success everything from `start_address`
    /// on is zeroed before the program is copied in.
    pub fn load_rom_at(&mut self, rom_data: &[u8], start_address: u16) -> (result: Result<()>)
        ensures
            final(self).wraparound() == old(self).wraparound(),
            rom_data@.len() == 0 ==> result == Err::<(), EmulatorError>(EmulatorError::RomEmpty)
                && final(self)@ == old(self)@,
            rom_data@.len() > 0 && start_address as int + rom_data@.len() > 4096 ==> result
                == Err::<(), EmulatorError>(
                (EmulatorError::RomTooLarge {
                    size: rom_data.len(),
                    max_size: if start_address <= 4096 {
                        (4096 - start_address) as usize
                    } else {
                        0
                    },
                }),
            ) && final(self)@ == old(self)@,
            rom_data@.len() > 0 && start_address as int + rom_data@.len() <= 4096 ==> result
                == Ok::<(), EmulatorError>(()) && final(self)@ == loaded(
                old(self)@,
                rom_data@,
                start_address as int,
            ),
    {
        if rom_data.len() == 0 {
            return Err(EmulatorError::RomEmpty);
        }
        let start = start_address as usize;
        let available_space = if start <= MEMORY_SIZE {
            MEMORY_SIZE - start
        } else {
            0
        };
        if rom_data.len() > available_space {
            return Err(
                EmulatorError::RomTooLarge { size: rom_data.len(), max_size: available_space },
            );
        }
        let mut addr = start;
        while addr < MEMORY_SIZE
            invariant
                start <= addr <= 4096,
                self.wraparound_enabled == old(self).wraparound_enabled,
                forall|a: int|
                    0 <= a < 4096 ==> #[trigger] self.data@[a] == if start <= a < addr {
                        0u8
                    } else {
                        old(self).data@[a]
                    },
            decreases 4096 - addr,
        {
            self.data[addr] = 0;
            addr += 1;
        }
        let mut i: usize = 0;
        while i < rom_data.len()
            invariant
                i <= rom_data@.len(),
                start + rom_data@.len() <= 4096,
                self.wraparound_enabled == old(self).wraparound_enabled,
                forall|a: int|
                    0 <= a < 4096 ==> #[trigger] self.data@[a] == if a < start {
                        old(self).data@[a]
                    } else if a < start + i {
                        rom_data@[a - start]
                    } else {
                        0u8
                    },
            decreases rom_data@.len() - i,
        {
            self.data[start + i] = rom_data[i];
            i += 1;
        }
        assert(self@ =~= loaded(old(self)@, rom_data@, start_address as int));
        Ok(())
    }

    /// Zeroes the memory and reloads the font.
    pub fn clear(&mut self)
        ensures
            final(self)@ == initial_contents(),
            final(self).wraparound() == old(self).wraparound(),
    {
        let mut addr: usize = 0;
        while addr < MEMORY_SIZE
            invariant
                addr <= 4096,
                self.wraparound_enabled == old(self).wraparound_enabled,
                forall|a: int| 0 <= a < addr ==> #[trigger] self.data@[a] == 0u8,
            decreases 4096 - addr,
        {
            self.data[addr] = 0;
            addr += 1;
        }
        self.load_font_data();
        assert(self@ =~= initial_contents());
    }

    /// The address of the glyph for `character`, which must be a hex digit.
    pub fn get_font_address(&self, character: u8) -> (result: Result<u16>)
        ensures
            character <= 0xF ==> result == Ok::<u16, EmulatorError>(
                (0x50 + character * 5) as u16,
            ),
            character > 0xF ==> result == Err::<u16, EmulatorError>(
                (EmulatorError::InvalidMemoryAccess { address: character as u16 }),
            ),
    {
        if character > 0xF {
            return Err(EmulatorError::InvalidMemoryAccess { address: character as u16 });
        }
        Ok(FONT_START + (character as u16 * 5))
    }

    /// The `length` bytes from `start` on, which must lie inside memory
    /// whatever the wraparound mode.
    pub fn get_slice(&self, start: u16, length: usize) -> (result: Result<&[u8]>)
        ensures
            start + length <= 4096 ==> result is Ok && result->Ok_0@ == self@.subrange(
                start as int,
                start + length,
            ),
            start + length > 4096 ==> result == Err::<&[u8], EmulatorError>(
                (EmulatorError::InvalidMemoryAccess { address: start }),
            ),
    {
        let start_addr = start as usize;
        if length > MEMORY_SIZE || start_addr + length > MEMORY_SIZE {
            return Err(EmulatorError::InvalidMemoryAccess { address: start });
        }
        let end_addr = start_addr + length;
        Ok(slice_subrange(self.data.as_slice(), start_addr, end_addr))
    }

    /// Copies `length` bytes from `source` to `dest`; the ranges may
    /// overlap. Both ranges must lie inside memory, whatever the
    /// wraparound mode; the source range is checked first.
    pub fn copy(&mut self, source: u16, dest: u16, length: usize) -> (result: Result<()>)
        ensures
            final(self).wraparound() == old(self).wraparound(),
            source + length > 4096 ==> result == Err::<(), EmulatorError>(
                (EmulatorError::InvalidMemoryAccess { address: source }),
            ) && final(self)@ == old(self)@,
            source + length <= 4096 && dest + length > 4096 ==> result == Err::<
                (),
                EmulatorError,
            >((EmulatorError::InvalidMemoryAccess { address: dest })) && final(self)@ == old(
                self,
            )@,
            source + length <= 4096 && dest + length <= 4096 ==> result == Ok::<
                (),
                EmulatorError,
            >(()) && final(self)@ == copied(
                old(self)@,
                source as int,
                dest as int,
                length as int,
            ),
    {
        let src_start = source as usize;
        let dst_start = dest as usize;
        if length > MEMORY_SIZE || src_start + length > MEMORY_SIZE {
            return Err(EmulatorError::InvalidMemoryAccess { address: source });
        }
        if dst_start + length > MEMORY_SIZE {
            return Err(EmulatorError::InvalidMemoryAccess { address: dest });
        }
        let mut temp: Vec<u8> = Vec::new();
        let mut i: usize = 0;
        while i < length
            invariant
                i <= length,
                src_start + length <= 4096,
                temp@.len() == i,
                self.data@ == old(self).data@,
                forall|k: int| 0 <= k < i ==> #[trigger] temp@[k] == old(self).data@[src_start + k],
            decreases length - i,
        {
            temp.push(self.data[src_start + i]);
            i += 1;
        }
        let mut j: usize = 0;
        while j < length
            invariant
                j <= length,
                dst_start + length <= 4096,
                src_start + length <= 4096,
                temp@.len() == length,
                self.wraparound_enabled == old(self).wraparound_enabled,
                forall|k: int|
                    0 <= k < length ==> #[trigger] temp@[k] == old(self).data@[src_start + k],
                forall|a: int|
                    0 <= a < 4096 ==> #[trigger] self.data@[a] == if dst_start <= a < dst_start
                        + j {
                        old(self).data@[src_start + (a - dst_start)]
                    } else {
                        old(self).data@[a]
                    },
            decreases length - j,
        {
            self.data[dst_start + j] = temp[j];
            j += 1;
        }
        assert(self@ =~= copied(old(self)@, source as int, dest as int, length as int));
        Ok(())
    }
}

impl Default for Memory {
    fn default() -> (memory: Self)
        ensures
            memory@ == initial_contents(),
            !memory.wraparound(),
    {
        Self::new()
    }
}

} // verus!
