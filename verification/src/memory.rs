//! The 64 KiB memory image that holds sample data, the source directory and
//! the echo delay line.
//!
//! Addresses wrap at the end of the image: only the low sixteen bits of an
//! address select a byte.

use vstd::prelude::*;

verus! {

/// Number of bytes in the memory image.
pub const MEMORY_SIZE: usize = 0x10000;

/// The byte index that `address` selects.
pub open spec fn wrap_address(address: int) -> int {
    address % 0x10000
}

/// The byte of `image` that `address` selects.
pub open spec fn byte_at(image: Seq<u8>, address: int) -> u8 {
    image[wrap_address(address)]
}

/// The little-endian sixteen-bit word of `image` that starts at `address`.
pub open spec fn word_at(image: Seq<u8>, address: int) -> int {
    byte_at(image, address) as int + 256 * byte_at(image, address + 1) as int
}

/// `image` with the sixteen-bit word `value` stored at `address`, low byte
/// first. A negative value is stored in two's complement.
pub open spec fn store_word(image: Seq<u8>, address: int, value: int) -> Seq<u8> {
    image.update(wrap_address(address), (value % 256) as u8).update(
        wrap_address(address + 1),
        ((value / 256) % 256) as u8,
    )
}

/// Address of the source directory entry of `source`, in the directory
/// that starts at page `source_dir`. An entry is four bytes long.
pub open spec fn directory_entry(source_dir: u8, source: u8) -> int {
    source_dir as int * 256 + source as int * 4
}

/// Address at which the sample of `source` starts.
pub open spec fn source_start_address(image: Seq<u8>, source_dir: u8, source: u8) -> int {
    word_at(image, directory_entry(source_dir, source))
}

/// Address at which the sample of `source` resumes when it loops.
pub open spec fn source_loop_address(image: Seq<u8>, source_dir: u8, source: u8) -> int {
    word_at(image, directory_entry(source_dir, source) + 2)
}

/// The memory image.
pub struct Memory {
    bytes: Vec<u8>,
}

impl View for Memory {
    type V = Seq<u8>;

    closed spec fn view(&self) -> Seq<u8> {
        self.bytes@
    }
}

impl Memory {
    /// The image has its full size.
    pub open spec fn wf(&self) -> bool {
        self@.len() == MEMORY_SIZE
    }

    /// An image of zeros.
    pub fn new() -> (memory: Memory)
        ensures
            memory.wf(),
            forall|address: int| 0 <= address < MEMORY_SIZE ==> memory@[address] == 0,
    {
        let mut bytes: Vec<u8> = Vec::new();
        let mut index: usize = 0;
        while index < MEMORY_SIZE
            invariant
                index <= MEMORY_SIZE,
                bytes@.len() == index,
                forall|address: int| 0 <= address < index ==> bytes@[address] == 0,
            decreases MEMORY_SIZE - index,
        {
            bytes.push(0);
            index += 1;
        }
        Memory { bytes }
    }

    /// Reads the byte that `address` selects.
    pub fn read_byte(&self, address: u32) -> (value: u8)
        requires
            self.wf(),
        ensures
            value == byte_at(self@, address as int),
    {
        self.bytes[(address % 0x10000) as usize]
    }

    /// Writes the byte that `address` selects; every other byte stays.
    pub fn write_byte(&mut self, address: u32, value: u8)
        requires
            old(self).wf(),
        ensures
            final(self)@ == old(self)@.update(wrap_address(address as int), value),
            final(self).wf(),
    {
        self.bytes[(address % 0x10000) as usize] = value;
    }

    /// Reads the little-endian word that starts at `address`.
    pub fn read_word(&self, address: u32) -> (value: u32)
        requires
            self.wf(),
        ensures
            value == word_at(self@, address as int),
            value < 0x10000,
    {
        let low: u32 = self.read_byte(address) as u32;
        let high: u32 = self.read_byte((address % 0x10000) + 1) as u32;
        low + 256 * high
    }

    /// Stores the low sixteen bits of `value` at `address`, low byte first.
    pub fn write_word(&mut self, address: u32, value: i32)
        requires
            old(self).wf(),
        ensures
            final(self)@ == store_word(old(self)@, address as int, value as int),
            final(self).wf(),
    {
        assert((value & 0xff) as int == value as int % 256 && 0 <= (value & 0xff) < 256) by (bit_vector);
        assert(((value >> 8u32) & 0xff) as int == (value as int / 256) % 256 && 0 <= ((value
            >> 8u32) & 0xff) < 256) by (bit_vector);
        let low: u8 = (value & 0xff) as u8;
        let high: u8 = ((value >> 8u32) & 0xff) as u8;
        self.write_byte(address, low);
        self.write_byte((address % 0x10000) + 1, high);
    }

    /// Copies `data` into the image from `address` on, wrapping at the end of
    /// the image.
    pub fn load(&mut self, address: u32, data: &[u8])
        requires
            old(self).wf(),
            data@.len() <= MEMORY_SIZE,
        ensures
            final(self).wf(),
            forall|offset: int|
                0 <= offset < data@.len() ==> byte_at(final(self)@, address + offset)
                    == data@[offset],
            forall|target: int|
                0 <= target < MEMORY_SIZE && (target - address) % 0x10000 >= data@.len()
                    ==> final(self)@[target] == old(self)@[target],
    {
        let start: usize = (address % 0x10000) as usize;
        let mut offset: usize = 0;
        while offset < data.len()
            invariant
                offset <= data@.len() <= MEMORY_SIZE,
                start == address as int % 0x10000,
                self.wf(),
                forall|done: int|
                    0 <= done < offset ==> byte_at(self@, address + done) == data@[done],
                forall|target: int|
                    0 <= target < MEMORY_SIZE && (target - address) % 0x10000 >= offset
                        ==> self@[target] == old(self)@[target],
            decreases data@.len() - offset,
        {
            let target: usize = (start + offset) % MEMORY_SIZE;
            self.bytes[target] = data[offset];
            offset += 1;
        }
    }
}

/// Reads from the source directory the address at which the sample of
/// `source` starts.
pub fn read_source_dir_start_address(memory: &Memory, source_dir: u8, source: u8) -> (address: u32)
    requires
        memory.wf(),
    ensures
        address == source_start_address(memory@, source_dir, source),
        address < 0x10000,
{
    memory.read_word(source_dir as u32 * 256 + source as u32 * 4)
}

/// Reads from the source directory the address at which the sample of
/// `source` resumes when it loops.
pub fn read_source_dir_loop_address(memory: &Memory, source_dir: u8, source: u8) -> (address: u32)
    requires
        memory.wf(),
    ensures
        address == source_loop_address(memory@, source_dir, source),
        address < 0x10000,
{
    memory.read_word(source_dir as u32 * 256 + source as u32 * 4 + 2)
}

} // verus!
