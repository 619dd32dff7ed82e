//! Snapshots of a running audio unit: its whole memory image and the
//! mixer's register block, as a sound file holds them.
//!
//! A sound file starts with a fixed signature. The memory image lies at
//! offset `0x100` and the register block directly behind it; the processor
//! registers and the descriptive tag in between are of no use to the audio
//! unit and are passed over.

use crate::dsp::NUM_REGISTERS;
use crate::memory::MEMORY_SIZE;
use vstd::prelude::*;

verus! {

/// Number of bytes of the signature that every sound file starts with.
pub const SIGNATURE_LEN: usize = 33;

/// The signature that every sound file starts with: the text
/// `SNES-SPC700 Sound File Data v0.30`.
pub const SIGNATURE: [u8; 33] = [
    0x53, 0x4e, 0x45, 0x53, 0x2d, 0x53, 0x50, 0x43, 0x37, 0x30, 0x30, 0x20, 0x53, 0x6f, 0x75, 0x6e,
    0x64, 0x20, 0x46, 0x69, 0x6c, 0x65, 0x20, 0x44, 0x61, 0x74, 0x61, 0x20, 0x76, 0x30, 0x2e, 0x33,
    0x30,
];

/// Offset of the memory image in a sound file.
pub const RAM_OFFSET: usize = 0x100;

/// Offset of the register block in a sound file.
pub const REGISTERS_OFFSET: usize = 0x10100;

/// Length of the shortest sound file: everything up to the end of the
/// register block.
pub const MIN_FILE_LEN: usize = 0x10180;

/// Why a sound file was refused.
#[derive(Clone, Copy, PartialEq, Eq, Structural, Debug)]
pub enum FormatError {
    /// The file ends before the end of the register block.
    Truncated,
    /// The file does not start with the signature.
    Signature,
}

/// A snapshot as plain values.
pub struct SnapshotModel {
    /// The memory image.
    pub ram: Seq<u8>,
    /// The mixer's register block.
    pub registers: Seq<u8>,
}

/// Whether `file` starts with the signature.
pub open spec fn has_signature(file: Seq<u8>) -> bool {
    file.len() >= SIGNATURE_LEN && file.subrange(0, SIGNATURE_LEN as int) == SIGNATURE@
}

/// What parsing `file` gives: a truncated file is refused first, then one
/// without the signature; any other file gives the memory image and the
/// register block that it holds.
pub open spec fn parsed(file: Seq<u8>) -> Result<SnapshotModel, FormatError> {
    if file.len() < MIN_FILE_LEN {
        Err(FormatError::Truncated)
    } else if !has_signature(file) {
        Err(FormatError::Signature)
    } else {
        Ok(
            SnapshotModel {
                ram: file.subrange(RAM_OFFSET as int, REGISTERS_OFFSET as int),
                registers: file.subrange(REGISTERS_OFFSET as int, MIN_FILE_LEN as int),
            },
        )
    }
}

/// A memory image together with a register block.
pub struct Snapshot {
    ram: Vec<u8>,
    registers: Vec<u8>,
}

impl View for Snapshot {
    type V = SnapshotModel;

    closed spec fn view(&self) -> SnapshotModel {
        SnapshotModel { ram: self.ram@, registers: self.registers@ }
    }
}

fn copy_range(bytes: &[u8], start: usize, end: usize) -> (copy: Vec<u8>)
    requires
        start <= end <= bytes@.len(),
    ensures
        copy@ == bytes@.subrange(start as int, end as int),
{
    let mut copy: Vec<u8> = Vec::new();
    let mut index: usize = start;
    while index < end
        invariant
            start <= index <= end <= bytes@.len(),
            copy@ == bytes@.subrange(start as int, index as int),
        decreases end - index,
    {
        copy.push(bytes[index]);
        index += 1;
        assert(copy@ =~= bytes@.subrange(start as int, index as int));
    }
    copy
}

fn starts_with_signature(file: &[u8]) -> (found: bool)
    ensures
        found == has_signature(file@),
{
    if file.len() < SIGNATURE_LEN {
        return false;
    }
    let mut index: usize = 0;
    while index < SIGNATURE_LEN
        invariant
            index <= SIGNATURE_LEN <= file@.len(),
            forall|k: int| 0 <= k < index ==> file@[k] == SIGNATURE@[k],
        decreases SIGNATURE_LEN - index,
    {
        if file[index] != SIGNATURE[index] {
            assert(file@.subrange(0, SIGNATURE_LEN as int)[index as int] != SIGNATURE@[index as int]);
            return false;
        }
        index += 1;
    }
    assert(file@.subrange(0, SIGNATURE_LEN as int) =~= SIGNATURE@);
    true
}

impl Snapshot {
    /// The memory image and the register block have their full sizes.
    pub open spec fn wf(&self) -> bool {
        self@.ram.len() == MEMORY_SIZE && self@.registers.len() == NUM_REGISTERS
    }

    /// A snapshot of the given memory image and register block, if both
    /// have their full sizes.
    pub fn new(ram: Vec<u8>, registers: Vec<u8>) -> (snapshot: Option<Snapshot>)
        ensures
            snapshot.is_some() <==> ram@.len() == MEMORY_SIZE && registers@.len() == NUM_REGISTERS,
            snapshot matches Some(made) ==> made.wf() && made@ == (SnapshotModel {
                ram: ram@,
                registers: registers@,
            }),
    {
        if ram.len() == MEMORY_SIZE && registers.len() == NUM_REGISTERS {
            Some(Snapshot { ram, registers })
        } else {
            None
        }
    }

    /// Takes the snapshot out of the bytes of a sound file.
    pub fn parse(file: &[u8]) -> (result: Result<Snapshot, FormatError>)
        ensures
            match (result, parsed(file@)) {
                (Ok(snapshot), Ok(model)) => snapshot@ == model && snapshot.wf(),
                (Err(error), Err(expected)) => error == expected,
                _ => false,
            },
    {
        if file.len() < MIN_FILE_LEN {
            return Err(FormatError::Truncated);
        }
        if !starts_with_signature(file) {
            return Err(FormatError::Signature);
        }
        Ok(
            Snapshot {
                ram: copy_range(file, RAM_OFFSET, REGISTERS_OFFSET),
                registers: copy_range(file, REGISTERS_OFFSET, MIN_FILE_LEN),
            },
        )
    }

    /// The memory image.
    pub fn ram(&self) -> (ram: &[u8])
        ensures
            ram@ == self@.ram,
    {
        self.ram.as_slice()
    }

    /// The mixer's register block.
    pub fn registers(&self) -> (registers: &[u8])
        ensures
            registers@ == self@.registers,
    {
        self.registers.as_slice()
    }
}

} // verus!
