//! The audio unit as a whole: the mixer together with the memory image that
//! its voices and its echo unit work on.
//!
//! A snapshot, the memory image and the mixer's register block of a unit
//! caught while playing, sets the unit up; frames are then pulled from it in
//! batches of any size.

use crate::dsp::{Dsp, DspModel, KEY_OFF, KEY_ON, NUM_REGISTERS};
use crate::memory::{byte_at, wrap_address, Memory, MEMORY_SIZE};
use crate::ring_buffer::Frame;
use crate::snapshot::{Snapshot, SnapshotModel};
use vstd::prelude::*;

verus! {

/// An audio unit as plain values.
pub struct ApuModel {
    /// The mixer.
    pub dsp: DspModel,
    /// The memory image.
    pub memory: Seq<u8>,
}

/// The mixer after the first `count` registers of a snapshot have been
/// written to it in the order of their addresses. The key-on and key-off
/// masks are passed over: the voices are keyed once every register is in
/// place.
pub open spec fn registers_loaded(
    dsp: DspModel,
    image: Seq<u8>,
    registers: Seq<u8>,
    count: nat,
) -> DspModel
    decreases count,
{
    if count == 0 {
        dsp
    } else {
        let address = count - 1;
        let earlier = registers_loaded(dsp, image, registers, address as nat);
        if address == KEY_ON || address == KEY_OFF {
            earlier
        } else {
            earlier.with_register(image, address as u8, registers[address])
        }
    }
}

/// The unit that a snapshot describes: its memory image, and a mixer at
/// power-on to which all registers were written and whose voices were then
/// keyed on by the snapshot's key-on mask.
pub open spec fn state_from_snapshot(snapshot: SnapshotModel) -> ApuModel {
    ApuModel {
        dsp: registers_loaded(
            Dsp::new_model(),
            snapshot.ram,
            snapshot.registers,
            NUM_REGISTERS as nat,
        ).with_register(snapshot.ram, KEY_ON, snapshot.registers[KEY_ON as int]),
        memory: snapshot.ram,
    }
}

impl ApuModel {
    /// The mixer is consistent and the memory image has its full size.
    pub open spec fn valid(self) -> bool {
        self.dsp.valid() && self.memory.len() == MEMORY_SIZE
    }

    /// The unit after rendering one frame.
    pub open spec fn after_frame(self) -> ApuModel {
        ApuModel {
            dsp: self.dsp.after_frame(self.memory),
            memory: self.dsp.image_after_frame(self.memory),
        }
    }

    /// The unit after rendering `count` frames.
    pub open spec fn after_frames(self, count: nat) -> ApuModel
        decreases count,
    {
        if count == 0 {
            self
        } else {
            self.after_frames((count - 1) as nat).after_frame()
        }
    }

    /// The frame with the given number among those rendered from now on,
    /// counting from 0.
    pub open spec fn frame_at(self, index: nat) -> Frame {
        let then = self.after_frames(index);
        then.dsp.frame(then.memory)
    }
}

/// The audio unit.
pub struct Apu {
    dsp: Dsp,
    memory: Memory,
}

impl View for Apu {
    type V = ApuModel;

    closed spec fn view(&self) -> ApuModel {
        ApuModel { dsp: self.dsp@, memory: self.memory@ }
    }
}

impl Apu {
    /// The unit's state is consistent.
    pub open spec fn wf(&self) -> bool {
        self@.valid()
    }

    /// A unit at power-on with a memory image of zeros.
    pub fn new() -> (apu: Apu)
        ensures
            apu.wf(),
            apu@.dsp == Dsp::new_model(),
            forall|address: int| 0 <= address < MEMORY_SIZE ==> apu@.memory[address] == 0,
    {
        Apu { dsp: Dsp::new(), memory: Memory::new() }
    }

    /// Reads a byte of the memory image.
    pub fn read_byte(&self, address: u32) -> (value: u8)
        requires
            self.wf(),
        ensures
            value == byte_at(self@.memory, address as int),
    {
        self.memory.read_byte(address)
    }

    /// Writes a byte of the memory image; the mixer stays as it is.
    pub fn write_byte(&mut self, address: u32, value: u8)
        requires
            old(self).wf(),
        ensures
            final(self)@ == (ApuModel {
                memory: old(self)@.memory.update(wrap_address(address as int), value),
                ..old(self)@
            }),
            final(self).wf(),
    {
        self.memory.write_byte(address, value);
    }

    /// Reads a register of the mixer.
    pub fn get_register(&self, address: u8) -> (value: u8)
        requires
            self.wf(),
        ensures
            value == self@.dsp.register_value(address),
    {
        self.dsp.get_register(address)
    }

    /// Writes a register of the mixer; the memory image stays as it is.
    pub fn set_register(&mut self, address: u8, value: u8)
        requires
            old(self).wf(),
        ensures
            final(self)@ == (ApuModel {
                dsp: old(self)@.dsp.with_register(old(self)@.memory, address, value),
                ..old(self)@
            }),
            final(self).wf(),
    {
        self.dsp.set_register(&self.memory, address, value);
    }

    /// Sets the unit up from a snapshot, whatever state it was in.
    pub fn set_state(&mut self, snapshot: &Snapshot)
        requires
            old(self).wf(),
            snapshot.wf(),
        ensures
            final(self)@ == state_from_snapshot(snapshot@),
            final(self).wf(),
    {
        let ram = snapshot.ram();
        let registers = snapshot.registers();
        self.memory.load(0, ram);
        assert(self.memory@ =~= ram@) by {
            assert forall|address: int| 0 <= address < MEMORY_SIZE implies self.memory@[address]
                == ram@[address] by {
                assert(byte_at(self.memory@, 0 + address) == ram@[address]);
            }
        }
        self.dsp = Dsp::new();
        let mut address: usize = 0;
        while address < NUM_REGISTERS
            invariant
                address <= NUM_REGISTERS,
                registers@.len() == NUM_REGISTERS,
                self.memory@ == ram@,
                self.memory.wf(),
                self.dsp.wf(),
                self.dsp@ == registers_loaded(
                    Dsp::new_model(),
                    ram@,
                    registers@,
                    address as nat,
                ),
            decreases NUM_REGISTERS - address,
        {
            if address != KEY_ON as usize && address != KEY_OFF as usize {
                self.dsp.set_register(&self.memory, address as u8, registers[address]);
            }
            address += 1;
        }
        self.dsp.set_register(&self.memory, KEY_ON, registers[KEY_ON as usize]);
    }

    /// Renders `num_frames` frames into the start of `left` and `right`;
    /// what lies behind them in the destinations stays.
    pub fn render(&mut self, left: &mut [i16], right: &mut [i16], num_frames: i32)
        requires
            old(self).wf(),
            0 <= num_frames <= old(left)@.len(),
            num_frames <= old(right)@.len(),
        ensures
            final(self)@ == old(self)@.after_frames(num_frames as nat),
            final(self).wf(),
            final(left)@.len() == old(left)@.len(),
            final(right)@.len() == old(right)@.len(),
            forall|i: int|
                0 <= i < num_frames ==> #[trigger] final(left)@[i] == old(self)@.frame_at(
                    i as nat,
                ).0,
            forall|i: int|
                0 <= i < num_frames ==> #[trigger] final(right)@[i] == old(self)@.frame_at(
                    i as nat,
                ).1,
            forall|i: int| num_frames <= i < old(left)@.len() ==> final(left)@[i] == old(left)@[i],
            forall|i: int|
                num_frames <= i < old(right)@.len() ==> final(right)@[i] == old(right)@[i],
    {
        let mut i: i32 = 0;
        while i < num_frames
            invariant
                0 <= i <= num_frames,
                num_frames <= left@.len(),
                num_frames <= right@.len(),
                left@.len() == old(left)@.len(),
                right@.len() == old(right)@.len(),
                self.wf(),
                self@ == old(self)@.after_frames(i as nat),
                forall|k: int|
                    0 <= k < i ==> (left@[k], right@[k]) == old(self)@.frame_at(k as nat),
                forall|k: int| i <= k < left@.len() ==> left@[k] == old(left)@[k],
                forall|k: int| i <= k < right@.len() ==> right@[k] == old(right)@[k],
            decreases num_frames - i,
        {
            let frame = self.dsp.render_frame(&mut self.memory);
            left[i as usize] = frame.0;
            right[i as usize] = frame.1;
            i += 1;
        }
    }
}

} // verus!
