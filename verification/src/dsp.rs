//! The mixer: eight voices, the global registers, the shared counter and
//! noise generator, and the echo unit.
//!
//! One call renders one stereo frame. The voices are rendered in the order
//! of their numbers, because each voice's pitch may be modulated by the
//! output that the voice before it has just produced. Their outputs are
//! summed, the echo delay line's filtered output is mixed in, and what the
//! echo-enabled voices and the feedback add up to is written back into the
//! delay line.

use crate::dsp_helpers::{
    bit_is_set, clamp, clamp16, clear_low_bit, lemma_shift_right, mask_bit, mask_even,
    multiply_volume, scale_by_volume, sign_extend, sign_extend_word, signed8, wrap16, wrap_to_i16,
};
use crate::memory::{store_word, word_at, Memory};
use crate::rate_table::{
    counter_after, counter_fires, next_counter, rate_fires, COUNTER_RANGE,
};
use crate::ring_buffer::Frame;
use crate::voice::{lemma_raw_output_bounds, Voice, VoiceModel, VOICE_REGISTERS};
use vstd::prelude::*;

verus! {

/// Number of voices.
pub const NUM_VOICES: usize = 8;

/// Number of bytes in the register block.
pub const NUM_REGISTERS: usize = 128;

/// Number of taps of the echo filter.
pub const NUM_TAPS: usize = 8;

/// Register address of the left master volume.
pub const MASTER_VOLUME_LEFT: u8 = 0x0c;

/// Register address of the right master volume.
pub const MASTER_VOLUME_RIGHT: u8 = 0x1c;

/// Register address of the left echo volume.
pub const ECHO_VOLUME_LEFT: u8 = 0x2c;

/// Register address of the right echo volume.
pub const ECHO_VOLUME_RIGHT: u8 = 0x3c;

/// Register address of the key-on mask.
pub const KEY_ON: u8 = 0x4c;

/// Register address of the key-off mask.
pub const KEY_OFF: u8 = 0x5c;

/// Register address of the flags: the noise rate in bits 0 to 4, echo
/// writes off in bit 5, mute in bit 6.
pub const FLAGS: u8 = 0x6c;

/// Register address of the echo feedback volume.
pub const ECHO_FEEDBACK: u8 = 0x0d;

/// Register address of the pitch modulation mask.
pub const PITCH_MODULATION: u8 = 0x2d;

/// Register address of the noise mask.
pub const NOISE_ENABLE: u8 = 0x3d;

/// Register address of the echo mask.
pub const ECHO_ENABLE: u8 = 0x4d;

/// Register address of the source directory's page number.
pub const SOURCE_DIRECTORY: u8 = 0x5d;

/// Register address of the echo delay line's page number.
pub const ECHO_START: u8 = 0x6d;

/// Register address of the echo delay, in units of 2 KiB.
pub const ECHO_DELAY: u8 = 0x7d;

/// Register address of the first echo filter tap; the others follow at
/// steps of sixteen.
pub const FIR_TAP: u8 = 0x0f;

/// The noise generator's value at power-on.
pub const NOISE_SEED: i32 = 0x4000;

/// A mixer as plain values.
pub struct DspModel {
    /// The eight voices, by number.
    pub voices: Seq<VoiceModel>,
    /// The register block as last written.
    pub registers: Seq<u8>,
    /// The noise generator's fifteen-bit shift register.
    pub noise: int,
    /// The shared counter.
    pub counter: int,
    /// Offset of the current frame within the echo delay line, in bytes.
    pub echo_pos: int,
    /// Length of the echo delay line in bytes, as latched when the offset
    /// last stood at 0.
    pub echo_length: int,
    /// The last eight left samples read from the delay line, halved, oldest
    /// first.
    pub echo_history_left: Seq<int>,
    /// The last eight right samples read from the delay line, halved,
    /// oldest first.
    pub echo_history_right: Seq<int>,
}

/// The noise generator one step on: the register moves right by one bit,
/// and the exclusive or of the two bits that were lowest enters at bit 14.
pub open spec fn noise_after(noise: int) -> int {
    noise / 2 + 0x4000 * ((noise + noise / 2) % 2)
}

/// One term of the echo filter: a history sample times a signed tap, divided
/// by 64 rounding down.
pub open spec fn fir_term(sample: int, tap: u8) -> int {
    (sample * signed8(tap)) / 64
}

/// The voices of `voices` whose bit in `mask` is set keyed on, the others as
/// they were.
pub open spec fn voices_keyed_on(
    voices: Seq<VoiceModel>,
    image: Seq<u8>,
    source_dir: u8,
    mask: u8,
) -> Seq<VoiceModel> {
    Seq::new(
        voices.len(),
        |i: int|
            if mask_bit(mask, i) {
                voices[i].after_key_on(image, source_dir)
            } else {
                voices[i]
            },
    )
}

/// The voices of `voices` whose bit in `mask` is set keyed off, the others
/// as they were.
pub open spec fn voices_keyed_off(voices: Seq<VoiceModel>, mask: u8) -> Seq<VoiceModel> {
    Seq::new(
        voices.len(),
        |i: int|
            if mask_bit(mask, i) {
                voices[i].after_key_off()
            } else {
                voices[i]
            },
    )
}

/// The voices of `voices` with one switch of each set from its bit in
/// `mask`: pitch modulation, noise or echo, by the mask register's address.
pub open spec fn voices_switched(voices: Seq<VoiceModel>, address: u8, mask: u8) -> Seq<
    VoiceModel,
> {
    Seq::new(
        voices.len(),
        |i: int|
            if address == PITCH_MODULATION {
                VoiceModel { pitch_mod: mask_bit(mask, i), ..voices[i] }
            } else if address == NOISE_ENABLE {
                VoiceModel { noise_on: mask_bit(mask, i), ..voices[i] }
            } else {
                VoiceModel { echo_on: mask_bit(mask, i), ..voices[i] }
            },
    )
}

impl DspModel {
    /// Eight consistent voices, a full register block, and the generator,
    /// counter and echo state in range.
    pub open spec fn valid(self) -> bool {
        &&& self.voices.len() == NUM_VOICES
        &&& forall|i: int| 0 <= i < NUM_VOICES ==> (#[trigger] self.voices[i]).valid()
        &&& self.registers.len() == NUM_REGISTERS
        &&& 0 <= self.noise <= 0x7fff
        &&& 0 <= self.counter < COUNTER_RANGE
        &&& 0 <= self.echo_pos < 0x8000
        &&& 0 <= self.echo_length <= 0x7800
        &&& self.echo_history_left.len() == NUM_TAPS
        &&& self.echo_history_right.len() == NUM_TAPS
        &&& forall|i: int|
            0 <= i < NUM_TAPS ==> -16384 <= #[trigger] self.echo_history_left[i] <= 16383
        &&& forall|i: int|
            0 <= i < NUM_TAPS ==> -16384 <= #[trigger] self.echo_history_right[i] <= 16383
    }

    /// The register at `address`.
    pub open spec fn reg(self, address: u8) -> u8 {
        self.registers[address as int]
    }

    /// Rate at which the noise generator steps.
    pub open spec fn noise_rate(self) -> int {
        self.reg(FLAGS) as int % 32
    }

    /// Whether the echo unit writes into the delay line.
    pub open spec fn echo_writes(self) -> bool {
        !mask_bit(self.reg(FLAGS), 5)
    }

    /// Whether the output is muted.
    pub open spec fn muted(self) -> bool {
        mask_bit(self.reg(FLAGS), 6)
    }

    /// What a read of the register at `address` gives: register 8 of each
    /// voice gives the top seven bits of the voice's envelope level, any
    /// other address the byte last written there. Only the low seven bits
    /// of `address` count.
    pub open spec fn register_value(self, address: u8) -> u8 {
        let index = address as int % 128;
        if index % 16 == 8 {
            (self.voices[index / 16].envelope.level / 16) as u8
        } else {
            self.registers[index]
        }
    }

    /// The mixer after `value` was written to the register at `address`.
    ///
    /// The byte is stored. A write to one of a voice's first eight registers
    /// also reaches the voice; a write to one of the three masks sets the
    /// matching switch of every voice from its bit; a write to the key-on or
    /// key-off mask keys the voices whose bits are set. Only the low seven
    /// bits of `address` count.
    pub open spec fn with_register(self, image: Seq<u8>, address: u8, value: u8) -> DspModel {
        let index = address as int % 128;
        let stored = DspModel { registers: self.registers.update(index, value), ..self };
        if index % 16 < VOICE_REGISTERS {
            DspModel {
                voices: self.voices.update(
                    index / 16,
                    self.voices[index / 16].with_register(index % 16, value),
                ),
                ..stored
            }
        } else if index == KEY_ON {
            DspModel {
                voices: voices_keyed_on(self.voices, image, self.reg(SOURCE_DIRECTORY), value),
                ..stored
            }
        } else if index == KEY_OFF {
            DspModel { voices: voices_keyed_off(self.voices, value), ..stored }
        } else if index == PITCH_MODULATION || index == NOISE_ENABLE || index == ECHO_ENABLE {
            DspModel { voices: voices_switched(self.voices, index as u8, value), ..stored }
        } else {
            stored
        }
    }

    /// The counter during the next frame.
    pub open spec fn frame_counter(self) -> int {
        counter_after(self.counter)
    }

    /// The noise generator's value during the next frame: stepped if the
    /// noise rate fires on the frame's counter.
    pub open spec fn frame_noise(self) -> int {
        if rate_fires(self.frame_counter(), self.noise_rate()) {
            noise_after(self.noise)
        } else {
            self.noise
        }
    }

    /// The noise sample that every voice is handed in the next frame: twice
    /// the generator's value, wrapped to a sixteen-bit sample.
    pub open spec fn noise_sample(self) -> int {
        wrap16(2 * self.frame_noise())
    }

    /// What voice `index` is handed as the previous voice's output: 0 for
    /// the first voice, else the raw output that the voice before it
    /// produces in this same frame.
    pub open spec fn voice_input(self, index: int) -> int {
        if index <= 0 {
            0
        } else {
            self.voices[index - 1].raw_output(self.frame_counter(), self.noise_sample())
        }
    }

    /// Voice `index` after the next frame.
    pub open spec fn voice_after_frame(self, image: Seq<u8>, index: int) -> VoiceModel {
        self.voices[index].after_render(
            image,
            self.reg(SOURCE_DIRECTORY),
            self.frame_counter(),
            self.voice_input(index),
        )
    }

    /// The sum of the first `count` voices' outputs for one channel in the
    /// next frame, clamped after every addition. With `echo` set, only the
    /// voices that feed the echo unit are summed.
    pub open spec fn mix(self, count: nat, right: bool, echo: bool) -> int
        decreases count,
    {
        if count == 0 {
            0
        } else {
            let earlier = self.mix((count - 1) as nat, right, echo);
            let voice = self.voices[count - 1];
            let output = voice.output(self.frame_counter(), self.noise_sample());
            if echo && !voice.echo_on {
                earlier
            } else if right {
                clamp16(earlier + output.right_out)
            } else {
                clamp16(earlier + output.left_out)
            }
        }
    }

    /// Address of the current frame in the echo delay line.
    pub open spec fn echo_address(self) -> int {
        self.reg(ECHO_START) as int * 256 + self.echo_pos
    }

    /// The sample that the delay line holds for one channel of the current
    /// frame.
    pub open spec fn echo_input(self, image: Seq<u8>, right: bool) -> int {
        wrap16(
            word_at(
                image,
                self.echo_address() + if right {
                    2int
                } else {
                    0int
                },
            ),
        )
    }

    /// One channel's echo history after the next frame: the oldest sample
    /// leaves, and half the delay line's sample enters.
    pub open spec fn history_after_frame(self, image: Seq<u8>, right: bool) -> Seq<int> {
        let history = if right {
            self.echo_history_right
        } else {
            self.echo_history_left
        };
        history.drop_first().push(self.echo_input(image, right) / 2)
    }

    /// The echo filter tap with the given number.
    pub open spec fn tap(self, index: int) -> u8 {
        self.registers[FIR_TAP + 16 * index]
    }

    /// The echo filter's output for a history of eight samples, oldest
    /// first.
    ///
    /// Tap `i` weighs the `i`-th oldest sample. The first seven terms are
    /// summed and wrapped to sixteen bits; the last is added and the result
    /// clamped and rounded down to an even number.
    pub open spec fn fir_output(self, history: Seq<int>) -> int {
        let first_seven = fir_term(history[0], self.tap(0)) + fir_term(history[1], self.tap(1))
            + fir_term(history[2], self.tap(2)) + fir_term(history[3], self.tap(3)) + fir_term(
            history[4],
            self.tap(4),
        ) + fir_term(history[5], self.tap(5)) + fir_term(history[6], self.tap(6));
        clear_low_bit(clamp16(wrap16(first_seven) + fir_term(history[7], self.tap(7))))
    }

    /// The echo filter's output for one channel in the next frame.
    pub open spec fn filtered_echo(self, image: Seq<u8>, right: bool) -> int {
        self.fir_output(self.history_after_frame(image, right))
    }

    /// One channel of the next frame: the voices' sum at master volume plus
    /// the filtered echo at echo volume, clamped; silence when muted.
    pub open spec fn frame_channel(self, image: Seq<u8>, right: bool) -> int {
        if self.muted() {
            0
        } else if right {
            clamp16(
                scale_by_volume(self.mix(NUM_VOICES as nat, true, false), self.reg(MASTER_VOLUME_RIGHT))
                    + scale_by_volume(self.filtered_echo(image, true), self.reg(ECHO_VOLUME_RIGHT)),
            )
        } else {
            clamp16(
                scale_by_volume(self.mix(NUM_VOICES as nat, false, false), self.reg(MASTER_VOLUME_LEFT))
                    + scale_by_volume(self.filtered_echo(image, false), self.reg(ECHO_VOLUME_LEFT)),
            )
        }
    }

    /// The next frame.
    pub open spec fn frame(self, image: Seq<u8>) -> Frame {
        (self.frame_channel(image, false) as i16, self.frame_channel(image, true) as i16)
    }

    /// What the next frame writes into the delay line for one channel: the
    /// echo-enabled voices' sum plus the filtered echo at feedback volume,
    /// clamped and rounded down to an even number.
    pub open spec fn echo_output(self, image: Seq<u8>, right: bool) -> int {
        clear_low_bit(
            clamp16(
                self.mix(NUM_VOICES as nat, right, true) + scale_by_volume(
                    self.filtered_echo(image, right),
                    self.reg(ECHO_FEEDBACK),
                ),
            ),
        )
    }

    /// The memory image after the next frame: with echo writes on, the
    /// delay line's current frame is replaced by the echo output; else the
    /// image stays.
    pub open spec fn image_after_frame(self, image: Seq<u8>) -> Seq<u8> {
        if self.echo_writes() {
            store_word(
                store_word(image, self.echo_address(), self.echo_output(image, false)),
                self.echo_address() + 2,
                self.echo_output(image, true),
            )
        } else {
            image
        }
    }

    /// The delay line's length during the next frame: latched from the
    /// delay register when the offset stands at 0.
    pub open spec fn frame_echo_length(self) -> int {
        if self.echo_pos == 0 {
            (self.reg(ECHO_DELAY) as int % 16) * 2048
        } else {
            self.echo_length
        }
    }

    /// The mixer after the next frame.
    pub open spec fn after_frame(self, image: Seq<u8>) -> DspModel {
        DspModel {
            voices: Seq::new(NUM_VOICES as nat, |i: int| self.voice_after_frame(image, i)),
            registers: self.registers,
            noise: self.frame_noise(),
            counter: self.frame_counter(),
            echo_pos: if self.echo_pos + 4 >= self.frame_echo_length() {
                0
            } else {
                self.echo_pos + 4
            },
            echo_length: self.frame_echo_length(),
            echo_history_left: self.history_after_frame(image, false),
            echo_history_right: self.history_after_frame(image, true),
        }
    }
}

/// Within one frame every voice but the first is rendered with the raw
/// output that the voice before it produces in that same frame, from the
/// state in which the frame found that voice; the first voice is rendered
/// with 0.
pub proof fn lemma_modulation_uses_current_frame(dsp: DspModel, image: Seq<u8>, index: int)
    requires
        dsp.valid(),
        0 <= index < NUM_VOICES,
    ensures
        dsp.after_frame(image).voices[index] == dsp.voices[index].after_render(
            image,
            dsp.reg(SOURCE_DIRECTORY),
            dsp.frame_counter(),
            if index == 0 {
                0
            } else {
                dsp.voices[index - 1].raw_output(dsp.frame_counter(), dsp.noise_sample())
            },
        ),
        index > 0 ==> dsp.voices[index - 1].output(
            dsp.frame_counter(),
            dsp.noise_sample(),
        ).last_voice_out == dsp.voice_input(index),
{
    if index > 0 {
        let voice = dsp.voices[index - 1];
        assert(voice.valid());
        lemma_raw_output_bounds(voice, dsp.frame_counter(), dsp.noise_sample());
    }
}

/// Steps the noise generator.
fn step_noise(noise: i32) -> (next: i32)
    requires
        0 <= noise <= 0x7fff,
    ensures
        next == noise_after(noise as int),
        0 <= next <= 0x7fff,
{
    let feedback: i32 = (noise << 13u32) ^ (noise << 14u32);
    let next: i32 = (feedback & 0x4000) ^ (noise >> 1u32);
    assert(next as int == noise as int / 2 + 0x4000 * ((noise as int + noise as int / 2) % 2) && 0
        <= next <= 0x7fff) by (bit_vector)
        requires
            0 <= noise <= 0x7fff,
            next == (((noise << 13u32) ^ (noise << 14u32)) & 0x4000) ^ (noise >> 1u32),
    ;
    next
}

/// Moves a channel's echo history on by one sample: the oldest leaves and
/// `sample` enters.
fn push_history(history: &mut [i32; 8], sample: i32)
    ensures
        final(history)@ == old(history)@.drop_first().push(sample),
{
    let mut i: usize = 0;
    while i < 7
        invariant
            i <= 7,
            forall|k: int| 0 <= k < i ==> history@[k] == old(history)@[k + 1],
            forall|k: int| i <= k < 8 ==> history@[k] == old(history)@[k],
        decreases 7 - i,
    {
        history[i] = history[i + 1];
        i += 1;
    }
    history[7] = sample;
    assert(history@ =~= old(history)@.drop_first().push(sample));
}

/// The mixer.
pub struct Dsp {
    voices: [Voice; 8],
    registers: [u8; 128],
    noise: i32,
    counter: u16,
    echo_pos: u32,
    echo_length: u32,
    echo_history_left: [i32; 8],
    echo_history_right: [i32; 8],
}

impl View for Dsp {
    type V = DspModel;

    closed spec fn view(&self) -> DspModel {
        DspModel {
            voices: Seq::new(NUM_VOICES as nat, |i: int| self.voices@[i]@),
            registers: self.registers@,
            noise: self.noise as int,
            counter: self.counter as int,
            echo_pos: self.echo_pos as int,
            echo_length: self.echo_length as int,
            echo_history_left: Seq::new(NUM_TAPS as nat, |i: int| self.echo_history_left@[i] as int),
            echo_history_right: Seq::new(
                NUM_TAPS as nat,
                |i: int| self.echo_history_right@[i] as int,
            ),
        }
    }
}

impl Dsp {
    /// The mixer's state is consistent.
    pub open spec fn wf(&self) -> bool {
        self@.valid()
    }

    /// The mixer that `new` makes, as plain values.
    pub open spec fn new_model() -> DspModel {
        DspModel {
            voices: Seq::new(NUM_VOICES as nat, |i: int| Voice::new_model()),
            registers: Seq::new(NUM_REGISTERS as nat, |i: int| 0u8),
            noise: NOISE_SEED as int,
            counter: 0,
            echo_pos: 0,
            echo_length: 0,
            echo_history_left: Seq::new(NUM_TAPS as nat, |i: int| 0int),
            echo_history_right: Seq::new(NUM_TAPS as nat, |i: int| 0int),
        }
    }

    /// A mixer at power-on: eight silent voices, all registers clear, the
    /// noise generator seeded and the echo history silent.
    pub fn new() -> (dsp: Dsp)
        ensures
            dsp.wf(),
            dsp@ == Self::new_model(),
    {
        let dsp = Dsp {
            voices: [
                Voice::new(),
                Voice::new(),
                Voice::new(),
                Voice::new(),
                Voice::new(),
                Voice::new(),
                Voice::new(),
                Voice::new(),
            ],
            registers: [0; 128],
            noise: NOISE_SEED,
            counter: 0,
            echo_pos: 0,
            echo_length: 0,
            echo_history_left: [0; 8],
            echo_history_right: [0; 8],
        };
        assert(dsp@.voices =~= Self::new_model().voices);
        assert(dsp@.registers =~= Self::new_model().registers);
        assert(dsp@.echo_history_left =~= Self::new_model().echo_history_left);
        assert(dsp@.echo_history_right =~= Self::new_model().echo_history_right);
        dsp
    }

    /// Reads the register at `address`.
    pub fn get_register(&self, address: u8) -> (value: u8)
        requires
            self.wf(),
        ensures
            value == self@.register_value(address),
    {
        let index: usize = (address % 128) as usize;
        if index % 16 == 8 {
            let level: i32 = self.voices[index / 16].envelope_level();
            (level / 16) as u8
        } else {
            self.registers[index]
        }
    }

    /// Every voice is consistent.
    spec fn voices_wf(&self) -> bool {
        forall|k: int| 0 <= k < NUM_VOICES ==> (#[trigger] self.voices@[k]).wf()
    }

    /// Everything but the voices is in range.
    spec fn globals_wf(&self) -> bool {
        &&& 0 <= self.noise <= 0x7fff
        &&& 0 <= self.counter < COUNTER_RANGE
        &&& 0 <= self.echo_pos < 0x8000
        &&& 0 <= self.echo_length <= 0x7800
        &&& forall|k: int|
            0 <= k < NUM_TAPS ==> -16384 <= #[trigger] self.echo_history_left@[k] <= 16383
        &&& forall|k: int|
            0 <= k < NUM_TAPS ==> -16384 <= #[trigger] self.echo_history_right@[k] <= 16383
    }

    /// Everything but the voices is as in `other`.
    spec fn same_globals(&self, other: &Dsp) -> bool {
        &&& self.registers == other.registers
        &&& self.noise == other.noise
        &&& self.counter == other.counter
        &&& self.echo_pos == other.echo_pos
        &&& self.echo_length == other.echo_length
        &&& self.echo_history_left == other.echo_history_left
        &&& self.echo_history_right == other.echo_history_right
    }

    /// Consistency of the mixer is consistency of its parts.
    proof fn lemma_wf(&self)
        ensures
            self.wf() <==> self.voices_wf() && self.globals_wf(),
            forall|k: int| 0 <= k < NUM_VOICES ==> self@.voices[k] == self.voices@[k]@,
            self@.voices.len() == NUM_VOICES,
    {
        if self.voices_wf() && self.globals_wf() {
            assert forall|i: int| 0 <= i < NUM_VOICES implies (#[trigger] self@.voices[i]).valid() by {
                assert(self.voices@[i].wf());
            }
            assert forall|i: int| 0 <= i < NUM_TAPS implies -16384
                <= #[trigger] self@.echo_history_left[i] <= 16383 by {
                assert(-16384 <= self.echo_history_left@[i] <= 16383);
            }
            assert forall|i: int| 0 <= i < NUM_TAPS implies -16384
                <= #[trigger] self@.echo_history_right[i] <= 16383 by {
                assert(-16384 <= self.echo_history_right@[i] <= 16383);
            }
        }
        if self.wf() {
            assert forall|k: int| 0 <= k < NUM_VOICES implies (#[trigger] self.voices@[k]).wf() by {
                assert(self@.voices[k].valid());
            }
            assert forall|k: int| 0 <= k < NUM_TAPS implies -16384
                <= #[trigger] self.echo_history_left@[k] <= 16383 by {
                assert(-16384 <= self@.echo_history_left[k] <= 16383);
            }
            assert forall|k: int| 0 <= k < NUM_TAPS implies -16384
                <= #[trigger] self.echo_history_right@[k] <= 16383 by {
                assert(-16384 <= self@.echo_history_right[k] <= 16383);
            }
        }
    }

    /// Two mixers that agree on everything but the voices have views that
    /// differ in the voices only.
    proof fn lemma_same_globals(&self, other: &Dsp)
        requires
            self.same_globals(other),
        ensures
            self@ == (DspModel { voices: self@.voices, ..other@ }),
    {
    }

    /// Keys on the voices whose bits are set in `mask`.
    pub fn key_on(&mut self, memory: &Memory, mask: u8)
        requires
            old(self).wf(),
            memory.wf(),
        ensures
            final(self)@ == (DspModel {
                voices: voices_keyed_on(
                    old(self)@.voices,
                    memory@,
                    old(self)@.reg(SOURCE_DIRECTORY),
                    mask,
                ),
                ..old(self)@
            }),
            final(self).wf(),
    {
        let source_dir = self.registers[SOURCE_DIRECTORY as usize];
        let ghost goal = voices_keyed_on(old(self)@.voices, memory@, source_dir, mask);
        proof {
            old(self).lemma_wf();
        }
        let mut i: usize = 0;
        while i < NUM_VOICES
            invariant
                i <= NUM_VOICES,
                memory.wf(),
                self.voices_wf(),
                self.same_globals(old(self)),
                forall|k: int|
                    0 <= k < i ==> (#[trigger] self.voices@[k])@ == (if mask_bit(mask, k) {
                        old(self).voices@[k]@.after_key_on(memory@, source_dir)
                    } else {
                        old(self).voices@[k]@
                    }),
                forall|k: int|
                    i <= k < NUM_VOICES ==> #[trigger] self.voices@[k] == old(self).voices@[k],
            decreases NUM_VOICES - i,
        {
            assert(self.voices@[i as int].wf());
            if bit_is_set(mask, i as u8) {
                self.voices[i].key_on(memory, source_dir);
            }
            i += 1;
        }
        proof {
            self.lemma_wf();
            self.lemma_same_globals(old(self));
            assert(self@.voices =~= goal);
        }
    }

    /// Keys off the voices whose bits are set in `mask`.
    pub fn key_off(&mut self, mask: u8)
        requires
            old(self).wf(),
        ensures
            final(self)@ == (DspModel {
                voices: voices_keyed_off(old(self)@.voices, mask),
                ..old(self)@
            }),
            final(self).wf(),
    {
        let ghost goal = voices_keyed_off(old(self)@.voices, mask);
        proof {
            old(self).lemma_wf();
        }
        let mut i: usize = 0;
        while i < NUM_VOICES
            invariant
                i <= NUM_VOICES,
                self.voices_wf(),
                self.same_globals(old(self)),
                forall|k: int|
                    0 <= k < i ==> (#[trigger] self.voices@[k])@ == (if mask_bit(mask, k) {
                        old(self).voices@[k]@.after_key_off()
                    } else {
                        old(self).voices@[k]@
                    }),
                forall|k: int|
                    i <= k < NUM_VOICES ==> #[trigger] self.voices@[k] == old(self).voices@[k],
            decreases NUM_VOICES - i,
        {
            assert(self.voices@[i as int].wf());
            if bit_is_set(mask, i as u8) {
                self.voices[i].key_off();
            }
            i += 1;
        }
        proof {
            self.lemma_wf();
            self.lemma_same_globals(old(self));
            assert(self@.voices =~= goal);
        }
    }

    /// Sets one switch of every voice from the voice's bit in `mask`.
    fn set_switches(&mut self, address: u8, mask: u8)
        requires
            old(self).wf(),
            address == PITCH_MODULATION || address == NOISE_ENABLE || address == ECHO_ENABLE,
        ensures
            final(self)@ == (DspModel {
                voices: voices_switched(old(self)@.voices, address, mask),
                ..old(self)@
            }),
            final(self).wf(),
    {
        let ghost goal = voices_switched(old(self)@.voices, address, mask);
        proof {
            old(self).lemma_wf();
        }
        let mut i: usize = 0;
        while i < NUM_VOICES
            invariant
                i <= NUM_VOICES,
                self.voices_wf(),
                self.same_globals(old(self)),
                address == PITCH_MODULATION || address == NOISE_ENABLE || address == ECHO_ENABLE,
                forall|k: int|
                    0 <= k < i ==> (#[trigger] self.voices@[k])@ == (if address
                        == PITCH_MODULATION {
                        VoiceModel { pitch_mod: mask_bit(mask, k), ..old(self).voices@[k]@ }
                    } else if address == NOISE_ENABLE {
                        VoiceModel { noise_on: mask_bit(mask, k), ..old(self).voices@[k]@ }
                    } else {
                        VoiceModel { echo_on: mask_bit(mask, k), ..old(self).voices@[k]@ }
                    }),
                forall|k: int|
                    i <= k < NUM_VOICES ==> #[trigger] self.voices@[k] == old(self).voices@[k],
            decreases NUM_VOICES - i,
        {
            assert(self.voices@[i as int].wf());
            let enabled = bit_is_set(mask, i as u8);
            if address == PITCH_MODULATION {
                self.voices[i].set_pitch_mod(enabled);
            } else if address == NOISE_ENABLE {
                self.voices[i].set_noise_on(enabled);
            } else {
                self.voices[i].set_echo_on(enabled);
            }
            i += 1;
        }
        proof {
            self.lemma_wf();
            self.lemma_same_globals(old(self));
            assert(self@.voices =~= goal);
        }
    }

    /// Stores `value` in the register block without any further effect.
    fn store_register(&mut self, index: usize, value: u8)
        requires
            old(self).wf(),
            index < NUM_REGISTERS,
        ensures
            final(self)@ == (DspModel {
                registers: old(self)@.registers.update(index as int, value),
                ..old(self)@
            }),
            final(self).wf(),
    {
        proof {
            old(self).lemma_wf();
        }
        self.registers[index] = value;
        proof {
            self.lemma_wf();
            assert(self@.voices =~= old(self)@.voices);
            assert(self@.echo_history_left =~= old(self)@.echo_history_left);
            assert(self@.echo_history_right =~= old(self)@.echo_history_right);
        }
    }

    /// Writes one of the first eight registers of voice `number`.
    fn write_voice_register(&mut self, number: usize, index: u8, value: u8)
        requires
            old(self).wf(),
            number < NUM_VOICES,
            index < VOICE_REGISTERS,
        ensures
            final(self)@ == (DspModel {
                voices: old(self)@.voices.update(
                    number as int,
                    old(self)@.voices[number as int].with_register(index as int, value),
                ),
                ..old(self)@
            }),
            final(self).wf(),
    {
        proof {
            old(self).lemma_wf();
        }
        assert(self.voices@[number as int].wf());
        self.voices[number].write_register(index, value);
        proof {
            assert forall|k: int| 0 <= k < NUM_VOICES implies (#[trigger] self.voices@[k]).wf() by {
                if k != number {
                    assert(old(self).voices@[k].wf());
                }
            }
            self.lemma_wf();
            self.lemma_same_globals(old(self));
            assert(self@.voices =~= old(self)@.voices.update(
                number as int,
                old(self)@.voices[number as int].with_register(index as int, value),
            ));
        }
    }

    /// Writes the register at `address`. A key-on reads the keyed voices'
    /// first blocks from `memory`.
    pub fn set_register(&mut self, memory: &Memory, address: u8, value: u8)
        requires
            old(self).wf(),
            memory.wf(),
        ensures
            final(self)@ == old(self)@.with_register(memory@, address, value),
            final(self).wf(),
    {
        let index: usize = (address % 128) as usize;
        self.store_register(index, value);
        if index % 16 < VOICE_REGISTERS as usize {
            self.write_voice_register(index / 16, (index % 16) as u8, value);
        } else if index == KEY_ON as usize {
            self.key_on(memory, value);
        } else if index == KEY_OFF as usize {
            self.key_off(value);
        } else if index == PITCH_MODULATION as usize || index == NOISE_ENABLE as usize || index
            == ECHO_ENABLE as usize {
            self.set_switches(index as u8, value);
        }
    }

    /// Renders the eight voices in order, each with the noise sample
    /// `noise`, and sums their outputs: left, right, and the same two for
    /// the voices that feed the echo unit.
    fn render_voices(&mut self, memory: &Memory, counter: u16, noise: i32) -> (sums: (
        i32,
        i32,
        i32,
        i32,
    ))
        requires
            old(self).wf(),
            memory.wf(),
            counter == old(self)@.frame_counter(),
            noise == old(self)@.noise_sample(),
            -32768 <= noise <= 32767,
        ensures
            final(self).wf(),
            final(self)@ == (DspModel {
                voices: Seq::new(
                    NUM_VOICES as nat,
                    |i: int| old(self)@.voice_after_frame(memory@, i),
                ),
                ..old(self)@
            }),
            sums.0 == old(self)@.mix(NUM_VOICES as nat, false, false),
            sums.1 == old(self)@.mix(NUM_VOICES as nat, true, false),
            sums.2 == old(self)@.mix(NUM_VOICES as nat, false, true),
            sums.3 == old(self)@.mix(NUM_VOICES as nat, true, true),
            -32768 <= sums.0 <= 32767,
            -32768 <= sums.1 <= 32767,
            -32768 <= sums.2 <= 32767,
            -32768 <= sums.3 <= 32767,
    {
        let source_dir = self.registers[SOURCE_DIRECTORY as usize];
        let ghost start = old(self)@;
        proof {
            old(self).lemma_wf();
        }
        let mut left: i32 = 0;
        let mut right: i32 = 0;
        let mut echo_left: i32 = 0;
        let mut echo_right: i32 = 0;
        let mut last_voice_out: i32 = 0;
        let mut i: usize = 0;
        while i < NUM_VOICES
            invariant
                i <= NUM_VOICES,
                memory.wf(),
                self.voices_wf(),
                self.same_globals(old(self)),
                start == old(self)@,
                start.voices.len() == NUM_VOICES,
                forall|k: int| 0 <= k < NUM_VOICES ==> start.voices[k] == old(self).voices@[k]@,
                source_dir == start.reg(SOURCE_DIRECTORY),
                counter == start.frame_counter(),
                noise == start.noise_sample(),
                -32768 <= noise <= 32767,
                forall|k: int|
                    0 <= k < i ==> (#[trigger] self.voices@[k])@ == start.voice_after_frame(
                        memory@,
                        k,
                    ),
                forall|k: int|
                    i <= k < NUM_VOICES ==> #[trigger] self.voices@[k] == old(self).voices@[k],
                last_voice_out == start.voice_input(i as int),
                left == start.mix(i as nat, false, false),
                right == start.mix(i as nat, true, false),
                echo_left == start.mix(i as nat, false, true),
                echo_right == start.mix(i as nat, true, true),
                -32768 <= left <= 32767,
                -32768 <= right <= 32767,
                -32768 <= echo_left <= 32767,
                -32768 <= echo_right <= 32767,
            decreases NUM_VOICES - i,
        {
            assert(self.voices@[i as int].wf());
            let feeds_echo = self.voices[i].echo_on();
            let output = self.voices[i].render_sample(
                memory,
                source_dir,
                counter,
                last_voice_out,
                noise,
            );
            left = clamp(left + output.left_out);
            right = clamp(right + output.right_out);
            if feeds_echo {
                echo_left = clamp(echo_left + output.left_out);
                echo_right = clamp(echo_right + output.right_out);
            }
            last_voice_out = output.last_voice_out;
            i += 1;
        }
        proof {
            self.lemma_wf();
            self.lemma_same_globals(old(self));
            assert(self@.voices =~= Seq::new(
                NUM_VOICES as nat,
                |i: int| start.voice_after_frame(memory@, i),
            ));
        }
        (left, right, echo_left, echo_right)
    }

    /// One term of the echo filter.
    fn filter_term(&self, sample: i32, index: usize) -> (term: i32)
        requires
            -16384 <= sample <= 16383,
            index < NUM_TAPS,
        ensures
            term == fir_term(sample as int, self@.tap(index as int)),
            -32768 <= term <= 32768,
    {
        let tap: i32 = sign_extend(self.registers[FIR_TAP as usize + 16 * index]);
        assert(-0x20_0000 <= sample * tap <= 0x20_0000 && -32768 <= (sample * tap) / 64 <= 32768)
            by (nonlinear_arith)
            requires
                -16384 <= sample <= 16383,
                -128 <= tap <= 127,
        ;
        let product: i32 = sample * tap;
        proof {
            lemma_shift_right(product);
        }
        product >> 6u32
    }

    /// The echo filter's output for a history of eight samples.
    fn filter_echo(&self, history: &[i32; 8]) -> (filtered: i32)
        requires
            forall|k: int| 0 <= k < NUM_TAPS ==> -16384 <= #[trigger] history@[k] <= 16383,
        ensures
            filtered == self@.fir_output(Seq::new(NUM_TAPS as nat, |k: int| history@[k] as int)),
            -32768 <= filtered <= 32767,
    {
        let first_seven: i32 = self.filter_term(history[0], 0) + self.filter_term(history[1], 1)
            + self.filter_term(history[2], 2) + self.filter_term(history[3], 3) + self.filter_term(
            history[4],
            4,
        ) + self.filter_term(history[5], 5) + self.filter_term(history[6], 6);
        let wrapped: i32 = wrap_to_i16(first_seven) as i32;
        mask_even(clamp(wrapped + self.filter_term(history[7], 7)))
    }

    /// Reads the delay line's current frame into the echo history and
    /// filters both channels.
    fn update_echo(&mut self, memory: &Memory) -> (filtered: (i32, i32))
        requires
            old(self).wf(),
            memory.wf(),
        ensures
            final(self).wf(),
            final(self)@ == (DspModel {
                echo_history_left: old(self)@.history_after_frame(memory@, false),
                echo_history_right: old(self)@.history_after_frame(memory@, true),
                ..old(self)@
            }),
            filtered.0 == old(self)@.filtered_echo(memory@, false),
            filtered.1 == old(self)@.filtered_echo(memory@, true),
            -32768 <= filtered.0 <= 32767,
            -32768 <= filtered.1 <= 32767,
    {
        proof {
            old(self).lemma_wf();
        }
        let address: u32 = self.registers[ECHO_START as usize] as u32 * 256 + self.echo_pos;
        let in_left: i32 = sign_extend_word(memory.read_word(address));
        let in_right: i32 = sign_extend_word(memory.read_word(address + 2));
        proof {
            lemma_shift_right(in_left);
            lemma_shift_right(in_right);
        }
        push_history(&mut self.echo_history_left, in_left >> 1u32);
        push_history(&mut self.echo_history_right, in_right >> 1u32);
        proof {
            self.lemma_wf();
            assert(self@.voices =~= old(self)@.voices);
            assert(self@.echo_history_left =~= old(self)@.history_after_frame(memory@, false));
            assert(self@.echo_history_right =~= old(self)@.history_after_frame(memory@, true));
        }
        let left = self.filter_echo(&self.echo_history_left);
        let right = self.filter_echo(&self.echo_history_right);
        proof {
            assert(Seq::new(NUM_TAPS as nat, |k: int| self.echo_history_left@[k] as int)
                =~= old(self)@.history_after_frame(memory@, false));
            assert(Seq::new(NUM_TAPS as nat, |k: int| self.echo_history_right@[k] as int)
                =~= old(self)@.history_after_frame(memory@, true));
        }
        (left, right)
    }

    /// Moves the counter, the noise generator and the echo offset on to
    /// the values that the frame just rendered has left them with.
    fn finish_frame(&mut self, counter: u16, noise: i32)
        requires
            old(self).wf(),
            0 <= counter < COUNTER_RANGE,
            0 <= noise <= 0x7fff,
        ensures
            final(self).wf(),
            final(self)@ == (DspModel {
                counter: counter as int,
                noise: noise as int,
                echo_length: old(self)@.frame_echo_length(),
                echo_pos: if old(self)@.echo_pos + 4 >= old(self)@.frame_echo_length() {
                    0
                } else {
                    old(self)@.echo_pos + 4
                },
                ..old(self)@
            }),
    {
        proof {
            old(self).lemma_wf();
        }
        self.counter = counter;
        self.noise = noise;
        if self.echo_pos == 0 {
            self.echo_length = (self.registers[ECHO_DELAY as usize] % 16) as u32 * 2048;
        }
        self.echo_pos += 4;
        if self.echo_pos >= self.echo_length {
            self.echo_pos = 0;
        }
        proof {
            self.lemma_wf();
            assert(self@.voices =~= old(self)@.voices);
            assert(self@.echo_history_left =~= old(self)@.echo_history_left);
            assert(self@.echo_history_right =~= old(self)@.echo_history_right);
        }
    }

    /// Renders one stereo frame.
    ///
    /// The counter and the noise generator step first; the voices are then
    /// rendered in order, each handed the noise sample made from the
    /// generator's value and the raw output of the voice before it;
    /// the echo unit reads and filters the delay line's current frame,
    /// which with echo writes on is then replaced in `memory`.
    pub fn render_frame(&mut self, memory: &mut Memory) -> (frame: Frame)
        requires
            old(self).wf(),
            old(memory).wf(),
        ensures
            frame == old(self)@.frame(old(memory)@),
            final(self)@ == old(self)@.after_frame(old(memory)@),
            final(memory)@ == old(self)@.image_after_frame(old(memory)@),
            final(self).wf(),
            final(memory).wf(),
    {
        proof {
            old(self).lemma_wf();
        }
        let ghost start = old(self)@;
        let ghost image = old(memory)@;
        let flags: u8 = self.registers[FLAGS as usize];
        let counter: u16 = next_counter(self.counter);
        let noise: i32 = if counter_fires(counter, flags % 32) {
            step_noise(self.noise)
        } else {
            self.noise
        };
        let address: u32 = self.registers[ECHO_START as usize] as u32 * 256 + self.echo_pos;

        let noise_sample: i32 = wrap_to_i16(noise * 2) as i32;
        let sums = self.render_voices(memory, counter, noise_sample);
        let filtered = self.update_echo(memory);

        let left: i32 = clamp(
            multiply_volume(sums.0, self.registers[MASTER_VOLUME_LEFT as usize]) + multiply_volume(
                filtered.0,
                self.registers[ECHO_VOLUME_LEFT as usize],
            ),
        );
        let right: i32 = clamp(
            multiply_volume(sums.1, self.registers[MASTER_VOLUME_RIGHT as usize]) + multiply_volume(
                filtered.1,
                self.registers[ECHO_VOLUME_RIGHT as usize],
            ),
        );
        let frame: Frame = if bit_is_set(flags, 6) {
            (0, 0)
        } else {
            (left as i16, right as i16)
        };

        if !bit_is_set(flags, 5) {
            let feedback: u8 = self.registers[ECHO_FEEDBACK as usize];
            let echo_left: i32 = mask_even(clamp(sums.2 + multiply_volume(filtered.0, feedback)));
            let echo_right: i32 = mask_even(clamp(sums.3 + multiply_volume(filtered.1, feedback)));
            memory.write_word(address, echo_left);
            memory.write_word(address + 2, echo_right);
        }
        self.finish_frame(counter, noise);
        proof {
            assert(self@.voices =~= start.after_frame(image).voices);
        }
        frame
    }
}

} // verus!
