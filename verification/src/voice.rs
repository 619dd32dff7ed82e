//! One sample-playback voice.
//!
//! On every tick a voice produces one sample from its decoded sample stream
//! (or from the shared noise sample), shapes it with its envelope, scales it
//! for the left and right channel, and then moves its read position on by
//! its pitch. The memory image, the source directory page and the shared
//! counter are handed to each call; a voice keeps no reference to its owner.

use crate::brr_block_decoder::{state_after_read, BrrBlockDecoder, BrrState, SAMPLES_PER_BLOCK};
use crate::dsp_helpers::{
    clamp, clamp16, clear_low_bit, lemma_shift_right, mask_even, multiply_volume, scale_by_volume,
    signed8,
};
use crate::envelope::{
    lemma_level_monotone, lemma_tick_transitions, limit_level, Envelope, EnvelopeModel,
    EnvelopeState, RELEASE_STEP, RELEASE_TICKS,
};
use crate::memory::{
    byte_at, read_source_dir_loop_address, read_source_dir_start_address, source_loop_address,
    source_start_address, wrap_address, Memory,
};
use vstd::prelude::*;

verus! {

/// One whole sample step of the read position; the position holds twelve
/// fractional bits.
pub const SAMPLE_STEP: i32 = 0x1000;

/// Largest effective pitch: just under four sample steps per tick.
pub const MAX_PITCH: i32 = 0x3fff;

/// Number of registers that each voice has.
pub const VOICE_REGISTERS: u8 = 8;

/// Smallest sixteen-bit sample.
pub const MIN_SAMPLE: i32 = -32768;

/// Largest sixteen-bit sample.
pub const MAX_SAMPLE: i32 = 32767;

/// What a voice hands to the mixer for one tick.
#[derive(Clone, Copy, PartialEq, Eq, Structural, Debug)]
pub struct VoiceOutput {
    /// Contribution to the left channel.
    pub left_out: i32,
    /// Contribution to the right channel.
    pub right_out: i32,
    /// The sample before channel volumes, which modulates the next voice's
    /// pitch.
    pub last_voice_out: i32,
}

/// A voice as plain values.
pub struct VoiceModel {
    /// The voice's envelope.
    pub envelope: EnvelopeModel,
    /// Left channel volume register, signed.
    pub vol_left: u8,
    /// Right channel volume register, signed.
    pub vol_right: u8,
    /// Low byte of the pitch register.
    pub pitch_low: u8,
    /// High byte of the pitch register.
    pub pitch_high: u8,
    /// Source number: which directory entry the voice plays.
    pub source: u8,
    /// The previous voice's output modulates this voice's pitch.
    pub pitch_mod: bool,
    /// The voice plays the shared noise sample in place of its samples.
    pub noise_on: bool,
    /// The voice feeds the echo delay line.
    pub echo_on: bool,
    /// Address at which the sample started, as last read from the directory.
    pub sample_start_address: int,
    /// Address of the loop point, as last read from the directory.
    pub loop_start_address: int,
    /// The block decoder.
    pub decoder: BrrState,
    /// Address of the next block to fetch.
    pub sample_address: int,
    /// Fractional read position between `current_sample` and `next_sample`.
    pub sample_pos: int,
    /// The sample at the read position.
    pub current_sample: int,
    /// The sample after the read position.
    pub next_sample: int,
}

/// What one call of `render_sample` is handed.
pub struct RenderInput {
    /// The memory image.
    pub image: Seq<u8>,
    /// The source directory's page.
    pub source_dir: u8,
    /// The shared counter.
    pub counter: int,
    /// The raw output of the voice before this one.
    pub last_voice_out: int,
    /// The shared noise sample.
    pub noise: int,
}

/// The nine bytes of the block that starts at `address`.
pub open spec fn block_at(image: Seq<u8>, address: int) -> Seq<u8> {
    Seq::new(9, |offset: int| byte_at(image, address + offset))
}

/// `pitch` limited to `0..=MAX_PITCH`.
pub open spec fn limit_pitch(pitch: int) -> int {
    if pitch < 0 {
        0
    } else if pitch > MAX_PITCH {
        MAX_PITCH as int
    } else {
        pitch
    }
}

/// A sample shaped by an envelope level: multiplied, divided by 2048
/// rounding down, and rounded down to an even number.
pub open spec fn shaped_sample(sample: int, level: int) -> int {
    clear_low_bit((sample * level) / 2048)
}

impl VoiceModel {
    /// The parts are consistent, a block is buffered with samples left in
    /// it, and the cursor values are in range.
    pub open spec fn valid(self) -> bool {
        &&& self.envelope.valid()
        &&& self.decoder.valid()
        &&& !self.decoder.finished()
        &&& 0 <= self.sample_start_address < 0x10000
        &&& 0 <= self.loop_start_address < 0x10000
        &&& 0 <= self.sample_address < 0x10000
        &&& 0 <= self.sample_pos < SAMPLE_STEP
        &&& -32768 <= self.current_sample <= 32767
        &&& -32768 <= self.next_sample <= 32767
    }

    /// The pitch register: both bytes as one number.
    pub open spec fn pitch_register(self) -> int {
        self.pitch_high as int * 256 + self.pitch_low as int
    }

    /// The pitch that moves the read position on this tick.
    ///
    /// With pitch modulation the register is raised or lowered by its
    /// product with a thirty-second of the previous voice's output, divided
    /// by 1024; both divisions round down. The result is limited to
    /// `0..=MAX_PITCH`.
    pub open spec fn effective_pitch(self, last_voice_out: int) -> int {
        let pitch = self.pitch_register();
        if self.pitch_mod {
            limit_pitch(pitch + ((last_voice_out / 32) * pitch) / 1024)
        } else {
            limit_pitch(pitch)
        }
    }

    /// The blend of the two samples around the read position, weighted by
    /// the position, clamped and rounded down to an even number.
    pub open spec fn interpolated_sample(self) -> int {
        clear_low_bit(
            clamp16(
                (self.current_sample * (SAMPLE_STEP - self.sample_pos) + self.next_sample
                    * self.sample_pos) / 4096,
            ),
        )
    }

    /// The sample before the envelope: the shared noise sample in noise
    /// mode, else the interpolated sample.
    pub open spec fn source_sample(self, noise: int) -> int {
        if self.noise_on {
            noise
        } else {
            self.interpolated_sample()
        }
    }

    /// The sample of this tick before channel volumes: the source sample
    /// shaped by the level that the envelope has after its tick.
    pub open spec fn raw_output(self, counter: int, noise: int) -> int {
        shaped_sample(self.source_sample(noise), self.envelope.tick(counter).level)
    }

    /// What the voice hands to the mixer on this tick.
    pub open spec fn output(self, counter: int, noise: int) -> VoiceOutput {
        let raw = self.raw_output(counter, noise);
        VoiceOutput {
            left_out: scale_by_volume(raw, self.vol_left) as i32,
            right_out: scale_by_volume(raw, self.vol_right) as i32,
            last_voice_out: raw as i32,
        }
    }

    /// The envelope after this tick. A voice whose last block ended its
    /// sample without asking to loop is keyed off and silenced at once.
    pub open spec fn envelope_after(self, counter: int) -> EnvelopeModel {
        let ticked = self.envelope.tick(counter);
        if self.decoder.is_end && !self.decoder.is_looping {
            EnvelopeModel { level: 0, ..ticked.key_off() }
        } else {
            ticked
        }
    }

    /// The voice after reading its directory entry again.
    pub open spec fn with_entry(self, image: Seq<u8>, source_dir: u8) -> VoiceModel {
        VoiceModel {
            sample_start_address: source_start_address(image, source_dir, self.source),
            loop_start_address: source_loop_address(image, source_dir, self.source),
            ..self
        }
    }

    /// The voice after fetching and decoding the block at its sample
    /// address.
    pub open spec fn with_next_block(self, image: Seq<u8>) -> VoiceModel {
        VoiceModel {
            decoder: state_after_read(self.decoder, block_at(image, self.sample_address)),
            sample_address: wrap_address(self.sample_address + 9),
            ..self
        }
    }

    /// The voice after taking one sample from the decoder.
    pub open spec fn with_next_sample(self) -> VoiceModel {
        VoiceModel {
            current_sample: self.next_sample,
            next_sample: self.decoder.samples[self.decoder.sample_index] as int,
            decoder: BrrState { sample_index: self.decoder.sample_index + 1, ..self.decoder },
            ..self
        }
    }

    /// The voice after moving on by one whole sample.
    ///
    /// It takes one sample. If that was the block's last, it fetches the
    /// next block; where the finished block ended the sample and asked to
    /// loop, the directory entry is read again and the fetch goes to the
    /// loop point.
    pub open spec fn step(self, image: Seq<u8>, source_dir: u8) -> VoiceModel {
        let taken = self.with_next_sample();
        if !taken.decoder.finished() {
            taken
        } else if taken.decoder.is_end && taken.decoder.is_looping {
            let entry = taken.with_entry(image, source_dir);
            (VoiceModel { sample_address: entry.loop_start_address, ..entry }).with_next_block(
                image,
            )
        } else {
            taken.with_next_block(image)
        }
    }

    /// The voice after moving on by `count` whole samples.
    pub open spec fn steps(self, image: Seq<u8>, source_dir: u8, count: nat) -> VoiceModel
        decreases count,
    {
        if count == 0 {
            self
        } else {
            self.step(image, source_dir).steps(image, source_dir, (count - 1) as nat)
        }
    }

    /// The voice after its read position has moved on by `pitch`: the whole
    /// part of the new position is the number of samples consumed, its
    /// fraction the position that remains.
    pub open spec fn moved_on(self, image: Seq<u8>, source_dir: u8, pitch: int) -> VoiceModel {
        let moved = self.sample_pos + pitch;
        (VoiceModel { sample_pos: moved % (SAMPLE_STEP as int), ..self }).steps(
            image,
            source_dir,
            (moved / (SAMPLE_STEP as int)) as nat,
        )
    }

    /// The voice after rendering one tick: the envelope is stepped, and the
    /// read position moves on by the effective pitch.
    pub open spec fn after_render(
        self,
        image: Seq<u8>,
        source_dir: u8,
        counter: int,
        last_voice_out: int,
    ) -> VoiceModel {
        (VoiceModel { envelope: self.envelope_after(counter), ..self }).moved_on(
            image,
            source_dir,
            self.effective_pitch(last_voice_out),
        )
    }

    /// The voice after one call of `render_sample` with `input`.
    pub open spec fn rendered(self, input: RenderInput) -> VoiceModel {
        self.after_render(input.image, input.source_dir, input.counter, input.last_voice_out)
    }

    /// The voice after one call of `render_sample` for each of `inputs`, in
    /// order.
    pub open spec fn renders(self, inputs: Seq<RenderInput>) -> VoiceModel
        decreases inputs.len(),
    {
        if inputs.len() == 0 {
            self
        } else {
            self.renders(inputs.drop_last()).rendered(inputs.last())
        }
    }

    /// The voice after a key-on.
    ///
    /// The directory entry is read, the decoder's history is cleared and the
    /// sample's first block decoded; the first sample is primed as the next
    /// one, behind a silent current sample; the envelope starts its attack.
    pub open spec fn after_key_on(self, image: Seq<u8>, source_dir: u8) -> VoiceModel {
        let entry = self.with_entry(image, source_dir);
        let fetched = (VoiceModel {
            sample_address: entry.sample_start_address,
            decoder: BrrState { last_sample: 0, last_last_sample: 0, ..entry.decoder },
            ..entry
        }).with_next_block(image);
        let primed = (VoiceModel { sample_pos: 0, next_sample: 0, ..fetched }).with_next_sample();
        VoiceModel { envelope: primed.envelope.key_on(), ..primed }
    }

    /// The value of one of the voice's eight registers, numbered as the
    /// processor lays them out: left volume, right volume, pitch low, pitch
    /// high, source, the two envelope registers, gain.
    pub open spec fn register(self, index: int) -> u8 {
        if index == 0 {
            self.vol_left
        } else if index == 1 {
            self.vol_right
        } else if index == 2 {
            self.pitch_low
        } else if index == 3 {
            self.pitch_high
        } else if index == 4 {
            self.source
        } else if index == 5 {
            self.envelope.adsr0
        } else if index == 6 {
            self.envelope.adsr1
        } else {
            self.envelope.gain
        }
    }

    /// The voice after `value` was written to register `index`.
    pub open spec fn with_register(self, index: int, value: u8) -> VoiceModel {
        if index == 0 {
            VoiceModel { vol_left: value, ..self }
        } else if index == 1 {
            VoiceModel { vol_right: value, ..self }
        } else if index == 2 {
            VoiceModel { pitch_low: value, ..self }
        } else if index == 3 {
            VoiceModel { pitch_high: value, ..self }
        } else if index == 4 {
            VoiceModel { source: value, ..self }
        } else if index == 5 {
            VoiceModel { envelope: EnvelopeModel { adsr0: value, ..self.envelope }, ..self }
        } else if index == 6 {
            VoiceModel { envelope: EnvelopeModel { adsr1: value, ..self.envelope }, ..self }
        } else {
            VoiceModel { envelope: EnvelopeModel { gain: value, ..self.envelope }, ..self }
        }
    }

    /// The voice after a key-off: only the envelope changes.
    pub open spec fn after_key_off(self) -> VoiceModel {
        VoiceModel { envelope: self.envelope.key_off(), ..self }
    }
}

/// One voice.
pub struct Voice {
    envelope: Envelope,
    vol_left: u8,
    vol_right: u8,
    pitch_low: u8,
    pitch_high: u8,
    source: u8,
    pitch_mod: bool,
    noise_on: bool,
    echo_on: bool,
    sample_start_address: u32,
    loop_start_address: u32,
    brr_block_decoder: BrrBlockDecoder,
    sample_address: u32,
    sample_pos: i32,
    current_sample: i32,
    next_sample: i32,
}

impl View for Voice {
    type V = VoiceModel;

    closed spec fn view(&self) -> VoiceModel {
        VoiceModel {
            envelope: self.envelope@,
            vol_left: self.vol_left,
            vol_right: self.vol_right,
            pitch_low: self.pitch_low,
            pitch_high: self.pitch_high,
            source: self.source,
            pitch_mod: self.pitch_mod,
            noise_on: self.noise_on,
            echo_on: self.echo_on,
            sample_start_address: self.sample_start_address as int,
            loop_start_address: self.loop_start_address as int,
            decoder: self.brr_block_decoder@,
            sample_address: self.sample_address as int,
            sample_pos: self.sample_pos as int,
            current_sample: self.current_sample as int,
            next_sample: self.next_sample as int,
        }
    }
}

/// Moving the read position on changes the cursor and the decoder only:
/// the registers and the envelope stay as they are.
pub proof fn lemma_steps_keep_registers(
    voice: VoiceModel,
    image: Seq<u8>,
    source_dir: u8,
    count: nat,
)
    ensures
        ({
            let after = voice.steps(image, source_dir, count);
            &&& after.envelope == voice.envelope
            &&& after.vol_left == voice.vol_left
            &&& after.vol_right == voice.vol_right
            &&& after.pitch_low == voice.pitch_low
            &&& after.pitch_high == voice.pitch_high
            &&& after.source == voice.source
            &&& after.pitch_mod == voice.pitch_mod
            &&& after.noise_on == voice.noise_on
            &&& after.echo_on == voice.echo_on
            &&& after.sample_pos == voice.sample_pos
        }),
    decreases count,
{
    if count > 0 {
        lemma_steps_keep_registers(
            voice.step(image, source_dir),
            image,
            source_dir,
            (count - 1) as nat,
        );
    }
}

/// The raw output of a consistent voice is a sixteen-bit sample, and never
/// larger in magnitude than 32752, for any noise sample.
pub proof fn lemma_raw_output_bounds(voice: VoiceModel, counter: int, noise: int)
    requires
        voice.valid(),
        MIN_SAMPLE <= noise <= MAX_SAMPLE,
    ensures
        -32752 <= voice.raw_output(counter, noise) <= 32752,
{
    let sample = voice.source_sample(noise);
    let level = voice.envelope.tick(counter).level;
    lemma_level_monotone(voice.envelope, counter);
    assert(-32768 <= sample <= 32767);
    assert(-32752 <= (sample * level) / 2048 <= 32752) by (nonlinear_arith)
        requires
            -32768 <= sample <= 32767,
            0 <= level <= 0x7ff,
    ;
}

/// A call of `render_sample` changes the envelope by one tick, and by the
/// forced key-off where the buffered block ends the sample without loop;
/// it moves the read position on by the effective pitch, consuming the
/// whole part of the move, at most four samples; and it leaves every
/// register as it is. The output does not depend on the pitch: it is made
/// before the position moves.
pub proof fn lemma_render_moves_by_effective_pitch(
    voice: VoiceModel,
    image: Seq<u8>,
    source_dir: u8,
    counter: int,
    last_voice_out: int,
)
    requires
        voice.valid(),
    ensures
        ({
            let after = voice.after_render(image, source_dir, counter, last_voice_out);
            let moved = voice.sample_pos + voice.effective_pitch(last_voice_out);
            &&& 0 <= voice.effective_pitch(last_voice_out) <= MAX_PITCH
            &&& 0 <= moved / (SAMPLE_STEP as int) <= 4
            &&& after.sample_pos == moved % (SAMPLE_STEP as int)
            &&& after == (VoiceModel {
                envelope: voice.envelope_after(counter),
                sample_pos: moved % (SAMPLE_STEP as int),
                ..voice
            }).steps(image, source_dir, (moved / (SAMPLE_STEP as int)) as nat)
            &&& after.envelope == voice.envelope_after(counter)
            &&& after.vol_left == voice.vol_left
            &&& after.vol_right == voice.vol_right
            &&& after.pitch_low == voice.pitch_low
            &&& after.pitch_high == voice.pitch_high
            &&& after.source == voice.source
            &&& after.pitch_mod == voice.pitch_mod
            &&& after.noise_on == voice.noise_on
            &&& after.echo_on == voice.echo_on
        }),
{
    let moved = voice.sample_pos + voice.effective_pitch(last_voice_out);
    lemma_steps_keep_registers(
        VoiceModel {
            envelope: voice.envelope_after(counter),
            sample_pos: moved % (SAMPLE_STEP as int),
            ..voice
        },
        image,
        source_dir,
        (moved / (SAMPLE_STEP as int)) as nat,
    );
}

/// Through a call of `render_sample` the level never falls during an
/// attack, unless the sample ends without loop, and never rises during
/// decay, sustain or release. The attack is entered by no call, and
/// sustain is left only by the forced key-off at a sample's end.
pub proof fn lemma_render_level_monotone(
    voice: VoiceModel,
    image: Seq<u8>,
    source_dir: u8,
    counter: int,
    last_voice_out: int,
)
    requires
        voice.valid(),
    ensures
        ({
            let before = voice.envelope;
            let after = voice.after_render(image, source_dir, counter, last_voice_out).envelope;
            let forced = voice.decoder.is_end && !voice.decoder.is_looping;
            &&& after.valid()
            &&& before.state() == EnvelopeState::Attack && !forced ==> before.level <= after.level
                && (after.state() == EnvelopeState::Attack || after.state()
                == EnvelopeState::Decay)
            &&& before.state() == EnvelopeState::Decay || before.state() == EnvelopeState::Sustain
                || before.state() == EnvelopeState::Release ==> after.level <= before.level
                && after.state() != EnvelopeState::Attack
            &&& before.state() == EnvelopeState::Sustain && !forced ==> after.state()
                == EnvelopeState::Sustain
            &&& before.state() == EnvelopeState::Release ==> after.state()
                == EnvelopeState::Release
            &&& forced ==> after.level == 0 && after.state() == EnvelopeState::Release
        }),
{
    lemma_render_moves_by_effective_pitch(voice, image, source_dir, counter, last_voice_out);
    lemma_level_monotone(voice.envelope, counter);
    lemma_tick_transitions(voice.envelope, counter);
}

/// A released voice stays released through any run of `render_sample`
/// calls, and after `n` of them its level has fallen by `n` times
/// `RELEASE_STEP` at least, or to 0.
pub proof fn lemma_release_through_renders(voice: VoiceModel, inputs: Seq<RenderInput>)
    requires
        voice.valid(),
        voice.envelope.state() == EnvelopeState::Release,
    ensures
        voice.renders(inputs).envelope.valid(),
        voice.renders(inputs).envelope.state() == EnvelopeState::Release,
        voice.renders(inputs).envelope.level <= limit_level(
            voice.envelope.level - RELEASE_STEP * inputs.len(),
        ),
    decreases inputs.len(),
{
    if inputs.len() > 0 {
        let earlier = voice.renders(inputs.drop_last());
        let input = inputs.last();
        lemma_release_through_renders(voice, inputs.drop_last());
        let moved = earlier.sample_pos + earlier.effective_pitch(input.last_voice_out);
        lemma_steps_keep_registers(
            VoiceModel {
                envelope: earlier.envelope_after(input.counter),
                sample_pos: moved % (SAMPLE_STEP as int),
                ..earlier
            },
            input.image,
            input.source_dir,
            (moved / (SAMPLE_STEP as int)) as nat,
        );
    }
}

/// After a key-off a voice falls silent within `RELEASE_TICKS` calls of
/// `render_sample`, from any level and whatever the registers and the
/// calls' arguments are: its level is then 0 and stays 0.
pub proof fn lemma_release_reaches_zero_through_renders(
    voice: VoiceModel,
    inputs: Seq<RenderInput>,
)
    requires
        voice.valid(),
        voice.envelope.state() == EnvelopeState::Release,
        inputs.len() >= RELEASE_TICKS,
    ensures
        voice.renders(inputs).envelope.level == 0,
        voice.renders(inputs).envelope.state() == EnvelopeState::Release,
{
    lemma_release_through_renders(voice, inputs);
}

/// A released voice at level 0 renders silence on all three outputs,
/// whatever its sample, its volumes and the noise sample are.
pub proof fn lemma_released_voice_at_level_zero_is_silent(
    voice: VoiceModel,
    counter: int,
    noise: int,
)
    requires
        voice.envelope.state() == EnvelopeState::Release,
        voice.envelope.level == 0,
    ensures
        voice.raw_output(counter, noise) == 0,
        voice.output(counter, noise) == (VoiceOutput {
            left_out: 0,
            right_out: 0,
            last_voice_out: 0,
        }),
{
    let sample = voice.source_sample(noise);
    assert(sample * 0 == 0);
    assert((0 * signed8(voice.vol_left)) / 128 == 0);
    assert((0 * signed8(voice.vol_right)) / 128 == 0);
}

/// A block that ends the sample and asks to loop leaves the envelope to
/// its tick, so the voice keeps sounding. When such a block's last sample
/// is taken, the directory entry is read at that moment and the next block
/// is fetched from the loop point it gives.
pub proof fn lemma_looping_end_goes_to_the_loop_point(
    voice: VoiceModel,
    image: Seq<u8>,
    source_dir: u8,
    counter: int,
)
    requires
        voice.valid(),
        voice.decoder.is_end,
        voice.decoder.is_looping,
    ensures
        voice.envelope_after(counter) == voice.envelope.tick(counter),
        voice.decoder.sample_index == SAMPLES_PER_BLOCK - 1 ==> ({
            let after = voice.step(image, source_dir);
            let loop_point = source_loop_address(image, source_dir, voice.source);
            &&& after.loop_start_address == loop_point
            &&& after.sample_start_address == source_start_address(
                image,
                source_dir,
                voice.source,
            )
            &&& after.sample_address == wrap_address(loop_point + 9)
            &&& after.decoder == state_after_read(
                voice.with_next_sample().decoder,
                block_at(image, loop_point),
            )
            &&& after.current_sample == voice.next_sample
        }),
        voice.decoder.sample_index < SAMPLES_PER_BLOCK - 1 ==> voice.step(image, source_dir)
            == voice.with_next_sample(),
{
}

fn shape_sample(sample: i32, level: i32) -> (shaped: i32)
    requires
        MIN_SAMPLE <= sample <= MAX_SAMPLE,
        0 <= level <= 0x7ff,
    ensures
        shaped == shaped_sample(sample as int, level as int),
        -32752 <= shaped <= 32752,
{
    assert(-0x400_0000 <= sample * level <= 0x400_0000 && -32752 <= (sample * level) / 2048
        <= 32752) by (nonlinear_arith)
        requires
            -32768 <= sample <= 32767,
            0 <= level <= 0x7ff,
    ;
    let product: i32 = sample * level;
    proof {
        lemma_shift_right(product);
    }
    mask_even(product >> 11u32)
}

impl Voice {
    /// The voice's state is consistent.
    pub open spec fn wf(&self) -> bool {
        self@.valid()
    }

    /// The voice that `new` makes, as plain values.
    pub open spec fn new_model() -> VoiceModel {
        VoiceModel {
            envelope: Envelope::new_model(),
            vol_left: 0,
            vol_right: 0,
            pitch_low: 0,
            pitch_high: 0,
            source: 0,
            pitch_mod: false,
            noise_on: false,
            echo_on: false,
            sample_start_address: 0,
            loop_start_address: 0,
            decoder: BrrBlockDecoder::new_model(),
            sample_address: 0,
            sample_pos: 0,
            current_sample: 0,
            next_sample: 0,
        }
    }

    /// A silent voice: all registers clear, the envelope released at level
    /// 0, and a block of silence buffered.
    pub fn new() -> (voice: Voice)
        ensures
            voice.wf(),
            voice@ == Self::new_model(),
    {
        Voice {
            envelope: Envelope::new(),
            vol_left: 0,
            vol_right: 0,
            pitch_low: 0,
            pitch_high: 0,
            source: 0,
            pitch_mod: false,
            noise_on: false,
            echo_on: false,
            sample_start_address: 0,
            loop_start_address: 0,
            brr_block_decoder: BrrBlockDecoder::new(),
            sample_address: 0,
            sample_pos: 0,
            current_sample: 0,
            next_sample: 0,
        }
    }

    /// Renders one tick.
    ///
    /// `last_voice_out` is the raw output that the voice before this one
    /// produced on this same tick (0 for the first voice), `noise` the
    /// shared noise sample, which takes the place of the voice's own sample
    /// in noise mode, and `counter` the shared counter.
    pub fn render_sample(
        &mut self,
        memory: &Memory,
        source_dir: u8,
        counter: u16,
        last_voice_out: i32,
        noise: i32,
    ) -> (output: VoiceOutput)
        requires
            old(self).wf(),
            memory.wf(),
            MIN_SAMPLE <= noise <= MAX_SAMPLE,
        ensures
            output == old(self)@.output(counter as int, noise as int),
            output.last_voice_out == old(self)@.raw_output(counter as int, noise as int),
            output.left_out == scale_by_volume(output.last_voice_out as int, old(self)@.vol_left),
            output.right_out == scale_by_volume(
                output.last_voice_out as int,
                old(self)@.vol_right,
            ),
            MIN_SAMPLE <= output.last_voice_out <= MAX_SAMPLE,
            MIN_SAMPLE <= output.left_out <= MAX_SAMPLE,
            MIN_SAMPLE <= output.right_out <= MAX_SAMPLE,
            final(self)@ == old(self)@.after_render(
                memory@,
                source_dir,
                counter as int,
                last_voice_out as int,
            ),
            final(self).wf(),
    {
        let pitch = self.effective_pitch(last_voice_out);
        let source = self.source_sample(noise);

        self.envelope.tick(counter);
        let sample = shape_sample(source, self.envelope.level());

        if self.brr_block_decoder.is_end() && !self.brr_block_decoder.is_looping() {
            self.envelope.key_off();
            self.envelope.set_level(0);
        }

        self.advance(memory, source_dir, pitch);
        proof {
            let turned = VoiceModel { envelope: old(self)@.envelope_after(counter as int), ..old(self)@ };
            let moved = turned.sample_pos + pitch;
            lemma_steps_keep_registers(
                VoiceModel { sample_pos: moved % (SAMPLE_STEP as int), ..turned },
                memory@,
                source_dir,
                (moved / (SAMPLE_STEP as int)) as nat,
            );
        }

        VoiceOutput {
            left_out: multiply_volume(sample, self.vol_left),
            right_out: multiply_volume(sample, self.vol_right),
            last_voice_out: sample,
        }
    }

    /// Starts a note from the sample that the source register selects.
    pub fn key_on(&mut self, memory: &Memory, source_dir: u8)
        requires
            old(self).wf(),
            memory.wf(),
        ensures
            final(self)@ == old(self)@.after_key_on(memory@, source_dir),
            final(self).wf(),
    {
        self.read_entry(memory, source_dir);
        self.sample_address = self.sample_start_address;
        self.brr_block_decoder.reset(0, 0);
        self.read_next_block(memory);
        self.sample_pos = 0;
        self.next_sample = 0;
        self.read_next_sample();
        self.envelope.key_on();
    }

    /// Ends a note: the envelope starts its release, and playback goes on
    /// while the level falls.
    pub fn key_off(&mut self)
        requires
            old(self).wf(),
        ensures
            final(self)@ == old(self)@.after_key_off(),
            final(self).wf(),
    {
        self.envelope.key_off();
    }

    /// Writes one of the voice's eight registers.
    pub fn write_register(&mut self, index: u8, value: u8)
        requires
            index < VOICE_REGISTERS,
        ensures
            final(self)@ == old(self)@.with_register(index as int, value),
            old(self).wf() ==> final(self).wf(),
    {
        match index {
            0 => self.vol_left = value,
            1 => self.vol_right = value,
            2 => self.pitch_low = value,
            3 => self.pitch_high = value,
            4 => self.source = value,
            5 => self.envelope.set_adsr0(value),
            6 => self.envelope.set_adsr1(value),
            _ => self.envelope.set_gain(value),
        }
    }

    /// Reads one of the voice's eight registers.
    pub fn read_register(&self, index: u8) -> (value: u8)
        requires
            index < VOICE_REGISTERS,
        ensures
            value == self@.register(index as int),
    {
        match index {
            0 => self.vol_left,
            1 => self.vol_right,
            2 => self.pitch_low,
            3 => self.pitch_high,
            4 => self.source,
            5 => self.envelope.adsr0(),
            6 => self.envelope.adsr1(),
            _ => self.envelope.gain(),
        }
    }

    /// Switches pitch modulation by the previous voice's output on or off.
    pub fn set_pitch_mod(&mut self, enabled: bool)
        ensures
            final(self)@ == (VoiceModel { pitch_mod: enabled, ..old(self)@ }),
            old(self).wf() ==> final(self).wf(),
    {
        self.pitch_mod = enabled;
    }

    /// Switches noise playback on or off.
    pub fn set_noise_on(&mut self, enabled: bool)
        ensures
            final(self)@ == (VoiceModel { noise_on: enabled, ..old(self)@ }),
            old(self).wf() ==> final(self).wf(),
    {
        self.noise_on = enabled;
    }

    /// Switches the voice's feed into the echo delay line on or off.
    pub fn set_echo_on(&mut self, enabled: bool)
        ensures
            final(self)@ == (VoiceModel { echo_on: enabled, ..old(self)@ }),
            old(self).wf() ==> final(self).wf(),
    {
        self.echo_on = enabled;
    }

    /// Whether the voice feeds the echo delay line.
    pub fn echo_on(&self) -> (enabled: bool)
        ensures
            enabled == self@.echo_on,
    {
        self.echo_on
    }

    /// The envelope's current level.
    pub fn envelope_level(&self) -> (level: i32)
        ensures
            level == self@.envelope.level,
    {
        self.envelope.level()
    }

    fn effective_pitch(&self, last_voice_out: i32) -> (pitch: i32)
        ensures
            pitch == self@.effective_pitch(last_voice_out as int),
            0 <= pitch <= MAX_PITCH,
    {
        let high = self.pitch_high;
        let low = self.pitch_low;
        assert((((high as i32) << 8u32) | (low as i32)) as int == high as int * 256 + low as int)
            by (bit_vector);
        let register: i32 = ((high as i32) << 8u32) | (low as i32);
        let mut pitch: i64 = register as i64;
        if self.pitch_mod {
            let factor: i64 = (last_voice_out >> 5u32) as i64;
            proof {
                lemma_shift_right(last_voice_out);
            }
            assert(-0x1_0000_0000_0000 <= factor * pitch <= 0x1_0000_0000_0000)
                by (nonlinear_arith)
                requires
                    -0x8000_0000 <= factor <= 0x8000_0000,
                    0 <= pitch <= 0xffff,
            ;
            let product: i64 = factor * pitch;
            assert((product >> 10u32) as int == product as int / 1024) by (bit_vector);
            pitch = pitch + (product >> 10u32);
        }
        if pitch < 0 {
            0
        } else if pitch > MAX_PITCH as i64 {
            MAX_PITCH
        } else {
            pitch as i32
        }
    }

    fn source_sample(&self, noise: i32) -> (sample: i32)
        requires
            self.wf(),
            MIN_SAMPLE <= noise <= MAX_SAMPLE,
        ensures
            sample == self@.source_sample(noise as int),
            MIN_SAMPLE <= sample <= MAX_SAMPLE,
    {
        if self.noise_on {
            noise
        } else {
            let toward_next: i32 = self.sample_pos;
            let toward_current: i32 = SAMPLE_STEP - toward_next;
            let current = self.current_sample;
            let next = self.next_sample;
            assert(-0x800_0000 <= current * toward_current <= 0x800_0000 && -0x800_0000 <= next * toward_next
                <= 0x800_0000) by (nonlinear_arith)
                requires
                    -32768 <= current <= 32767,
                    -32768 <= next <= 32767,
                    0 <= toward_next <= 0x1000,
                    0 <= toward_current <= 0x1000,
            ;
            let blend: i32 = current * toward_current + next * toward_next;
            proof {
                lemma_shift_right(blend);
            }
            mask_even(clamp(blend >> 12u32))
        }
    }

    fn advance(&mut self, memory: &Memory, source_dir: u8, pitch: i32)
        requires
            old(self).wf(),
            memory.wf(),
            0 <= pitch <= MAX_PITCH,
        ensures
            final(self)@ == old(self)@.moved_on(memory@, source_dir, pitch as int),
            final(self).wf(),
    {
        let ghost fraction: int = (self.sample_pos + pitch) % (SAMPLE_STEP as int);
        let ghost goal = old(self)@.moved_on(memory@, source_dir, pitch as int);
        self.sample_pos = self.sample_pos + pitch;
        while self.sample_pos >= SAMPLE_STEP
            invariant
                memory.wf(),
                (VoiceModel { sample_pos: 0, ..self@ }).valid(),
                0 <= self.sample_pos < 5 * SAMPLE_STEP,
                self.sample_pos % SAMPLE_STEP == fraction,
                (VoiceModel { sample_pos: fraction, ..self@ }).steps(
                    memory@,
                    source_dir,
                    (self.sample_pos / SAMPLE_STEP) as nat,
                ) == goal,
            decreases self.sample_pos,
        {
            let ghost before = VoiceModel { sample_pos: fraction, ..self@ };
            let ghost count = self.sample_pos / SAMPLE_STEP;
            assert(before.steps(memory@, source_dir, count as nat) == before.step(
                memory@,
                source_dir,
            ).steps(memory@, source_dir, (count - 1) as nat));
            self.sample_pos -= SAMPLE_STEP;
            self.read_next_sample();

            if self.brr_block_decoder.is_finished() {
                if self.brr_block_decoder.is_end() && self.brr_block_decoder.is_looping() {
                    self.read_entry(memory, source_dir);
                    self.sample_address = self.loop_start_address;
                }
                self.read_next_block(memory);
            }
            assert((VoiceModel { sample_pos: fraction, ..self@ }) == before.step(
                memory@,
                source_dir,
            ));
        }
        assert((VoiceModel { sample_pos: fraction, ..self@ }) == self@);
    }

    fn read_entry(&mut self, memory: &Memory, source_dir: u8)
        requires
            memory.wf(),
        ensures
            final(self)@ == old(self)@.with_entry(memory@, source_dir),
            final(self)@.sample_start_address < 0x10000,
            final(self)@.loop_start_address < 0x10000,
    {
        self.sample_start_address = read_source_dir_start_address(memory, source_dir, self.source);
        self.loop_start_address = read_source_dir_loop_address(memory, source_dir, self.source);
    }

    fn read_next_block(&mut self, memory: &Memory)
        requires
            memory.wf(),
            old(self)@.sample_address < 0x10000,
        ensures
            final(self)@ == old(self)@.with_next_block(memory@),
            final(self)@.decoder.valid(),
            !final(self)@.decoder.finished(),
    {
        let mut buf: [u8; 9] = [0; 9];
        let mut i: usize = 0;
        while i < 9
            invariant
                i <= 9,
                memory.wf(),
                self.sample_address < 0x10000,
                forall|k: int| 0 <= k < i ==> buf@[k] == byte_at(memory@, self.sample_address + k),
            decreases 9 - i,
        {
            buf[i] = memory.read_byte(self.sample_address + (i as u32));
            i += 1;
        }
        assert(buf@ =~= block_at(memory@, self.sample_address as int));
        self.brr_block_decoder.read(&buf);
        self.sample_address = (self.sample_address + 9) % 0x10000;
    }

    fn read_next_sample(&mut self)
        requires
            old(self)@.decoder.valid(),
            !old(self)@.decoder.finished(),
        ensures
            final(self)@ == old(self)@.with_next_sample(),
            final(self)@.decoder.valid(),
    {
        self.current_sample = self.next_sample;
        self.next_sample = self.brr_block_decoder.read_next_sample() as i32;
    }
}

} // verus!
