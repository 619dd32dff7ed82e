//! Decoder for nine-byte compressed sample blocks.
//!
//! A block is one header byte followed by sixteen signed four-bit residuals,
//! two per byte, high nibble first. Each residual is scaled by the header's
//! shift, corrected by one of four fixed predictors over the two samples
//! decoded before it, clamped, doubled and wrapped to sixteen bits. The two
//! history samples carry over from one block to the next.

use crate::dsp_helpers::{
    clamp, clamp16, lemma_shift_left_nibble, lemma_shift_right, wrap16, wrap_to_i16,
};
use vstd::arithmetic::power2::pow2;
use vstd::prelude::*;

verus! {

/// Number of samples that one block decodes to.
pub const SAMPLES_PER_BLOCK: usize = 16;

/// Number of bytes in one block.
pub const BLOCK_LEN: usize = 9;

/// What a decoder holds, as plain values.
pub struct BrrState {
    /// The last block read was marked as the end of its sample.
    pub is_end: bool,
    /// The last block read asked for playback to resume at the loop point.
    pub is_looping: bool,
    /// The sixteen samples of the last block read.
    pub samples: Seq<i16>,
    /// How many of `samples` have been handed out.
    pub sample_index: int,
    /// The most recently decoded sample.
    pub last_sample: i16,
    /// The sample decoded before `last_sample`.
    pub last_last_sample: i16,
}

impl BrrState {
    /// A block is buffered and the read position lies within it or at its end.
    pub open spec fn valid(self) -> bool {
        &&& self.samples.len() == SAMPLES_PER_BLOCK
        &&& 0 <= self.sample_index <= SAMPLES_PER_BLOCK
    }

    /// Every buffered sample has been handed out.
    pub open spec fn finished(self) -> bool {
        self.sample_index >= SAMPLES_PER_BLOCK
    }
}

/// The scale exponent in the header's top four bits.
pub open spec fn header_shift(header: u8) -> int {
    header as int / 16
}

/// The predictor number in header bits 2 and 3.
pub open spec fn header_filter(header: u8) -> int {
    (header as int / 4) % 4
}

/// Header bit 1: resume at the loop point after this block.
pub open spec fn header_loop_flag(header: u8) -> bool {
    (header as int / 2) % 2 == 1
}

/// Header bit 0: this block ends the sample.
pub open spec fn header_end_flag(header: u8) -> bool {
    header as int % 2 == 1
}

/// The `index`-th residual of a block as a signed value in `-8..=7`.
pub open spec fn nibble_at(block: Seq<u8>, index: int) -> int {
    let byte = block[1 + index / 2] as int;
    let raw = if index % 2 == 0 {
        byte / 16
    } else {
        byte % 16
    };
    if raw < 8 {
        raw
    } else {
        raw - 16
    }
}

/// A residual scaled by the header's shift.
///
/// Shifts up to 12 multiply by `2^shift` and halve. The three larger shifts
/// keep only the sign: a negative residual becomes -2048, any other 0.
pub open spec fn scaled_nibble(nibble: int, shift: int) -> int {
    if shift <= 12 {
        (nibble * pow2(shift as nat)) / 2
    } else if nibble < 0 {
        -2048
    } else {
        0
    }
}

/// The predictor's correction from the two previous samples.
///
/// `last` is the previous output and `last_last` the one before it. The
/// coefficients are 15/16 for predictor 1, 61/32 and -15/16 for predictor 2,
/// 115/64 and -13/16 for predictor 3, each term rounded down on its own.
pub open spec fn filter_prediction(filter: int, last: int, last_last: int) -> int {
    let older = last_last / 2;
    if filter == 1 {
        last / 2 + (-last) / 32
    } else if filter == 2 {
        last - older + older / 16 + (last * -3) / 64
    } else if filter == 3 {
        last - older + (last * -13) / 128 + (older * 3) / 16
    } else {
        0
    }
}

/// One decoded sample: scaled residual plus prediction, clamped to sixteen
/// bits, then doubled and wrapped to sixteen bits.
pub open spec fn decoded_sample(
    nibble: int,
    shift: int,
    filter: int,
    last: i16,
    last_last: i16,
) -> i16 {
    wrap16(
        2 * clamp16(
            scaled_nibble(nibble, shift) + filter_prediction(filter, last as int, last_last as int),
        ),
    ) as i16
}

/// The first `count` samples of a block, decoded from the given history.
pub open spec fn decoded_samples(block: Seq<u8>, last: i16, last_last: i16, count: nat) -> Seq<
    i16,
>
    decreases count,
{
    if count == 0 {
        Seq::empty()
    } else {
        let index = count - 1;
        let earlier = decoded_samples(block, last, last_last, index as nat);
        let previous = if index >= 1 {
            earlier[index - 1]
        } else {
            last
        };
        let before_previous = if index >= 2 {
            earlier[index - 2]
        } else if index == 1 {
            last
        } else {
            last_last
        };
        earlier.push(
            decoded_sample(
                nibble_at(block, index),
                header_shift(block[0]),
                header_filter(block[0]),
                previous,
                before_previous,
            ),
        )
    }
}

/// The sixteen samples of a block, decoded from the given history.
pub open spec fn decoded_block(block: Seq<u8>, last: i16, last_last: i16) -> Seq<i16> {
    decoded_samples(block, last, last_last, SAMPLES_PER_BLOCK as nat)
}

/// The decoder after reading `block` in state `state`.
pub open spec fn state_after_read(state: BrrState, block: Seq<u8>) -> BrrState {
    let samples = decoded_block(block, state.last_sample, state.last_last_sample);
    BrrState {
        is_end: header_end_flag(block[0]),
        is_looping: header_loop_flag(block[0]),
        samples,
        sample_index: 0,
        last_sample: samples[15],
        last_last_sample: samples[14],
    }
}

/// A prefix of the decoded samples has the length asked for, and a longer
/// prefix extends a shorter one.
pub proof fn lemma_decoded_samples_prefix(
    block: Seq<u8>,
    last: i16,
    last_last: i16,
    shorter: nat,
    longer: nat,
)
    requires
        shorter <= longer,
    ensures
        decoded_samples(block, last, last_last, longer).len() == longer,
        decoded_samples(block, last, last_last, shorter).len() == shorter,
        forall|i: int|
            0 <= i < shorter ==> decoded_samples(block, last, last_last, longer)[i]
                == decoded_samples(block, last, last_last, shorter)[i],
    decreases longer,
{
    if longer > 0 {
        if shorter < longer {
            lemma_decoded_samples_prefix(block, last, last_last, shorter, (longer - 1) as nat);
        } else {
            lemma_decoded_samples_prefix(
                block,
                last,
                last_last,
                (shorter - 1) as nat,
                (longer - 1) as nat,
            );
        }
    }
}

/// Decoding is a function of the block's bytes and the two history samples
/// alone: whatever else two decoders hold, from equal histories the same
/// block gives them the same samples, flags and new history.
pub proof fn lemma_read_depends_on_block_and_history(
    first: BrrState,
    second: BrrState,
    block: Seq<u8>,
)
    requires
        first.last_sample == second.last_sample,
        first.last_last_sample == second.last_last_sample,
    ensures
        state_after_read(first, block) == state_after_read(second, block),
        state_after_read(first, block).samples == decoded_block(
            block,
            first.last_sample,
            first.last_last_sample,
        ),
{
}

/// Block decoder with a two-sample rolling history.
pub struct BrrBlockDecoder {
    is_end: bool,
    is_looping: bool,
    samples: [i16; 16],
    sample_index: usize,
    last_sample: i16,
    last_last_sample: i16,
}

impl View for BrrBlockDecoder {
    type V = BrrState;

    closed spec fn view(&self) -> BrrState {
        BrrState {
            is_end: self.is_end,
            is_looping: self.is_looping,
            samples: self.samples@,
            sample_index: self.sample_index as int,
            last_sample: self.last_sample,
            last_last_sample: self.last_last_sample,
        }
    }
}

fn header_fields(header: u8) -> (fields: (u8, u8, bool, bool))
    ensures
        fields.0 == header_shift(header),
        fields.1 == header_filter(header),
        fields.2 == header_loop_flag(header),
        fields.3 == header_end_flag(header),
{
    assert((header >> 4u8) as int == header as int / 16
        && ((header >> 2u8) & 3) as int == (header as int / 4) % 4
        && ((header & 2 != 0) <==> (header as int / 2) % 2 == 1)
        && ((header & 1 != 0) <==> header as int % 2 == 1)) by (bit_vector);
    (header >> 4u8, (header >> 2u8) & 3, header & 2 != 0, header & 1 != 0)
}

fn read_nibble(block: &[u8; 9], index: usize) -> (nibble: i32)
    requires
        index < SAMPLES_PER_BLOCK,
    ensures
        nibble == nibble_at(block@, index as int),
        -8 <= nibble < 8,
{
    let byte: u8 = block[1 + index / 2];
    let raw: u8 = if index % 2 == 0 {
        byte / 16
    } else {
        byte % 16
    };
    if raw < 8 {
        raw as i32
    } else {
        raw as i32 - 16
    }
}

fn scale_nibble(nibble: i32, shift: u8) -> (scaled: i32)
    requires
        -8 <= nibble < 8,
        shift < 16,
    ensures
        scaled == scaled_nibble(nibble as int, shift as int),
        -16384 <= scaled <= 16384,
{
    if shift <= 12 {
        let shifted: i32 = nibble << shift;
        proof {
            lemma_shift_left_nibble(nibble, shift as u32);
            assert(nibble << shift == nibble << (shift as u32)) by (bit_vector);
            lemma_shift_right(shifted);
            let factor = pow2(shift as nat) as int;
            assert(-8 * 4096 <= nibble * factor <= 8 * 4096) by (nonlinear_arith)
                requires
                    -8 <= nibble < 8,
                    1 <= factor <= 4096,
            ;
        }
        shifted >> 1u32
    } else if nibble < 0 {
        -2048
    } else {
        0
    }
}

fn predict(filter: u8, last: i16, last_last: i16) -> (prediction: i32)
    requires
        filter < 4,
    ensures
        prediction == filter_prediction(filter as int, last as int, last_last as int),
        -200000 <= prediction <= 200000,
{
    let recent: i32 = last as i32;
    let older: i32 = (last_last as i32) >> 1u32;
    proof {
        lemma_shift_right(last_last as i32);
        lemma_shift_right(recent);
        lemma_shift_right((-recent) as i32);
        lemma_shift_right(older);
        lemma_shift_right((recent * -3) as i32);
        lemma_shift_right((recent * -13) as i32);
        lemma_shift_right((older * 3) as i32);
    }
    if filter == 1 {
        (recent >> 1u32) + ((-recent) >> 5u32)
    } else if filter == 2 {
        recent - older + (older >> 4u32) + ((recent * -3) >> 6u32)
    } else if filter == 3 {
        recent - older + ((recent * -13) >> 7u32) + ((older * 3) >> 4u32)
    } else {
        0
    }
}

fn decode_one(nibble: i32, shift: u8, filter: u8, last: i16, last_last: i16) -> (sample: i16)
    requires
        -8 <= nibble < 8,
        shift < 16,
        filter < 4,
    ensures
        sample == decoded_sample(nibble as int, shift as int, filter as int, last, last_last),
{
    let raw: i32 = scale_nibble(nibble, shift) + predict(filter, last, last_last);
    wrap_to_i16(clamp(raw) * 2)
}

impl BrrBlockDecoder {
    /// The decoder's state is consistent.
    pub open spec fn wf(&self) -> bool {
        self@.valid()
    }

    /// The decoder that `new` makes, as plain values: silent history and a
    /// block of silence buffered, none of it handed out.
    pub open spec fn new_model() -> BrrState {
        BrrState {
            is_end: false,
            is_looping: false,
            samples: Seq::new(16, |i: int| 0i16),
            sample_index: 0,
            last_sample: 0,
            last_last_sample: 0,
        }
    }

    /// A decoder with silent history and a block of silence buffered.
    pub fn new() -> (decoder: BrrBlockDecoder)
        ensures
            decoder.wf(),
            decoder@ == Self::new_model(),
    {
        let decoder = BrrBlockDecoder {
            is_end: false,
            is_looping: false,
            samples: [0; 16],
            sample_index: 0,
            last_sample: 0,
            last_last_sample: 0,
        };
        assert(decoder.samples@ =~= Seq::new(16, |i: int| 0i16));
        decoder
    }

    /// Seeds the two-sample history; the buffered block and the read
    /// position stay as they are.
    pub fn reset(&mut self, last_sample: i16, last_last_sample: i16)
        ensures
            final(self)@ == (BrrState { last_sample, last_last_sample, ..old(self)@ }),
    {
        self.last_sample = last_sample;
        self.last_last_sample = last_last_sample;
    }

    /// Decodes one block from the current history and rewinds the read
    /// position to the block's first sample.
    pub fn read(&mut self, block: &[u8; 9])
        ensures
            final(self)@ == state_after_read(old(self)@, block@),
            final(self).wf(),
    {
        let (shift, filter, is_looping, is_end) = header_fields(block[0]);
        self.is_end = is_end;
        self.is_looping = is_looping;
        let ghost first = self.last_sample;
        let ghost second = self.last_last_sample;
        let mut index: usize = 0;
        while index < 16
            invariant
                index <= 16,
                shift == header_shift(block[0]),
                filter == header_filter(block[0]),
                self.is_end == header_end_flag(block[0]),
                self.is_looping == header_loop_flag(block[0]),
                first == old(self).last_sample,
                second == old(self).last_last_sample,
                forall|i: int|
                    0 <= i < index ==> self.samples@[i] == decoded_samples(
                        block@,
                        first,
                        second,
                        index as nat,
                    )[i],
                self.last_sample == (if index >= 1 {
                    self.samples@[index - 1]
                } else {
                    first
                }),
                self.last_last_sample == (if index >= 2 {
                    self.samples@[index - 2]
                } else if index == 1 {
                    first
                } else {
                    second
                }),
            decreases 16 - index,
        {
            let nibble = read_nibble(block, index);
            let sample = decode_one(nibble, shift, filter, self.last_sample, self.last_last_sample);
            proof {
                lemma_decoded_samples_prefix(
                    block@,
                    first,
                    second,
                    index as nat,
                    (index + 1) as nat,
                );
            }
            self.samples[index] = sample;
            self.last_last_sample = self.last_sample;
            self.last_sample = sample;
            index += 1;
        }
        self.sample_index = 0;
        proof {
            lemma_decoded_samples_prefix(block@, first, second, 16, 16);
            assert(self.samples@ =~= decoded_block(block@, first, second));
        }
    }

    /// Hands out the next buffered sample.
    pub fn read_next_sample(&mut self) -> (sample: i16)
        requires
            old(self).wf(),
            !old(self)@.finished(),
        ensures
            sample == old(self)@.samples[old(self)@.sample_index],
            final(self)@ == (BrrState {
                sample_index: old(self)@.sample_index + 1,
                ..old(self)@
            }),
            final(self).wf(),
    {
        let sample = self.samples[self.sample_index];
        self.sample_index += 1;
        sample
    }

    /// Whether every buffered sample has been handed out, so that the next
    /// block must be read.
    pub fn is_finished(&self) -> (finished: bool)
        ensures
            finished == self@.finished(),
    {
        self.sample_index >= 16
    }

    /// Whether the last block read was marked as the end of its sample.
    pub fn is_end(&self) -> (flag: bool)
        ensures
            flag == self@.is_end,
    {
        self.is_end
    }

    /// Whether the last block read asked for playback to resume at the loop
    /// point.
    pub fn is_looping(&self) -> (flag: bool)
        ensures
            flag == self@.is_looping,
    {
        self.is_looping
    }
}

} // verus!
