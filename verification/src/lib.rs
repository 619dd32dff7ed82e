//! Sample-accurate model of an eight-voice wavetable sound processor.
//!
//! From the leaves up: `brr_block_decoder` decodes compressed sample blocks,
//! `envelope` shapes a voice's amplitude, `voice` renders one channel, `dsp`
//! mixes the eight voices with the echo unit, and `apu` joins the mixer with
//! its memory image and sets it up from a `snapshot`. `ring_buffer` queues
//! rendered frames for the audio host. `memory`, `rate_table` and
//! `dsp_helpers` hold what the others share.

pub mod apu;
pub mod brr_block_decoder;
pub mod dsp;
pub mod dsp_helpers;
pub mod envelope;
pub mod memory;
pub mod rate_table;
pub mod ring_buffer;
pub mod snapshot;
pub mod voice;
