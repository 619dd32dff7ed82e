//! The per-voice envelope generator.
//!
//! The envelope holds an amplitude level in `0..=2047` and is stepped once
//! for every rendered sample. While the envelope is not releasing, the top
//! bit of the first envelope register chooses who drives the level: the
//! attack/decay/sustain sequence, or the gain register. A release overrides
//! both and cannot be left except by a new key-on.

use crate::dsp_helpers::lemma_shift_right;
use crate::rate_table::{counter_fires, rate_fires};
use vstd::prelude::*;

verus! {

/// Largest envelope level.
pub const MAX_LEVEL: i32 = 0x7ff;

/// Amount by which a release lowers the level on every tick.
pub const RELEASE_STEP: i32 = 8;

/// Number of ticks after which a release has reached level 0 from any level.
pub const RELEASE_TICKS: usize = 256;

/// Stage of the attack/decay/sustain/release sequence.
#[derive(Clone, Copy, PartialEq, Eq, Structural, Debug)]
pub enum Phase {
    Attack,
    Decay,
    Sustain,
    Release,
}

/// What currently drives the level.
#[derive(Clone, Copy, PartialEq, Eq, Structural, Debug)]
pub enum EnvelopeState {
    Attack,
    Decay,
    Sustain,
    Release,
    DirectGain,
}

/// An envelope as plain values.
pub struct EnvelopeModel {
    /// First envelope register: bit 7 enables the sequence, bits 4 to 6 hold
    /// the decay rate and bits 0 to 3 the attack rate.
    pub adsr0: u8,
    /// Second envelope register: bits 5 to 7 hold the sustain level and bits
    /// 0 to 4 the sustain rate.
    pub adsr1: u8,
    /// Gain register, in force while the sequence is disabled.
    pub gain: u8,
    /// Stage of the sequence.
    pub phase: Phase,
    /// Current level.
    pub level: int,
    /// The level that the last tick computed before limiting it.
    pub hidden_level: int,
}

/// One exponential step down: the level loses one, and then one more for
/// every 256 that remain.
pub open spec fn exponential_step(level: int) -> int {
    (level - 1) - (level - 1) / 256
}

/// `level` limited to `0..=MAX_LEVEL`.
pub open spec fn limit_level(level: int) -> int {
    if level < 0 {
        0
    } else if level > MAX_LEVEL {
        MAX_LEVEL as int
    } else {
        level
    }
}

impl EnvelopeModel {
    /// The level is in range, and so is what the last tick computed.
    pub open spec fn valid(self) -> bool {
        &&& 0 <= self.level <= MAX_LEVEL
        &&& -0x20 <= self.hidden_level <= 0xbff
    }

    /// Whether the attack/decay/sustain sequence drives the level.
    pub open spec fn adsr_enabled(self) -> bool {
        self.adsr0 >= 0x80
    }

    /// What currently drives the level.
    pub open spec fn state(self) -> EnvelopeState {
        match self.phase {
            Phase::Release => EnvelopeState::Release,
            Phase::Attack => if self.adsr_enabled() {
                EnvelopeState::Attack
            } else {
                EnvelopeState::DirectGain
            },
            Phase::Decay => if self.adsr_enabled() {
                EnvelopeState::Decay
            } else {
                EnvelopeState::DirectGain
            },
            Phase::Sustain => if self.adsr_enabled() {
                EnvelopeState::Sustain
            } else {
                EnvelopeState::DirectGain
            },
        }
    }

    /// Rate of the attack stage.
    pub open spec fn attack_rate(self) -> int {
        (self.adsr0 as int % 16) * 2 + 1
    }

    /// Rate of the decay stage.
    pub open spec fn decay_rate(self) -> int {
        ((self.adsr0 as int / 16) % 8) * 2 + 16
    }

    /// Rate of the sustain stage.
    pub open spec fn sustain_rate(self) -> int {
        self.adsr1 as int % 32
    }

    /// The register whose top three bits are compared with the level to end
    /// the decay stage.
    pub open spec fn control(self) -> u8 {
        if self.adsr_enabled() {
            self.adsr1
        } else {
            self.gain
        }
    }

    /// The rate at which the level is updated outside a release.
    pub open spec fn rate(self) -> int {
        if self.adsr_enabled() {
            match self.phase {
                Phase::Attack => self.attack_rate(),
                Phase::Decay => self.decay_rate(),
                _ => self.sustain_rate(),
            }
        } else if self.gain < 0x80 {
            31
        } else {
            self.gain as int % 32
        }
    }

    /// The level that a tick outside a release computes, before limiting.
    ///
    /// Attack adds 32, or 1024 at the fastest rate. Decay and sustain take
    /// one exponential step down. A gain register below 128 sets the level
    /// to sixteen times its value; above that its bits 5 and 6 choose a
    /// linear fall by 32, an exponential step down, a linear rise by 32, or
    /// a rise that slows from 32 to 8 once the last unlimited level lay
    /// outside `0..0x600`.
    pub open spec fn target_level(self) -> int {
        if self.adsr_enabled() {
            if self.phase == Phase::Attack {
                self.level + if self.attack_rate() < 31 {
                    0x20int
                } else {
                    0x400int
                }
            } else {
                exponential_step(self.level)
            }
        } else {
            let mode = self.gain as int / 32;
            if mode < 4 {
                self.gain as int * 16
            } else if mode == 4 {
                self.level - 0x20
            } else if mode == 5 {
                exponential_step(self.level)
            } else if mode == 7 && !(0 <= self.hidden_level < 0x600) {
                self.level + 8
            } else {
                self.level + 0x20
            }
        }
    }

    /// The stage after a tick outside a release.
    ///
    /// Decay ends when the top three bits of the unlimited level equal the
    /// control register's top three bits. Attack ends when the unlimited
    /// level leaves the range. Neither waits for the rate to fire.
    pub open spec fn next_phase(self) -> Phase {
        let target = self.target_level();
        if self.phase == Phase::Decay && target / 256 == self.control() as int / 32 {
            Phase::Sustain
        } else if self.phase == Phase::Attack && !(0 <= target <= MAX_LEVEL) {
            Phase::Decay
        } else {
            self.phase
        }
    }

    /// The envelope one tick later, when the shared counter stands at
    /// `counter`.
    ///
    /// A release lowers the level by `RELEASE_STEP` on every tick, down to
    /// 0. Any other state moves the stage on and, if its rate fires, the
    /// level too.
    pub open spec fn tick(self, counter: int) -> EnvelopeModel {
        if self.phase == Phase::Release {
            EnvelopeModel { level: limit_level(self.level - RELEASE_STEP), ..self }
        } else {
            EnvelopeModel {
                phase: self.next_phase(),
                hidden_level: self.target_level(),
                level: if rate_fires(counter, self.rate()) {
                    limit_level(self.target_level())
                } else {
                    self.level
                },
                ..self
            }
        }
    }

    /// The envelope after one tick for each counter value in `counters`, in
    /// order.
    pub open spec fn ticks(self, counters: Seq<int>) -> EnvelopeModel
        decreases counters.len(),
    {
        if counters.len() == 0 {
            self
        } else {
            self.ticks(counters.drop_last()).tick(counters.last())
        }
    }

    /// The envelope after a key-on: attack from level 0.
    pub open spec fn key_on(self) -> EnvelopeModel {
        EnvelopeModel { phase: Phase::Attack, level: 0, hidden_level: 0, ..self }
    }

    /// The envelope after a key-off: releasing from the current level.
    pub open spec fn key_off(self) -> EnvelopeModel {
        EnvelopeModel { phase: Phase::Release, ..self }
    }
}

/// Envelope generator of one voice.
pub struct Envelope {
    adsr0: u8,
    adsr1: u8,
    gain: u8,
    phase: Phase,
    level: i32,
    hidden_level: i32,
}

impl View for Envelope {
    type V = EnvelopeModel;

    closed spec fn view(&self) -> EnvelopeModel {
        EnvelopeModel {
            adsr0: self.adsr0,
            adsr1: self.adsr1,
            gain: self.gain,
            phase: self.phase,
            level: self.level as int,
            hidden_level: self.hidden_level as int,
        }
    }
}

fn exponential_step_down(level: i32) -> (stepped: i32)
    requires
        0 <= level <= MAX_LEVEL,
    ensures
        stepped == exponential_step(level as int),
        0 <= stepped <= level,
{
    let lowered: i32 = level - 1;
    proof {
        lemma_shift_right(lowered);
    }
    lowered - (lowered >> 8u32)
}

impl Envelope {
    /// The envelope's state is consistent.
    pub open spec fn wf(&self) -> bool {
        self@.valid()
    }

    /// The envelope that `new` makes, as plain values: released at level 0
    /// with all registers clear.
    pub open spec fn new_model() -> EnvelopeModel {
        EnvelopeModel {
            adsr0: 0,
            adsr1: 0,
            gain: 0,
            phase: Phase::Release,
            level: 0,
            hidden_level: 0,
        }
    }

    /// A released envelope at level 0 with all registers clear.
    pub fn new() -> (envelope: Envelope)
        ensures
            envelope.wf(),
            envelope@ == Self::new_model(),
    {
        Envelope { adsr0: 0, adsr1: 0, gain: 0, phase: Phase::Release, level: 0, hidden_level: 0 }
    }

    /// Starts a note: the level drops to 0 and the sequence enters its
    /// attack.
    pub fn key_on(&mut self)
        ensures
            final(self)@ == old(self)@.key_on(),
            final(self).wf(),
    {
        self.phase = Phase::Attack;
        self.level = 0;
        self.hidden_level = 0;
    }

    /// Ends a note: whatever the state, the release begins from the current
    /// level.
    pub fn key_off(&mut self)
        ensures
            final(self)@ == old(self)@.key_off(),
            old(self).wf() ==> final(self).wf(),
    {
        self.phase = Phase::Release;
    }

    /// Steps the envelope by one sample while the shared counter stands at
    /// `counter`.
    pub fn tick(&mut self, counter: u16)
        requires
            old(self).wf(),
        ensures
            final(self)@ == old(self)@.tick(counter as int),
            final(self).wf(),
    {
        if self.phase == Phase::Release {
            let lowered: i32 = self.level - RELEASE_STEP;
            self.level = if lowered < 0 {
                0
            } else {
                lowered
            };
            return ;
        }
        let adsr0 = self.adsr0;
        let adsr1 = self.adsr1;
        let gain = self.gain;
        assert(((adsr0 & 0x80 != 0) <==> adsr0 >= 0x80)
            && ((adsr0 & 0x0f) * 2 + 1) as int == (adsr0 as int % 16) * 2 + 1
            && (((adsr0 >> 3u8) & 0x0e) + 0x10) as int == ((adsr0 as int / 16) % 8) * 2 + 16
            && (adsr1 & 0x1f) as int == adsr1 as int % 32
            && (adsr1 >> 5u8) as int == adsr1 as int / 32
            && (gain & 0x1f) as int == gain as int % 32
            && (gain >> 5u8) as int == gain as int / 32) by (bit_vector);
        let adsr_enabled = adsr0 & 0x80 != 0;
        let control: u8 = if adsr_enabled {
            adsr1
        } else {
            gain
        };
        let target: i32;
        let rate: u8;
        if adsr_enabled {
            if self.phase == Phase::Attack {
                rate = (adsr0 & 0x0f) * 2 + 1;
                target = self.level + if rate < 31 {
                    0x20
                } else {
                    0x400
                };
            } else {
                target = exponential_step_down(self.level);
                rate = if self.phase == Phase::Decay {
                    ((adsr0 >> 3u8) & 0x0e) + 0x10
                } else {
                    adsr1 & 0x1f
                };
            }
        } else {
            let mode: u8 = gain >> 5u8;
            if mode < 4 {
                target = gain as i32 * 16;
                rate = 31;
            } else {
                rate = gain & 0x1f;
                if mode == 4 {
                    target = self.level - 0x20;
                } else if mode == 5 {
                    target = exponential_step_down(self.level);
                } else if mode == 7 && !(0 <= self.hidden_level && self.hidden_level < 0x600) {
                    target = self.level + 8;
                } else {
                    target = self.level + 0x20;
                }
            }
        }
        proof {
            lemma_shift_right(target);
            assert((control >> 5u8) as int == control as int / 32) by (bit_vector);
        }
        if self.phase == Phase::Decay && (target >> 8u32) == (control >> 5u8) as i32 {
            self.phase = Phase::Sustain;
        }
        self.hidden_level = target;
        let mut limited: i32 = target;
        if target < 0 || target > MAX_LEVEL {
            limited = if target < 0 {
                0
            } else {
                MAX_LEVEL
            };
            if self.phase == Phase::Attack {
                self.phase = Phase::Decay;
            }
        }
        if counter_fires(counter, rate) {
            self.level = limited;
        }
    }

    /// The current level, in `0..=MAX_LEVEL`.
    pub fn level(&self) -> (level: i32)
        ensures
            level == self@.level,
    {
        self.level
    }

    /// The stage of the sequence. It moves on even while the gain register
    /// drives the level, so that the sequence resumes where it has got to.
    pub fn phase(&self) -> (phase: Phase)
        ensures
            phase == self@.phase,
    {
        self.phase
    }

    /// What currently drives the level.
    pub fn state(&self) -> (state: EnvelopeState)
        ensures
            state == self@.state(),
    {
        let adsr0 = self.adsr0;
        assert((adsr0 & 0x80 != 0) <==> adsr0 >= 0x80) by (bit_vector);
        let adsr_enabled = adsr0 & 0x80 != 0;
        match self.phase {
            Phase::Release => EnvelopeState::Release,
            Phase::Attack => if adsr_enabled {
                EnvelopeState::Attack
            } else {
                EnvelopeState::DirectGain
            },
            Phase::Decay => if adsr_enabled {
                EnvelopeState::Decay
            } else {
                EnvelopeState::DirectGain
            },
            Phase::Sustain => if adsr_enabled {
                EnvelopeState::Sustain
            } else {
                EnvelopeState::DirectGain
            },
        }
    }

    /// The first envelope register.
    pub fn adsr0(&self) -> (value: u8)
        ensures
            value == self@.adsr0,
    {
        self.adsr0
    }

    /// The second envelope register.
    pub fn adsr1(&self) -> (value: u8)
        ensures
            value == self@.adsr1,
    {
        self.adsr1
    }

    /// The gain register.
    pub fn gain(&self) -> (value: u8)
        ensures
            value == self@.gain,
    {
        self.gain
    }

    /// Forces the level, leaving everything else as it is.
    pub fn set_level(&mut self, level: i32)
        requires
            0 <= level <= MAX_LEVEL,
        ensures
            final(self)@ == (EnvelopeModel { level: level as int, ..old(self)@ }),
            old(self).wf() ==> final(self).wf(),
    {
        self.level = level;
    }

    /// Writes the first envelope register.
    pub fn set_adsr0(&mut self, value: u8)
        ensures
            final(self)@ == (EnvelopeModel { adsr0: value, ..old(self)@ }),
            old(self).wf() ==> final(self).wf(),
    {
        self.adsr0 = value;
    }

    /// Writes the second envelope register.
    pub fn set_adsr1(&mut self, value: u8)
        ensures
            final(self)@ == (EnvelopeModel { adsr1: value, ..old(self)@ }),
            old(self).wf() ==> final(self).wf(),
    {
        self.adsr1 = value;
    }

    /// Writes the gain register.
    pub fn set_gain(&mut self, value: u8)
        ensures
            final(self)@ == (EnvelopeModel { gain: value, ..old(self)@ }),
            old(self).wf() ==> final(self).wf(),
    {
        self.gain = value;
    }
}

/// The level never falls during an attack and never rises during decay,
/// sustain or release.
pub proof fn lemma_level_monotone(envelope: EnvelopeModel, counter: int)
    requires
        envelope.valid(),
    ensures
        envelope.state() == EnvelopeState::Attack ==> envelope.tick(counter).level
            >= envelope.level,
        envelope.state() == EnvelopeState::Decay || envelope.state() == EnvelopeState::Sustain
            || envelope.state() == EnvelopeState::Release ==> envelope.tick(counter).level
            <= envelope.level,
        envelope.tick(counter).valid(),
{
}

/// A tick moves the state along the sequence only: an attack stays or
/// turns to decay, a decay stays or turns to sustain, and neither sustain
/// nor release is ever left by a tick. The gain register stays in charge
/// for as long as the registers leave it so.
pub proof fn lemma_tick_transitions(envelope: EnvelopeModel, counter: int)
    ensures
        ({
            let before = envelope.state();
            let after = envelope.tick(counter).state();
            &&& before == EnvelopeState::Attack ==> after == EnvelopeState::Attack || after
                == EnvelopeState::Decay
            &&& before == EnvelopeState::Decay ==> after == EnvelopeState::Decay || after
                == EnvelopeState::Sustain
            &&& before == EnvelopeState::Sustain ==> after == EnvelopeState::Sustain
            &&& before == EnvelopeState::Release ==> after == EnvelopeState::Release
            &&& before == EnvelopeState::DirectGain ==> after == EnvelopeState::DirectGain
        }),
        envelope.tick(counter).adsr0 == envelope.adsr0,
        envelope.tick(counter).adsr1 == envelope.adsr1,
        envelope.tick(counter).gain == envelope.gain,
{
}

/// A key-on leads to the attack, or to the gain register where the
/// sequence is disabled, at level 0; a key-off leads to the release from
/// any state and keeps the level.
pub proof fn lemma_key_transitions(envelope: EnvelopeModel)
    ensures
        envelope.key_on().level == 0,
        envelope.key_on().phase == Phase::Attack,
        envelope.adsr_enabled() ==> envelope.key_on().state() == EnvelopeState::Attack,
        !envelope.adsr_enabled() ==> envelope.key_on().state() == EnvelopeState::DirectGain,
        envelope.key_off().state() == EnvelopeState::Release,
        envelope.key_off().level == envelope.level,
{
}

/// A release stays a release and after `n` ticks has lowered the level by
/// `n` times `RELEASE_STEP`, or to 0 if that is less, whatever the counter
/// does.
pub proof fn lemma_release_level(envelope: EnvelopeModel, counters: Seq<int>)
    requires
        envelope.valid(),
        envelope.state() == EnvelopeState::Release,
    ensures
        envelope.ticks(counters).state() == EnvelopeState::Release,
        envelope.ticks(counters).level == limit_level(
            envelope.level - RELEASE_STEP * counters.len(),
        ),
    decreases counters.len(),
{
    if counters.len() > 0 {
        lemma_release_level(envelope, counters.drop_last());
    }
}

/// A release reaches level 0 after `RELEASE_TICKS` ticks at the latest,
/// from any level and whatever the counter does, and then stays there.
pub proof fn lemma_release_reaches_zero(envelope: EnvelopeModel, counters: Seq<int>)
    requires
        envelope.valid(),
        envelope.state() == EnvelopeState::Release,
        counters.len() >= RELEASE_TICKS,
    ensures
        envelope.ticks(counters).level == 0,
        envelope.ticks(counters).state() == EnvelopeState::Release,
{
    lemma_release_level(envelope, counters);
}

/// A second key-off changes nothing.
pub proof fn lemma_key_off_idempotent(envelope: EnvelopeModel)
    ensures
        envelope.key_off().key_off() == envelope.key_off(),
        envelope.key_off().state() == EnvelopeState::Release,
{
}

} // verus!
