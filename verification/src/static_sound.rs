//! A self-contained playing sound: a frame buffer with its own position.
//!
//! Unlike an `Instance`, which refers to a sound held in the engine's
//! arena, a static sound carries its buffer and advances one engine tick
//! per `process` call at normal pitch.

use vstd::prelude::*;
use crate::frame::Frame;
use crate::sound::PlayableSettings;
use crate::sound::Sound;
use crate::sound::TrackIndex;

verus! {

/// Where a static sound stands in its life.
#[derive(Clone, Copy, Debug, PartialEq, Eq, Hash)]
pub enum PlaybackState {
    Playing,
    Pausing,
    Stopped,
}

/// A frame buffer playing from a position that one `process` call per
/// engine tick advances.
#[derive(Clone, Debug)]
pub struct StaticSound {
    buffer: Sound,
    state: PlaybackState,
    position_ticks: u64,
}

impl StaticSound {
    /// The inner buffer is well formed and the position is countable.
    pub open spec fn wf(self) -> bool {
        &&& self.buffer().wf()
        &&& self.position() < 0x8000_0000_0000_0000
    }

    /// The frame buffer and its sample rate.
    pub closed spec fn buffer(self) -> Sound {
        self.buffer
    }

    /// Where the sound stands in its life.
    pub closed spec fn state(self) -> PlaybackState {
        self.state
    }

    /// Engine ticks played so far.
    pub closed spec fn position(self) -> int {
        self.position_ticks as int
    }

    /// Build a playing static sound from raw frames.
    pub fn new(sample_rate: u32, samples: Vec<Frame>) -> (s: StaticSound)
        requires
            1 <= sample_rate <= 1000000,
            samples.len() <= 0xFFFF_FF00,
        ensures
            s.wf(),
            s.buffer().rate() == sample_rate,
            s.buffer().frame_seq() == samples@,
            s.state() == PlaybackState::Playing,
            s.position() == 0,
    {
        StaticSound {
            buffer: Sound::new(sample_rate, samples, PlayableSettings::base()),
            state: PlaybackState::Playing,
            position_ticks: 0,
        }
    }

    /// The buffer's own sample rate.
    pub fn sample_rate(&self) -> (r: u32)
        ensures
            r as int == self.buffer().rate(),
    {
        self.buffer.sample_rate()
    }

    /// The sound's duration in milliseconds, rounded down.
    pub fn duration_ms(&self) -> (d: u64)
        requires
            self.wf(),
        ensures
            d as int == self.buffer().frame_count() * 1000 / self.buffer().rate(),
    {
        self.buffer.duration_ms()
    }

    /// Frame `i` of the buffer, or silence outside it.
    pub fn frame_at_index(&self, i: usize) -> (f: Frame)
        ensures
            f.l() == self.buffer().sample_l(i as int),
            f.r() == self.buffer().sample_r(i as int),
    {
        self.buffer.frame_at(i)
    }

    /// The frame at `pos_num / pos_den` seconds, interpolated.
    pub fn frame_at_position(&self, pos_num: u64, pos_den: u64) -> (f: Frame)
        requires
            self.wf(),
            pos_den >= 1,
        ensures
            f.l() == self.buffer().played_l(pos_num as int, pos_den as int),
            f.r() == self.buffer().played_r(pos_num as int, pos_den as int),
    {
        self.buffer.get_frame_at_position(pos_num, pos_den)
    }

    /// The track this sound plays on.
    pub fn track(&self) -> (t: TrackIndex)
        ensures
            t == TrackIndex::Main,
    {
        TrackIndex::Main
    }

    /// One engine tick at `engine_rate` samples per second: hand back the
    /// frame at the current position, stop once the position has passed
    /// the end of the buffer, and advance.
    pub fn process(&mut self, engine_rate: u32) -> (out: Frame)
        requires
            old(self).wf(),
            1 <= engine_rate <= 1000000,
        ensures
            final(self).wf(),
            final(self).buffer() == old(self).buffer(),
            out.l() == old(self).buffer().played_l(old(self).position(), engine_rate as int),
            out.r() == old(self).buffer().played_r(old(self).position(), engine_rate as int),
            final(self).position() == if old(self).position() < 0x7FFF_FFFF_FFFF_FFFF {
                old(self).position() + 1
            } else {
                old(self).position()
            },
            final(self).state() == if old(self).position() * old(self).buffer().rate()
                > old(self).buffer().frame_count() * (engine_rate as int) {
                PlaybackState::Stopped
            } else {
                old(self).state()
            },
    {
        let out = self.buffer.get_frame_at_position(self.position_ticks, engine_rate as u64);
        proof {
            let p = self.position_ticks as int;
            let sr = self.buffer().rate();
            let fc = self.buffer().frame_count();
            let er = engine_rate as int;
            assert(p * sr < 10000000000000000000000000int && fc * er
                < 10000000000000000000000000int) by (nonlinear_arith)
                requires
                    0 <= p && p < 0x8000_0000_0000_0000,
                    1 <= sr <= 1000000,
                    0 <= fc <= 0xFFFF_FF00,
                    1 <= er <= 1000000,
            ;
        }
        let lhs: u128 = (self.position_ticks as u128) * (self.buffer.sample_rate() as u128);
        let rhs: u128 = (self.buffer.frame_count_exec() as u128) * (engine_rate as u128);
        if lhs > rhs {
            self.state = PlaybackState::Stopped;
        }
        if self.position_ticks < 0x7FFF_FFFF_FFFF_FFFF {
            self.position_ticks = self.position_ticks + 1;
        }
        out
    }

    /// Where the sound stands in its life, executable.
    pub fn state_exec(&self) -> (s: PlaybackState)
        ensures
            s == self.state(),
    {
        self.state
    }

    /// Whether the sound has finished playing.
    pub fn finished(&self) -> (b: bool)
        ensures
            b == (self.state() == PlaybackState::Stopped),
    {
        match self.state {
            PlaybackState::Stopped => true,
            _ => false,
        }
    }
}

} // verus!
