//! In-memory sounds: immutable frame buffers with playback metadata.
//!
//! A sound holds stereo frames at its own sample rate. Positions into a
//! sound are exact rationals `num / den` in seconds, so fractional-position
//! lookup and its out-of-range behaviour are stated exactly.

use vstd::prelude::*;
use crate::frame::Frame;
use crate::frame::interp_channel;
use crate::frame::sat_amp;

verus! {

/// Handle to a sound held in the engine's arena.
#[derive(Clone, Copy, Debug, PartialEq, Eq, Structural)]
pub struct SoundId {
    pub index: u32,
    pub generation: u32,
}

/// The mixer track instances of a sound play on.
#[derive(Clone, Copy, Debug, PartialEq, Eq, Structural)]
pub enum TrackIndex {
    Main,
    Sub(u32),
}

/// Metadata attached to a sound. Times are in milliseconds.
#[derive(Clone, Copy, Debug, PartialEq, Eq, Structural)]
pub struct PlayableSettings {
    pub default_track: TrackIndex,
    pub semantic_duration_ms: Option<u64>,
    pub default_loop_start_ms: Option<u64>,
    pub cooldown_ms: Option<u64>,
}

impl PlayableSettings {
    /// Settings with no metadata, playing on the main track.
    pub fn base() -> (s: PlayableSettings)
        ensures
            s.default_track == TrackIndex::Main,
            s.semantic_duration_ms is None,
            s.default_loop_start_ms is None,
            s.cooldown_ms is None,
    {
        PlayableSettings {
            default_track: TrackIndex::Main,
            semantic_duration_ms: None,
            default_loop_start_ms: None,
            cooldown_ms: None,
        }
    }
}

/// A supported audio file format, recognised by file extension.
#[derive(Clone, Copy, Debug, PartialEq, Eq, Structural)]
pub enum AudioFormat {
    Mp3,
    Ogg,
    Flac,
    Wav,
}

/// Map a lower-case file extension to the format it names.
pub fn format_from_extension(ext: &Vec<u8>) -> (r: Option<AudioFormat>)
    ensures
        r == Some(AudioFormat::Mp3) <==> ext@ =~= seq![109u8, 112u8, 51u8],
        r == Some(AudioFormat::Ogg) <==> ext@ =~= seq![111u8, 103u8, 103u8],
        r == Some(AudioFormat::Flac) <==> ext@ =~= seq![102u8, 108u8, 97u8, 99u8],
        r == Some(AudioFormat::Wav) <==> ext@ =~= seq![119u8, 97u8, 118u8],
{
    if ext.len() == 3 {
        let a = ext[0];
        let b = ext[1];
        let c = ext[2];
        if a == 109 && b == 112 && c == 51 {
            Some(AudioFormat::Mp3)
        } else if a == 111 && b == 103 && c == 103 {
            Some(AudioFormat::Ogg)
        } else if a == 119 && b == 97 && c == 118 {
            Some(AudioFormat::Wav)
        } else {
            None
        }
    } else if ext.len() == 4 && ext[0] == 102 && ext[1] == 108 && ext[2] == 97 && ext[3] == 99 {
        Some(AudioFormat::Flac)
    } else {
        None
    }
}

/// A piece of audio the engine can play.
#[derive(Clone, Debug)]
pub struct Sound {
    sample_rate: u32,
    frames: Vec<Frame>,
    settings: PlayableSettings,
    cooldown_timer: u64,
}

impl Sound {
    /// The rate is sane and the buffer is indexable by `u32`.
    pub open spec fn wf(self) -> bool {
        &&& 1 <= self.rate() <= 1000000
        &&& self.frame_count() <= 0xFFFF_FF00
    }

    /// The sound's own sample rate.
    pub closed spec fn rate(self) -> int {
        self.sample_rate as int
    }

    /// The frame buffer.
    pub closed spec fn frame_seq(self) -> Seq<Frame> {
        self.frames@
    }

    /// How many frames the sound holds.
    pub open spec fn frame_count(self) -> int {
        self.frame_seq().len() as int
    }

    /// The sound's metadata.
    pub closed spec fn settings(self) -> PlayableSettings {
        self.settings
    }

    /// Ticks of cooldown still pending.
    pub closed spec fn cooldown(self) -> int {
        self.cooldown_timer as int
    }

    /// The left channel of frame `i`; silence outside the buffer.
    pub open spec fn sample_l(self, i: int) -> int {
        if 0 <= i < self.frame_count() {
            self.frame_seq()[i].l()
        } else {
            0
        }
    }

    /// The right channel of frame `i`; silence outside the buffer.
    pub open spec fn sample_r(self, i: int) -> int {
        if 0 <= i < self.frame_count() {
            self.frame_seq()[i].r()
        } else {
            0
        }
    }

    /// The whole frame index a position `num / den` seconds falls on.
    pub open spec fn sp_index(self, num: int, den: int) -> int {
        self.rate() * num / den
    }

    /// The sub-sample fraction of that position, scaled by `FRACTION_ONE`.
    pub open spec fn sp_frac(self, num: int, den: int) -> int {
        (self.rate() * num % den) * 1024 / den
    }

    /// The left channel played at a position: the cubic kernel over the
    /// four neighbouring frames.
    pub open spec fn played_l(self, num: int, den: int) -> int {
        let i = self.sp_index(num, den);
        sat_amp(
            interp_channel(
                self.sample_l(i - 1),
                self.sample_l(i),
                self.sample_l(i + 1),
                self.sample_l(i + 2),
                self.sp_frac(num, den),
            ),
        )
    }

    /// The right channel played at a position.
    pub open spec fn played_r(self, num: int, den: int) -> int {
        let i = self.sp_index(num, den);
        sat_amp(
            interp_channel(
                self.sample_r(i - 1),
                self.sample_r(i),
                self.sample_r(i + 1),
                self.sample_r(i + 2),
                self.sp_frac(num, den),
            ),
        )
    }

    /// Build a sound from raw frames.
    pub fn new(sample_rate: u32, frames: Vec<Frame>, settings: PlayableSettings) -> (s: Sound)
        requires
            1 <= sample_rate <= 1000000,
            frames.len() <= 0xFFFF_FF00,
        ensures
            s.wf(),
            s.rate() == sample_rate,
            s.frame_seq() == frames@,
            s.settings() == settings,
            s.cooldown() == 0,
    {
        Sound { sample_rate, frames, settings, cooldown_timer: 0 }
    }

    /// Whether the sound is well formed, executable.
    pub fn wf_exec(&self) -> (b: bool)
        ensures
            b == self.wf(),
    {
        1 <= self.sample_rate && self.sample_rate <= 1000000 && self.frames.len() <= 0xFFFF_FF00
    }

    /// The sound's own sample rate, executable.
    pub fn sample_rate(&self) -> (r: u32)
        ensures
            r as int == self.rate(),
    {
        self.sample_rate
    }

    /// How many frames the sound holds, executable.
    pub fn frame_count_exec(&self) -> (n: usize)
        ensures
            n as int == self.frame_count(),
    {
        self.frames.len()
    }

    /// The sound's duration in milliseconds, rounded down.
    pub fn duration_ms(&self) -> (d: u64)
        requires
            self.wf(),
        ensures
            d as int == self.frame_count() * 1000 / self.rate(),
    {
        let n: u64 = self.frames.len() as u64;
        (n * 1000) / (self.sample_rate as u64)
    }

    /// The track instances of this sound play on by default.
    pub fn default_track(&self) -> (t: TrackIndex)
        ensures
            t == self.settings().default_track,
    {
        self.settings.default_track
    }

    /// The semantic duration from the sound's metadata, in milliseconds.
    pub fn semantic_duration(&self) -> (d: Option<u64>)
        ensures
            d == self.settings().semantic_duration_ms,
    {
        self.settings.semantic_duration_ms
    }

    /// The default loop start from the sound's metadata, in milliseconds.
    pub fn default_loop_start(&self) -> (d: Option<u64>)
        ensures
            d == self.settings().default_loop_start_ms,
    {
        self.settings.default_loop_start_ms
    }

    /// Frame `i` of the buffer, or silence outside it.
    pub fn frame_at(&self, i: usize) -> (f: Frame)
        ensures
            f.l() == self.sample_l(i as int),
            f.r() == self.sample_r(i as int),
    {
        if i < self.frames.len() {
            self.frames[i]
        } else {
            Frame::zero()
        }
    }

    /// The frame played at position `pos_num / pos_den` seconds,
    /// interpolating between samples; silence beyond the buffer.
    pub fn get_frame_at_position(&self, pos_num: u64, pos_den: u64) -> (f: Frame)
        requires
            self.wf(),
            pos_den >= 1,
        ensures
            f.l() == self.played_l(pos_num as int, pos_den as int),
            f.r() == self.played_r(pos_num as int, pos_den as int),
    {
        proof {
            assert((self.sample_rate as int) * (pos_num as int) < 20000000000000000000000000int)
                by (nonlinear_arith)
                requires
                    0 <= self.sample_rate as int <= 1000000,
                    0 <= (pos_num as int) && (pos_num as int) < 0x10000000000000000,
            ;
        }
        let sp_num: u128 = (self.sample_rate as u128) * (pos_num as u128);
        let den: u128 = pos_den as u128;
        let idx: u128 = sp_num / den;
        let rem: u128 = sp_num % den;
        proof {
            vstd::arithmetic::div_mod::lemma_mod_division_less_than_divisor(
                sp_num as int,
                den as int,
            );
            vstd::arithmetic::div_mod::lemma_div_pos_is_pos(rem as int * 1024, den as int);
            vstd::arithmetic::div_mod::lemma_multiply_divide_lt(rem as int * 1024, den as int, 1024);
            assert(rem as int * 1024 < den as int * 1024) by (nonlinear_arith)
                requires
                    (rem as int) < den as int,
            ;
        }
        let frac: i64 = ((rem * 1024) / den) as i64;
        let len: usize = self.frames.len();
        if idx >= (len as u128) + 1 {
            proof {
                lemma_interp_of_silence(self.sp_frac(pos_num as int, pos_den as int));
            }
            Frame::zero()
        } else {
            let i: usize = idx as usize;
            let y0 = if i == 0 {
                Frame::zero()
            } else {
                self.frame_at(i - 1)
            };
            let y1 = self.frame_at(i);
            let y2 = self.frame_at(i + 1);
            let y3 = self.frame_at(i + 2);
            Frame::interpolate(y0, y1, y2, y3, frac)
        }
    }

    /// Positions at least one whole frame past the end of the buffer play
    /// exact silence.
    pub proof fn lemma_silent_beyond_end(self, num: int, den: int)
        requires
            den >= 1,
            self.sp_index(num, den) >= self.frame_count() + 1,
        ensures
            self.played_l(num, den) == 0,
            self.played_r(num, den) == 0,
    {
        lemma_interp_of_silence(self.sp_frac(num, den));
    }

    /// Arm the cooldown timer from the sound's own metadata: the
    /// configured milliseconds, converted to ticks of the given engine
    /// rate. A sound without a cooldown setting is left alone.
    pub fn start_cooldown(&mut self, engine_rate: u32)
        requires
            1 <= engine_rate <= 1000000,
        ensures
            final(self).cooldown() == (match old(self).settings().cooldown_ms {
                Some(ms) => cooldown_ticks(ms as int, engine_rate as int),
                None => old(self).cooldown(),
            }),
            final(self).rate() == old(self).rate(),
            final(self).frame_seq() == old(self).frame_seq(),
            final(self).settings() == old(self).settings(),
    {
        match self.settings.cooldown_ms {
            Some(ms) => {
                proof {
                    assert((ms as int) * (engine_rate as int)
                        < 20000000000000000000000000int) by (nonlinear_arith)
                        requires
                            0 <= ms && (ms as int) < 0x10000000000000000,
                            0 <= engine_rate && engine_rate <= 1000000,
                    ;
                    vstd::arithmetic::div_mod::lemma_div_pos_is_pos(
                        (ms as int) * (engine_rate as int),
                        1000,
                    );
                }
                let t: u128 = (ms as u128) * (engine_rate as u128) / 1000;
                self.cooldown_timer = if t > u64::MAX as u128 {
                    u64::MAX
                } else {
                    t as u64
                };
            },
            None => {},
        }
    }

    /// Let one tick of cooldown elapse.
    pub fn update_cooldown(&mut self)
        ensures
            final(self).cooldown() == if old(self).cooldown() > 0 {
                old(self).cooldown() - 1
            } else {
                0
            },
            final(self).rate() == old(self).rate(),
            final(self).frame_seq() == old(self).frame_seq(),
            final(self).settings() == old(self).settings(),
    {
        if self.cooldown_timer > 0 {
            self.cooldown_timer = self.cooldown_timer - 1;
        }
    }

    /// Whether the sound is still cooling down.
    pub fn cooling_down(&self) -> (b: bool)
        ensures
            b == (self.cooldown() > 0),
    {
        self.cooldown_timer > 0
    }
}

/// A cooldown of `ms` milliseconds, in ticks of an engine rate,
/// saturating at the largest representable tick count.
pub open spec fn cooldown_ticks(ms: int, rate: int) -> int {
    if ms * rate / 1000 > u64::MAX as int {
        u64::MAX as int
    } else {
        ms * rate / 1000
    }
}

/// The cubic kernel of four silent frames yields silence.
pub proof fn lemma_interp_of_silence(x: int)
    ensures
        interp_channel(0, 0, 0, 0, x) == 0,
{
    vstd::arithmetic::div_mod::lemma_div_of0(2);
    vstd::arithmetic::div_mod::lemma_div_of0(1024);
    assert(crate::frame::div_trunc(0, 2) == 0);
    assert(crate::frame::div_trunc(5int * 0, 2) == 0);
    assert(crate::frame::div_trunc(3int * (0 - 0), 2) == 0);
    assert(0 * x == 0) by (nonlinear_arith);
    assert(crate::frame::div_trunc(0int * x, 1024) == 0);
}

/// Build a sound from decoded integer PCM samples: mono is duplicated
/// into both channels, interleaved stereo is paired, and any other
/// channel count is rejected.
pub fn assemble_sound(
    sample_rate: u32,
    channels: u16,
    samples: &Vec<i32>,
    bits: u32,
    settings: PlayableSettings,
) -> (r: Result<Sound, crate::error::FromFileError>)
    requires
        1 <= sample_rate <= 1000000,
        1 <= bits <= 32,
        samples.len() <= 0xFFFF_FF00,
    ensures
        match r {
            Ok(s) => (channels == 1 || channels == 2) && s.wf() && s.rate() == sample_rate
                && s.settings() == settings && s.frame_count() == (if channels == 1 {
                samples.len() as int
            } else {
                samples.len() as int / 2
            }) && (channels == 1 ==> forall|i: int|
                #![trigger s.frame_seq()[i]]
                0 <= i < samples.len() ==> s.frame_seq()[i].l() == sat_amp(
                    crate::frame::scale_pcm(samples@[i] as int, bits as nat),
                ) && s.frame_seq()[i].r() == sat_amp(
                    crate::frame::scale_pcm(samples@[i] as int, bits as nat),
                )) && (channels == 2 ==> forall|i: int|
                #![trigger s.frame_seq()[i]]
                0 <= i < s.frame_count() ==> s.frame_seq()[i].l() == sat_amp(
                    crate::frame::scale_pcm(samples@[2 * i] as int, bits as nat),
                ) && s.frame_seq()[i].r() == sat_amp(
                    crate::frame::scale_pcm(samples@[2 * i + 1] as int, bits as nat),
                )),
            Err(e) => e == crate::error::FromFileError::UnsupportedChannelConfiguration
                && channels != 1 && channels != 2,
        },
{
    if channels == 1 {
        Ok(Sound::new(sample_rate, frames_from_mono_i32(samples, bits), settings))
    } else if channels == 2 {
        Ok(Sound::new(sample_rate, frames_from_stereo_i32(samples, bits), settings))
    } else {
        Err(crate::error::FromFileError::UnsupportedChannelConfiguration)
    }
}

/// Turn decoded mono integer PCM samples into stereo frames, duplicating
/// each sample into both channels.
pub fn frames_from_mono_i32(samples: &Vec<i32>, bits: u32) -> (frames: Vec<Frame>)
    requires
        1 <= bits <= 32,
    ensures
        frames.len() == samples.len(),
        forall|i: int|
            0 <= i < samples.len() ==> #[trigger] frames@[i].l() == sat_amp(
                crate::frame::scale_pcm(samples@[i] as int, bits as nat),
            ) && frames@[i].r() == sat_amp(crate::frame::scale_pcm(samples@[i] as int, bits as nat)),
{
    let mut frames: Vec<Frame> = Vec::new();
    let mut i: usize = 0;
    while i < samples.len()
        invariant
            1 <= bits <= 32,
            i <= samples.len(),
            frames.len() == i,
            forall|j: int|
                0 <= j < i ==> #[trigger] frames@[j].l() == sat_amp(
                    crate::frame::scale_pcm(samples@[j] as int, bits as nat),
                ) && frames@[j].r() == sat_amp(
                    crate::frame::scale_pcm(samples@[j] as int, bits as nat),
                ),
        decreases samples.len() - i,
    {
        let s = samples[i];
        frames.push(Frame::from_i32(s, s, bits));
        i = i + 1;
    }
    frames
}

/// Turn decoded interleaved stereo integer PCM samples into frames; a
/// trailing unpaired sample is dropped.
pub fn frames_from_stereo_i32(samples: &Vec<i32>, bits: u32) -> (frames: Vec<Frame>)
    requires
        1 <= bits <= 32,
    ensures
        frames.len() == samples.len() / 2,
        forall|i: int|
            #![trigger frames@[i]]
            0 <= i < frames.len() ==> frames@[i].l() == sat_amp(
                crate::frame::scale_pcm(samples@[2 * i] as int, bits as nat),
            ) && frames@[i].r() == sat_amp(
                crate::frame::scale_pcm(samples@[2 * i + 1] as int, bits as nat),
            ),
{
    let mut frames: Vec<Frame> = Vec::new();
    let mut i: usize = 0;
    while i + 1 < samples.len()
        invariant
            1 <= bits <= 32,
            i == 2 * frames.len(),
            i <= samples.len(),
            forall|j: int|
                #![trigger frames@[j]]
                0 <= j < frames.len() ==> frames@[j].l() == sat_amp(
                    crate::frame::scale_pcm(samples@[2 * j] as int, bits as nat),
                ) && frames@[j].r() == sat_amp(
                    crate::frame::scale_pcm(samples@[2 * j + 1] as int, bits as nat),
                ),
        decreases samples.len() - i,
    {
        let l = samples[i];
        let r = samples[i + 1];
        frames.push(Frame::from_i32(l, r, bits));
        i = i + 2;
    }
    proof {
        vstd::arithmetic::div_mod::lemma_fundamental_div_mod(samples.len() as int, 2);
        assert(frames.len() == samples.len() / 2);
    }
    frames
}

/// Check that every mp3 frame reported the same sample rate and return it;
/// report which way the stream is unusable otherwise.
pub fn uniform_sample_rate(rates: &Vec<u32>) -> (r: Result<u32, crate::error::FromFileError>)
    ensures
        match r {
            Ok(rate) => rates.len() > 0 && forall|i: int| 0 <= i < rates.len() ==> rates@[i] == rate,
            Err(e) => {
                ||| (e == crate::error::FromFileError::UnknownMp3SampleRate && rates.len() == 0)
                ||| (e == crate::error::FromFileError::VariableMp3SampleRate && exists|i: int|
                    0 <= i < rates.len() && #[trigger] rates@[i] != rates@[0])
            },
        },
{
    if rates.len() == 0 {
        return Err(crate::error::FromFileError::UnknownMp3SampleRate);
    }
    let first = rates[0];
    let mut i: usize = 1;
    while i < rates.len()
        invariant
            1 <= i <= rates.len(),
            first == rates@[0],
            forall|j: int| 0 <= j < i ==> rates@[j] == first,
        decreases rates.len() - i,
    {
        if rates[i] != first {
            return Err(crate::error::FromFileError::VariableMp3SampleRate);
        }
        i = i + 1;
    }
    Ok(first)
}

} // verus!
