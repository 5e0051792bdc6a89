//! A playing occurrence of a sound.
//!
//! An instance owns its playback position and the volume, pitch and fade
//! tweens, and walks the pause/resume/stop state machine. Positions are in
//! engine position units: 1/1000 of an engine sample, so one tick at pitch
//! `MILLI` advances the position by exactly `MILLI` units.

use vstd::prelude::*;
use crate::sound::SoundId;
use crate::tween::Tween;
use crate::tween::Tweenable;
use crate::tween::step_at_rest;
use crate::tween::step_current;
use crate::tween::steps_to;
use crate::tween::tween_installed;
use crate::frame::div_trunc;

verus! {

/// Largest volume factor an instance accepts: a gain of 1024.
pub const VOLUME_CAP: i64 = 1024000;

/// Largest pitch factor an instance accepts: 64 times normal speed.
pub const PITCH_CAP: i64 = 64000;

/// Largest duration, in position units, an instance accepts.
pub const DURATION_CAP: u64 = 4611686018427387904;

/// Handle to an instance held in the engine's arena.
#[derive(Clone, Copy, Debug, PartialEq, Eq, Structural)]
pub struct InstanceId {
    pub index: u32,
    pub generation: u32,
}

/// Where an instance stands in its pause/resume/stop life.
#[derive(Clone, Copy, Debug, PartialEq, Eq, Structural)]
pub enum InstanceState {
    Playing,
    Paused,
    Pausing,
    Resuming,
    Stopping,
    Stopped,
}

/// Per-instance settings taken when a sound is played.
#[derive(Clone, Copy, Debug, PartialEq, Eq, Structural)]
pub struct InstanceSettings {
    /// Volume factor in `MILLI` units; 1000 is unity gain.
    pub volume_milli: i64,
    /// Pitch factor in `MILLI` units; 1000 is normal speed.
    pub pitch_milli: i64,
    /// Loop start in position units; looping is off when absent.
    pub loop_start_units: Option<u64>,
}

impl InstanceSettings {
    /// Unity gain, normal speed, no loop.
    pub fn base() -> (s: InstanceSettings)
        ensures
            s.volume_milli == 1000,
            s.pitch_milli == 1000,
            s.loop_start_units is None,
    {
        InstanceSettings { volume_milli: 1000, pitch_milli: 1000, loop_start_units: None }
    }

    /// Whether the settings lie inside the engine's caps.
    pub open spec fn valid(self) -> bool {
        &&& 0 <= self.volume_milli <= VOLUME_CAP
        &&& 0 <= self.pitch_milli <= PITCH_CAP
    }

    /// Whether the settings lie inside the engine's caps, executable.
    pub fn valid_exec(&self) -> (b: bool)
        ensures
            b == self.valid(),
    {
        0 <= self.volume_milli && self.volume_milli <= VOLUME_CAP && 0 <= self.pitch_milli
            && self.pitch_milli <= PITCH_CAP
    }
}

/// Whether a state lets the playback position advance.
pub open spec fn advances(state: InstanceState) -> bool {
    ||| state is Playing
    ||| state is Resuming
    ||| state is Pausing
    ||| state is Stopping
}

/// Settle the state machine once the fade tween has landed: a fade that
/// reached zero completes a pause or a stop, a fade that reached one
/// completes a resume.
pub open spec fn settled_state(state: InstanceState, fade: Tweenable) -> InstanceState {
    if state is Pausing && fade.tween() is None && fade.current() == 0 {
        InstanceState::Paused
    } else if state is Resuming && fade.tween() is None && fade.current() == 1000 {
        InstanceState::Playing
    } else if state is Stopping && fade.tween() is None && fade.current() == 0 {
        InstanceState::Stopped
    } else {
        state
    }
}

/// The playback position after one advance, wrapped into the loop when one
/// is configured and past the end otherwise.
pub open spec fn wrapped_position(pos: int, duration: int, loop_start: Option<u64>) -> int {
    if pos > duration {
        match loop_start {
            Some(ls) => if (ls as int) < duration {
                ls + (pos - duration) % (duration - ls)
            } else {
                pos
            },
            None => pos,
        }
    } else {
        pos
    }
}

/// Whether an advance past the end stops the instance (no usable loop).
pub open spec fn past_end(pos: int, duration: int, loop_start: Option<u64>) -> bool {
    pos > duration && match loop_start {
        Some(ls) => (ls as int) >= duration,
        None => true,
    }
}

/// The fields `pause`, `resume`, `stop` and the setters never touch.
pub open spec fn identity_kept(pre: Instance, post: Instance) -> bool {
    &&& post.position() == pre.position()
    &&& post.sound_id() == pre.sound_id()
    &&& post.duration() == pre.duration()
    &&& post.loop_start() == pre.loop_start()
}

/// What `pause` does: install the requested fade toward silence and
/// enter `Pausing`, unless the instance is already on its way out.
pub open spec fn pause_applied(pre: Instance, post: Instance, tween: Option<Tween>) -> bool {
    &&& identity_kept(pre, post)
    &&& post.volume() == pre.volume()
    &&& post.pitch() == pre.pitch()
    &&& if pre.state() is Stopped || pre.state() is Stopping {
        post == pre
    } else {
        post.state() is Pausing && tween_installed(pre.fade(), post.fade(), 0, tween)
    }
}

/// What `resume` does: install the requested fade back toward unity and
/// enter `Resuming`, from a pause only.
pub open spec fn resume_applied(pre: Instance, post: Instance, tween: Option<Tween>) -> bool {
    &&& identity_kept(pre, post)
    &&& post.volume() == pre.volume()
    &&& post.pitch() == pre.pitch()
    &&& if pre.state() is Paused || pre.state() is Pausing {
        post.state() is Resuming && tween_installed(pre.fade(), post.fade(), 1000, tween)
    } else {
        post == pre
    }
}

/// What `stop` does: fade toward silence and enter `Stopping`; a repeated
/// stop keeps the running fade unless the new one would finish sooner.
pub open spec fn stop_applied(pre: Instance, post: Instance, tween: Option<Tween>) -> bool {
    &&& identity_kept(pre, post)
    &&& post.volume() == pre.volume()
    &&& post.pitch() == pre.pitch()
    &&& if pre.state() is Stopped {
        post == pre
    } else if pre.state() is Stopping {
        if new_fade_ticks(tween) >= pre.fade().remaining() {
            post == pre
        } else {
            post.state() is Stopping && tween_installed(pre.fade(), post.fade(), 0, tween)
        }
    } else {
        post.state() is Stopping && tween_installed(pre.fade(), post.fade(), 0, tween)
    }
}

/// What `set_volume` does: install the requested move of the volume
/// toward the new value.
pub open spec fn volume_set(
    pre: Instance,
    post: Instance,
    volume_milli: int,
    tween: Option<Tween>,
) -> bool {
    &&& identity_kept(pre, post)
    &&& post.state() == pre.state()
    &&& post.fade() == pre.fade()
    &&& post.pitch() == pre.pitch()
    &&& tween_installed(pre.volume(), post.volume(), volume_milli, tween)
}

/// What `set_pitch` does: install the requested move of the pitch toward
/// the new value.
pub open spec fn pitch_set(
    pre: Instance,
    post: Instance,
    pitch_milli: int,
    tween: Option<Tween>,
) -> bool {
    &&& identity_kept(pre, post)
    &&& post.state() == pre.state()
    &&& post.fade() == pre.fade()
    &&& post.volume() == pre.volume()
    &&& tween_installed(pre.pitch(), post.pitch(), pitch_milli, tween)
}

/// The state one tick of `update` leaves an instance in: settle the state
/// machine on the stepped fade, then stop at the end of the sound when no
/// usable loop is configured.
pub open spec fn next_state_of(pre: Instance) -> InstanceState {
    let fade_done = step_at_rest(pre.fade());
    let fade_val = step_current(pre.fade());
    let s1 = if pre.state() is Pausing && fade_done && fade_val == 0 {
        InstanceState::Paused
    } else if pre.state() is Resuming && fade_done && fade_val == 1000 {
        InstanceState::Playing
    } else if pre.state() is Stopping && fade_done && fade_val == 0 {
        InstanceState::Stopped
    } else {
        pre.state()
    };
    if advances(s1) && past_end(
        pre.position() + step_current(pre.pitch()),
        pre.duration(),
        pre.loop_start(),
    ) {
        InstanceState::Stopped
    } else {
        s1
    }
}

/// The position one tick of `update` leaves an instance at.
pub open spec fn next_position_of(pre: Instance) -> int {
    let fade_done = step_at_rest(pre.fade());
    let fade_val = step_current(pre.fade());
    let s1 = if pre.state() is Pausing && fade_done && fade_val == 0 {
        InstanceState::Paused
    } else if pre.state() is Resuming && fade_done && fade_val == 1000 {
        InstanceState::Playing
    } else if pre.state() is Stopping && fade_done && fade_val == 0 {
        InstanceState::Stopped
    } else {
        pre.state()
    };
    if advances(s1) {
        wrapped_position(
            pre.position() + step_current(pre.pitch()),
            pre.duration(),
            pre.loop_start(),
        )
    } else {
        pre.position()
    }
}

/// How one tick of `update` relates an instance before to after: the
/// tweens each step once, the state and position move as `next_state_of`
/// and `next_position_of` say, and the identity fields stay.
pub open spec fn ticked(pre: Instance, post: Instance) -> bool {
    &&& post.sound_id() == pre.sound_id()
    &&& post.duration() == pre.duration()
    &&& post.loop_start() == pre.loop_start()
    &&& steps_to(pre.volume(), post.volume())
    &&& steps_to(pre.pitch(), post.pitch())
    &&& steps_to(pre.fade(), post.fade())
    &&& post.state() == next_state_of(pre)
    &&& post.position() == next_position_of(pre)
}

/// A playing occurrence of a sound.
#[derive(Clone, Copy, Debug)]
pub struct Instance {
    sound_id: SoundId,
    state: InstanceState,
    position_units: u64,
    duration_units: u64,
    loop_start_units: Option<u64>,
    volume: Tweenable,
    pitch: Tweenable,
    fade: Tweenable,
}

impl Instance {
    /// Tweens stay inside their bands, and the position never runs more
    /// than one pitch step past the end of the sound.
    pub open spec fn wf(self) -> bool {
        &&& self.volume().wf()
        &&& self.volume().in_band(0, VOLUME_CAP as int)
        &&& self.pitch().wf()
        &&& self.pitch().in_band(0, PITCH_CAP as int)
        &&& self.fade().wf()
        &&& self.fade().in_band(0, 1000)
        &&& self.duration() <= DURATION_CAP as int
        &&& self.position() <= self.duration() + PITCH_CAP as int
        &&& (!(self.state() is Stopped) ==> self.position() <= self.duration())
    }

    /// The sound this instance plays.
    pub closed spec fn sound_id(self) -> SoundId {
        self.sound_id
    }

    /// Where the instance stands in its life.
    pub closed spec fn state(self) -> InstanceState {
        self.state
    }

    /// The playback position, in position units.
    pub closed spec fn position(self) -> int {
        self.position_units as int
    }

    /// The sound's duration, in position units.
    pub closed spec fn duration(self) -> int {
        self.duration_units as int
    }

    /// The configured loop start, in position units.
    pub closed spec fn loop_start(self) -> Option<u64> {
        self.loop_start_units
    }

    /// The volume tween.
    pub closed spec fn volume(self) -> Tweenable {
        self.volume
    }

    /// The pitch tween.
    pub closed spec fn pitch(self) -> Tweenable {
        self.pitch
    }

    /// The fade tween driving pause, resume and stop.
    pub closed spec fn fade(self) -> Tweenable {
        self.fade
    }

    /// What the mixer multiplies this instance's frames by.
    pub open spec fn effective_volume_spec(self) -> int {
        div_trunc(self.volume().current() * self.fade().current(), 1000)
    }

    /// Whether the instance is done and may be reclaimed.
    pub open spec fn finished(self) -> bool {
        self.state() is Stopped
    }

    /// Start a new instance of a sound: playing from the top, fully faded
    /// in, with the settings' volume and pitch.
    pub fn new(sound_id: SoundId, settings: InstanceSettings, duration_units: u64) -> (inst:
        Instance)
        requires
            settings.valid(),
            duration_units <= DURATION_CAP,
        ensures
            inst.wf(),
            inst.sound_id() == sound_id,
            inst.state() == InstanceState::Playing,
            inst.position() == 0,
            inst.duration() == duration_units as int,
            inst.loop_start() == settings.loop_start_units,
            inst.volume().current() == settings.volume_milli,
            inst.pitch().current() == settings.pitch_milli,
            inst.fade().current() == 1000,
    {
        Instance {
            sound_id,
            state: InstanceState::Playing,
            position_units: 0,
            duration_units,
            loop_start_units: settings.loop_start_units,
            volume: Tweenable::at(settings.volume_milli),
            pitch: Tweenable::at(settings.pitch_milli),
            fade: Tweenable::at(1000),
        }
    }

    /// The sound this instance plays, executable.
    pub fn sound_id_exec(&self) -> (id: SoundId)
        ensures
            id == self.sound_id(),
    {
        self.sound_id
    }

    /// Where the instance stands in its life, executable.
    pub fn state_exec(&self) -> (s: InstanceState)
        ensures
            s == self.state(),
    {
        self.state
    }

    /// The playback position, executable.
    pub fn position_exec(&self) -> (p: u64)
        ensures
            p as int == self.position(),
    {
        self.position_units
    }

    /// Whether the instance is done, executable.
    pub fn finished_exec(&self) -> (b: bool)
        ensures
            b == self.finished(),
    {
        match self.state {
            InstanceState::Stopped => true,
            _ => false,
        }
    }

    /// Whether the mixer should render this instance this tick.
    pub fn playing(&self) -> (b: bool)
        ensures
            b == advances(self.state()),
    {
        match self.state {
            InstanceState::Playing => true,
            InstanceState::Resuming => true,
            InstanceState::Pausing => true,
            InstanceState::Stopping => true,
            _ => false,
        }
    }

    /// What the mixer multiplies this instance's frames by: volume times
    /// fade, never negative and never above the plain volume.
    pub fn effective_volume(&self) -> (v: i64)
        requires
            self.wf(),
        ensures
            v as int == self.effective_volume_spec(),
            0 <= v <= self.volume().current(),
            v <= VOLUME_CAP,
    {
        proof {
            lemma_effective_volume_bounds(*self);
        }
        let p = mul_vol(self.volume.value(), self.fade.value());
        crate::frame::div_trunc_i64(p, 1000)
    }

    /// Head the volume toward a new value.
    pub fn set_volume(&mut self, volume_milli: i64, tween: Option<Tween>)
        requires
            old(self).wf(),
            0 <= volume_milli <= VOLUME_CAP,
        ensures
            final(self).wf(),
            volume_set(*old(self), *final(self), volume_milli as int, tween),
    {
        self.volume.tween_to(volume_milli, tween);
        proof {
            lemma_tween_to_band(old(self).volume(), self.volume, volume_milli as int, 0, VOLUME_CAP as int);
        }
    }

    /// Head the pitch toward a new value.
    pub fn set_pitch(&mut self, pitch_milli: i64, tween: Option<Tween>)
        requires
            old(self).wf(),
            0 <= pitch_milli <= PITCH_CAP,
        ensures
            final(self).wf(),
            pitch_set(*old(self), *final(self), pitch_milli as int, tween),
    {
        self.pitch.tween_to(pitch_milli, tween);
        proof {
            lemma_tween_to_band(old(self).pitch(), self.pitch, pitch_milli as int, 0, PITCH_CAP as int);
        }
    }

    /// Begin pausing: fade toward silence; the state machine lands on
    /// `Paused` when the fade arrives. Stopped or stopping instances are
    /// left alone.
    pub fn pause(&mut self, tween: Option<Tween>)
        requires
            old(self).wf(),
        ensures
            final(self).wf(),
            pause_applied(*old(self), *final(self), tween),
    {
        match self.state {
            InstanceState::Stopped => {},
            InstanceState::Stopping => {},
            _ => {
                self.state = InstanceState::Pausing;
                self.fade.tween_to(0, tween);
                proof {
                    lemma_tween_to_band(old(self).fade(), self.fade, 0, 0, 1000);
                }
            },
        }
    }

    /// Begin resuming from a pause: fade back toward unity; the state
    /// machine lands on `Playing` when the fade arrives.
    pub fn resume(&mut self, tween: Option<Tween>)
        requires
            old(self).wf(),
        ensures
            final(self).wf(),
            resume_applied(*old(self), *final(self), tween),
    {
        match self.state {
            InstanceState::Paused | InstanceState::Pausing => {
                self.state = InstanceState::Resuming;
                self.fade.tween_to(1000, tween);
                proof {
                    lemma_tween_to_band(old(self).fade(), self.fade, 1000, 0, 1000);
                }
            },
            _ => {},
        }
    }

    /// Begin stopping: fade toward silence and mark the instance for
    /// removal once it arrives. Stopping an already stopping instance
    /// keeps its fade unless the new one would finish sooner.
    pub fn stop(&mut self, tween: Option<Tween>)
        requires
            old(self).wf(),
        ensures
            final(self).wf(),
            stop_applied(*old(self), *final(self), tween),
    {
        match self.state {
            InstanceState::Stopped => {},
            InstanceState::Stopping => {
                let new_ticks: u64 = match tween {
                    Some(tw) => tw.duration_ticks,
                    None => 0,
                };
                if new_ticks < self.fade.remaining_exec() {
                    self.fade.tween_to(0, tween);
                    proof {
                        lemma_tween_to_band(old(self).fade(), self.fade, 0, 0, 1000);
                    }
                }
            },
            _ => {
                self.state = InstanceState::Stopping;
                self.fade.tween_to(0, tween);
                proof {
                    lemma_tween_to_band(old(self).fade(), self.fade, 0, 0, 1000);
                }
            },
        }
    }

    /// One audio tick: advance the three tweens, settle the state machine
    /// on a landed fade, advance the position by the pitch, and wrap into
    /// the loop or stop at the end of the sound.
    pub fn update(&mut self)
        requires
            old(self).wf(),
        ensures
            final(self).wf(),
            ticked(*old(self), *final(self)),
            final(self).sound_id() == old(self).sound_id(),
            final(self).duration() == old(self).duration(),
            final(self).loop_start() == old(self).loop_start(),
            steps_to(old(self).volume(), final(self).volume()),
            steps_to(old(self).pitch(), final(self).pitch()),
            steps_to(old(self).fade(), final(self).fade()),
            ({
                let s1 = settled_state(old(self).state(), final(self).fade());
                if advances(s1) {
                    let moved = old(self).position() + final(self).pitch().current();
                    if past_end(moved, old(self).duration(), old(self).loop_start()) {
                        final(self).state() is Stopped && final(self).position() == moved
                    } else {
                        final(self).state() == s1 && final(self).position() == wrapped_position(
                            moved,
                            old(self).duration(),
                            old(self).loop_start(),
                        )
                    }
                } else {
                    final(self).state() == s1 && final(self).position() == old(self).position()
                }
            }),
    {
        self.volume.update();
        self.pitch.update();
        self.fade.update();
        let fade_done = self.fade.at_rest();
        let fade_val = self.fade.value();
        match self.state {
            InstanceState::Pausing => {
                if fade_done && fade_val == 0 {
                    self.state = InstanceState::Paused;
                }
            },
            InstanceState::Resuming => {
                if fade_done && fade_val == 1000 {
                    self.state = InstanceState::Playing;
                }
            },
            InstanceState::Stopping => {
                if fade_done && fade_val == 0 {
                    self.state = InstanceState::Stopped;
                }
            },
            _ => {},
        }
        let moving = self.playing();
        if moving {
            let step: u64 = self.pitch.value() as u64;
            let moved: u64 = self.position_units + step;
            if moved > self.duration_units {
                let usable_loop: Option<u64> = match self.loop_start_units {
                    Some(ls) => if ls < self.duration_units {
                        Some(ls)
                    } else {
                        None
                    },
                    None => None,
                };
                match usable_loop {
                    Some(ls) => {
                        let span: u64 = self.duration_units - ls;
                        self.position_units = ls + (moved - self.duration_units) % span;
                        proof {
                            vstd::arithmetic::div_mod::lemma_mod_division_less_than_divisor(
                                (moved - self.duration_units) as int,
                                span as int,
                            );
                        }
                    },
                    None => {
                        self.state = InstanceState::Stopped;
                        self.position_units = moved;
                    },
                }
            } else {
                self.position_units = moved;
            }
        }
    }
}

/// The ticks a stop request asks the fade to take.
pub open spec fn new_fade_ticks(tween: Option<Tween>) -> int {
    match tween {
        Some(tw) => tw.duration_ticks as int,
        None => 0,
    }
}

/// Effective volume sits between silence and the plain volume.
pub proof fn lemma_effective_volume_bounds(inst: Instance)
    requires
        inst.wf(),
    ensures
        0 <= inst.effective_volume_spec() <= inst.volume().current(),
        inst.effective_volume_spec() <= VOLUME_CAP,
{
    let v = inst.volume().current();
    let f = inst.fade().current();
    assert(0 <= v * f <= v * 1000) by (nonlinear_arith)
        requires
            0 <= v,
            0 <= f <= 1000,
    ;
    vstd::arithmetic::div_mod::lemma_div_pos_is_pos(v * f, 1000);
    vstd::arithmetic::div_mod::lemma_div_is_ordered(v * f, v * 1000, 1000);
    vstd::arithmetic::div_mod::lemma_div_by_multiple(v, 1000);
}

/// `tween_to` toward a target inside a band keeps the value in the band.
proof fn lemma_tween_to_band(pre: Tweenable, post: Tweenable, target: int, lo: int, hi: int)
    requires
        pre.wf(),
        pre.in_band(lo, hi),
        lo <= target <= hi,
        post.wf(),
        post.target() == target,
        post.current() == target || post.current() == pre.current(),
        post.start() == pre.current() || post.start() == post.current(),
    ensures
        post.in_band(lo, hi),
{
}

/// Multiply a capped volume by a fade fraction.
fn mul_vol(v: i64, f: i64) -> (r: i64)
    requires
        0 <= v <= VOLUME_CAP,
        0 <= f <= 1000,
    ensures
        r == v * f,
        0 <= r,
{
    proof {
        assert(0 <= v * f <= 1024000000) by (nonlinear_arith)
            requires
                0 <= v <= 1024000,
                0 <= f <= 1000,
        ;
    }
    v * f
}

} // verus!
