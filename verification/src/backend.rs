//! The audio-thread orchestrator.
//!
//! One `process` call per output sample: drain the command ring, advance
//! metronomes and sequences, mix the playing instances into one frame, and
//! reclaim finished resources. The audio side never returns errors: stale
//! handles are ignored and events are dropped when the event ring is full.

use vstd::prelude::*;
use crate::arena::Arena;
use crate::command::Command;
use crate::command::InstanceCommand;
use crate::command::MetronomeCommand;
use crate::command::SequenceCommand;
use crate::command::SoundCommand;
use crate::command::Event;
use crate::frame::Frame;
use crate::instance::Instance;
use crate::instance::InstanceId;
use crate::instance::PITCH_CAP;
use crate::instance::VOLUME_CAP;
use crate::instance::next_state_of;
use crate::instance::pause_applied;
use crate::instance::pitch_set;
use crate::instance::resume_applied;
use crate::instance::stop_applied;
use crate::instance::ticked;
use crate::instance::volume_set;
use crate::metronome::Metronome;
use crate::metronome::TEMPO_CAP;
use crate::parameters::Parameters;
use crate::sequence::Sequence;
use crate::sound::Sound;
use crate::tween::Tween;

verus! {

/// The most ring commands drained in one cycle, and the most
/// sequence-emitted commands executed in one cycle.
pub const COMMAND_BUDGET: u32 = 4096;

/// Capacities of the engine's arenas and rings, fixed at construction.
#[derive(Clone, Copy, Debug)]
pub struct AudioManagerSettings {
    pub num_commands: usize,
    pub num_events: usize,
    pub num_sounds: usize,
    pub num_instances: usize,
    pub num_parameters: usize,
    pub num_sequences: usize,
    pub num_metronomes: usize,
}

impl AudioManagerSettings {
    /// Whether every capacity is indexable by `u32`; the ring capacities
    /// stay clear of the ring's one-slot headroom at the top of `usize`.
    pub open spec fn valid(self) -> bool {
        &&& self.num_commands <= 0xFFFF_0000
        &&& self.num_events <= 0xFFFF_0000
        &&& self.num_sounds <= 0xFFFF_FFFF
        &&& self.num_instances <= 0xFFFF_0000
        &&& self.num_parameters <= 0xFFFF_0000
        &&& self.num_sequences <= 0xFFFF_FFFF
        &&& self.num_metronomes <= 0xFFFF_FFFF
    }

    /// The recommended default capacities.
    pub fn base() -> (s: AudioManagerSettings)
        ensures
            s.valid(),
            s.num_commands == 100,
            s.num_events == 100,
            s.num_sounds == 100,
            s.num_instances == 100,
            s.num_parameters == 100,
            s.num_sequences == 25,
            s.num_metronomes == 4,
    {
        AudioManagerSettings {
            num_commands: 100,
            num_events: 100,
            num_sounds: 100,
            num_instances: 100,
            num_parameters: 100,
            num_sequences: 25,
            num_metronomes: 4,
        }
    }
}

/// A value clamped into a closed band.
pub open spec fn clamped(v: int, lo: int, hi: int) -> int {
    if v < lo {
        lo
    } else if v > hi {
        hi
    } else {
        v
    }
}

/// Instance settings with volume and pitch clamped into the engine's caps.
pub open spec fn clamped_settings(s: crate::instance::InstanceSettings) -> crate::instance::InstanceSettings {
    crate::instance::InstanceSettings {
        volume_milli: clamped(s.volume_milli as int, 0, VOLUME_CAP as int) as i64,
        pitch_milli: clamped(s.pitch_milli as int, 0, PITCH_CAP as int) as i64,
        loop_start_units: s.loop_start_units,
    }
}

/// The duration, in position units, an instance of a sound plays for at an
/// engine rate.
pub open spec fn play_duration_units(sound: Sound, rate: int) -> int {
    sound.frame_count() * 1000 * rate / sound.rate()
}

/// Every slot of a store unchanged but one.
pub open spec fn others_same<T>(pre: Arena<T>, post: Arena<T>, index: int) -> bool {
    &&& post.capacity() == pre.capacity()
    &&& forall|j: int|
        0 <= j < pre.capacity() && j != index ==> #[trigger] post.slot_at(j) == pre.slot_at(j)
            && post.gen_at(j) == pre.gen_at(j)
}

/// One slot of a store untouched (an index past the capacity names no
/// slot).
pub open spec fn slot_same<T>(pre: Arena<T>, post: Arena<T>, index: int) -> bool {
    0 <= index < pre.capacity() ==> (post.slot_at(index) == pre.slot_at(index) && post.gen_at(
        index,
    ) == pre.gen_at(index))
}

/// A fresh sound slot after a play: the buffer, rate and settings kept,
/// the cooldown timer armed from the sound's own setting.
pub open spec fn cooldown_armed(pre: Sound, post: Sound, rate: int) -> bool {
    &&& post.rate() == pre.rate()
    &&& post.frame_seq() == pre.frame_seq()
    &&& post.settings() == pre.settings()
    &&& post.cooldown() == (match pre.settings().cooldown_ms {
        Some(ms) => crate::sound::cooldown_ticks(ms as int, rate),
        None => pre.cooldown(),
    })
}

/// One tick of cooldown decay on a sound.
pub open spec fn cooled(pre: Sound, post: Sound) -> bool {
    &&& post.rate() == pre.rate()
    &&& post.frame_seq() == pre.frame_seq()
    &&& post.settings() == pre.settings()
    &&& post.cooldown() == (if pre.cooldown() > 0 {
        pre.cooldown() - 1
    } else {
        0
    })
}


/// How one command relates the whole audio side before to after: the
/// targeted store changes exactly as the subsystem's own contract says,
/// stale handles change nothing, and every other store is untouched.
pub open spec fn dispatched(pre: Backend, cmd: Command, post: Backend) -> bool {
    &&& post.rate() == pre.rate()
    &&& match cmd {
        Command::Sound(SoundCommand::LoadSound(id, sound)) => {
            &&& post.instances() == pre.instances()
            &&& post.sequences() == pre.sequences()
            &&& post.metronomes() == pre.metronomes()
            &&& post.params() == pre.params()
            &&& others_same(pre.sounds(), post.sounds(), id.index as int)
            &&& if sound.wf() && (id.index as int) < pre.sounds().capacity() {
                post.sounds().live(id.index, id.generation) && post.sounds().slot_at(
                    id.index as int,
                ) == Some(sound)
            } else {
                slot_same(pre.sounds(), post.sounds(), id.index as int)
            }
        },
        Command::Sound(SoundCommand::UnloadSound(id)) => {
            &&& post.sequences() == pre.sequences()
            &&& post.metronomes() == pre.metronomes()
            &&& post.params() == pre.params()
            &&& others_same(pre.sounds(), post.sounds(), id.index as int)
            &&& post.instances().capacity() == pre.instances().capacity()
            &&& if pre.sounds().live(id.index, id.generation) {
                &&& !post.sounds().occupied(id.index as int)
                &&& post.sounds().gen_at(id.index as int) == pre.sounds().gen_at(id.index as int)
                &&& forall|j: int|
                    0 <= j < pre.instances().capacity() ==> post.instances().gen_at(j)
                        == pre.instances().gen_at(j)
                &&& forall|j: int|
                    0 <= j < pre.instances().capacity() ==> match #[trigger] pre.instances().slot_at(
                        j,
                    ) {
                        Some(a) => if a.sound_id() == id {
                            !post.instances().occupied(j)
                        } else {
                            post.instances().slot_at(j) == Some(a)
                        },
                        None => !post.instances().occupied(j),
                    }
            } else {
                slot_same(pre.sounds(), post.sounds(), id.index as int) && post.instances()
                    == pre.instances()
            }
        },
        Command::Instance(ic) => {
            &&& post.sequences() == pre.sequences()
            &&& post.metronomes() == pre.metronomes()
            &&& post.params() == pre.params()
            &&& match ic {
                InstanceCommand::PlaySound(sound_id, instance_id, settings) => {
                    &&& others_same(pre.sounds(), post.sounds(), sound_id.index as int)
                    &&& others_same(pre.instances(), post.instances(), instance_id.index as int)
                    &&& if pre.sounds().live(sound_id.index, sound_id.generation) && (
                    instance_id.index as int) < pre.instances().capacity() {
                        &&& post.instances().live(instance_id.index, instance_id.generation)
                        &&& match (
                            pre.sounds().slot_at(sound_id.index as int),
                            post.sounds().slot_at(sound_id.index as int),
                            post.instances().slot_at(instance_id.index as int),
                        ) {
                            (Some(sound), Some(sound2), Some(inst)) => {
                                &&& cooldown_armed(sound, sound2, pre.rate())
                                &&& inst.state() is Playing
                                &&& inst.position() == 0
                                &&& inst.sound_id() == sound_id
                                &&& inst.duration() == play_duration_units(sound, pre.rate())
                                &&& inst.loop_start() == settings.loop_start_units
                                &&& inst.volume().current() == clamped_settings(
                                    settings,
                                ).volume_milli
                                &&& inst.pitch().current() == clamped_settings(
                                    settings,
                                ).pitch_milli
                                &&& inst.fade().current() == 1000
                            },
                            _ => false,
                        }
                    } else {
                        slot_same(pre.sounds(), post.sounds(), sound_id.index as int) && slot_same(
                            pre.instances(),
                            post.instances(),
                            instance_id.index as int,
                        )
                    }
                },
                InstanceCommand::SetInstanceVolume(id, volume, tween) => {
                    &&& post.sounds() == pre.sounds()
                    &&& others_same(pre.instances(), post.instances(), id.index as int)
                    &&& single_instance_step(pre.instances(), post.instances(), id)
                    &&& match (
                        pre.instances().slot_at(id.index as int),
                        post.instances().slot_at(id.index as int),
                    ) {
                        (Some(a), Some(b)) => pre.instances().live(id.index, id.generation)
                            ==> volume_set(a, b, clamped(volume as int, 0, VOLUME_CAP as int), tween),
                        _ => true,
                    }
                },
                InstanceCommand::SetInstancePitch(id, pitch, tween) => {
                    &&& post.sounds() == pre.sounds()
                    &&& others_same(pre.instances(), post.instances(), id.index as int)
                    &&& single_instance_step(pre.instances(), post.instances(), id)
                    &&& match (
                        pre.instances().slot_at(id.index as int),
                        post.instances().slot_at(id.index as int),
                    ) {
                        (Some(a), Some(b)) => pre.instances().live(id.index, id.generation)
                            ==> pitch_set(a, b, clamped(pitch as int, 0, PITCH_CAP as int), tween),
                        _ => true,
                    }
                },
                InstanceCommand::PauseInstance(id, tween) => {
                    &&& post.sounds() == pre.sounds()
                    &&& others_same(pre.instances(), post.instances(), id.index as int)
                    &&& single_instance_step(pre.instances(), post.instances(), id)
                    &&& match (
                        pre.instances().slot_at(id.index as int),
                        post.instances().slot_at(id.index as int),
                    ) {
                        (Some(a), Some(b)) => pre.instances().live(id.index, id.generation)
                            ==> pause_applied(a, b, tween),
                        _ => true,
                    }
                },
                InstanceCommand::ResumeInstance(id, tween) => {
                    &&& post.sounds() == pre.sounds()
                    &&& others_same(pre.instances(), post.instances(), id.index as int)
                    &&& single_instance_step(pre.instances(), post.instances(), id)
                    &&& match (
                        pre.instances().slot_at(id.index as int),
                        post.instances().slot_at(id.index as int),
                    ) {
                        (Some(a), Some(b)) => pre.instances().live(id.index, id.generation)
                            ==> resume_applied(a, b, tween),
                        _ => true,
                    }
                },
                InstanceCommand::StopInstance(id, tween) => {
                    &&& post.sounds() == pre.sounds()
                    &&& others_same(pre.instances(), post.instances(), id.index as int)
                    &&& single_instance_step(pre.instances(), post.instances(), id)
                    &&& match (
                        pre.instances().slot_at(id.index as int),
                        post.instances().slot_at(id.index as int),
                    ) {
                        (Some(a), Some(b)) => pre.instances().live(id.index, id.generation)
                            ==> stop_applied(a, b, tween),
                        _ => true,
                    }
                },
                InstanceCommand::PauseInstancesOfSound(sound_id, tween) => {
                    &&& post.sounds() == pre.sounds()
                    &&& post.instances().capacity() == pre.instances().capacity()
                    &&& forall|j: int|
                        0 <= j < pre.instances().capacity() ==> post.instances().gen_at(j)
                            == pre.instances().gen_at(j)
                    &&& forall|j: int|
                        0 <= j < pre.instances().capacity() ==> match #[trigger] pre.instances().slot_at(
                            j,
                        ) {
                            Some(a) => match post.instances().slot_at(j) {
                                Some(b) => if a.sound_id() == sound_id {
                                    pause_applied(a, b, tween)
                                } else {
                                    b == a
                                },
                                None => false,
                            },
                            None => !post.instances().occupied(j),
                        }
                },
                InstanceCommand::ResumeInstancesOfSound(sound_id, tween) => {
                    &&& post.sounds() == pre.sounds()
                    &&& post.instances().capacity() == pre.instances().capacity()
                    &&& forall|j: int|
                        0 <= j < pre.instances().capacity() ==> post.instances().gen_at(j)
                            == pre.instances().gen_at(j)
                    &&& forall|j: int|
                        0 <= j < pre.instances().capacity() ==> match #[trigger] pre.instances().slot_at(
                            j,
                        ) {
                            Some(a) => match post.instances().slot_at(j) {
                                Some(b) => if a.sound_id() == sound_id {
                                    resume_applied(a, b, tween)
                                } else {
                                    b == a
                                },
                                None => false,
                            },
                            None => !post.instances().occupied(j),
                        }
                },
                InstanceCommand::StopInstancesOfSound(sound_id, tween) => {
                    &&& post.sounds() == pre.sounds()
                    &&& post.instances().capacity() == pre.instances().capacity()
                    &&& forall|j: int|
                        0 <= j < pre.instances().capacity() ==> post.instances().gen_at(j)
                            == pre.instances().gen_at(j)
                    &&& forall|j: int|
                        0 <= j < pre.instances().capacity() ==> match #[trigger] pre.instances().slot_at(
                            j,
                        ) {
                            Some(a) => match post.instances().slot_at(j) {
                                Some(b) => if a.sound_id() == sound_id {
                                    stop_applied(a, b, tween)
                                } else {
                                    b == a
                                },
                                None => false,
                            },
                            None => !post.instances().occupied(j),
                        }
                },
            }
        },
        Command::Metronome(mc) => {
            &&& post.sounds() == pre.sounds()
            &&& post.instances() == pre.instances()
            &&& post.sequences() == pre.sequences()
            &&& post.params() == pre.params()
            &&& match mc {
                MetronomeCommand::AddMetronome(id, tempo, intervals) => {
                    &&& others_same(pre.metronomes(), post.metronomes(), id.index as int)
                    &&& if crate::metronome::strictly_sorted(intervals@) && (forall|i: int|
                        0 <= i < intervals@.len() ==> 1 <= #[trigger] intervals@[i]
                            <= crate::metronome::INTERVAL_CAP) && (id.index as int)
                        < pre.metronomes().capacity() {
                        post.metronomes().live(id.index, id.generation) && match post.metronomes().slot_at(
                            id.index as int,
                        ) {
                            Some(m) => !m.ticking() && m.time() == 0 && m.previous_time() == 0
                                && m.tempo() == clamped(
                                tempo.milli_bpm as int,
                                1,
                                TEMPO_CAP as int,
                            ) && m.rate() == pre.rate() && m.intervals() == intervals@,
                            None => false,
                        }
                    } else {
                        slot_same(pre.metronomes(), post.metronomes(), id.index as int)
                    }
                },
                MetronomeCommand::SetMetronomeTempo(id, tempo) => {
                    &&& others_same(pre.metronomes(), post.metronomes(), id.index as int)
                    &&& single_metronome_step(pre.metronomes(), post.metronomes(), id)
                    &&& match (
                        pre.metronomes().slot_at(id.index as int),
                        post.metronomes().slot_at(id.index as int),
                    ) {
                        (Some(m1), Some(m2)) => pre.metronomes().live(id.index, id.generation)
                            ==> m2.tempo() == clamped(tempo.milli_bpm as int, 1, TEMPO_CAP as int)
                            && m2.ticking() == m1.ticking() && m2.time() == m1.time()
                            && m2.previous_time() == m1.previous_time() && m2.rate() == m1.rate()
                            && m2.intervals() == m1.intervals(),
                        _ => true,
                    }
                },
                MetronomeCommand::StartMetronome(id) => {
                    &&& others_same(pre.metronomes(), post.metronomes(), id.index as int)
                    &&& single_metronome_step(pre.metronomes(), post.metronomes(), id)
                    &&& match (
                        pre.metronomes().slot_at(id.index as int),
                        post.metronomes().slot_at(id.index as int),
                    ) {
                        (Some(m1), Some(m2)) => pre.metronomes().live(id.index, id.generation)
                            ==> m2.ticking() && m2.time() == m1.time() && m2.previous_time()
                            == m1.previous_time() && m2.tempo() == m1.tempo() && m2.rate()
                            == m1.rate() && m2.intervals() == m1.intervals(),
                        _ => true,
                    }
                },
                MetronomeCommand::PauseMetronome(id) => {
                    &&& others_same(pre.metronomes(), post.metronomes(), id.index as int)
                    &&& single_metronome_step(pre.metronomes(), post.metronomes(), id)
                    &&& match (
                        pre.metronomes().slot_at(id.index as int),
                        post.metronomes().slot_at(id.index as int),
                    ) {
                        (Some(m1), Some(m2)) => pre.metronomes().live(id.index, id.generation)
                            ==> !m2.ticking() && m2.time() == m1.time() && m2.previous_time()
                            == m1.previous_time() && m2.tempo() == m1.tempo() && m2.rate()
                            == m1.rate() && m2.intervals() == m1.intervals(),
                        _ => true,
                    }
                },
                MetronomeCommand::StopMetronome(id) => {
                    &&& others_same(pre.metronomes(), post.metronomes(), id.index as int)
                    &&& single_metronome_step(pre.metronomes(), post.metronomes(), id)
                    &&& match (
                        pre.metronomes().slot_at(id.index as int),
                        post.metronomes().slot_at(id.index as int),
                    ) {
                        (Some(m1), Some(m2)) => pre.metronomes().live(id.index, id.generation)
                            ==> !m2.ticking() && m2.time() == 0 && m2.previous_time() == 0
                            && m2.tempo() == m1.tempo() && m2.rate() == m1.rate() && m2.intervals()
                            == m1.intervals(),
                        _ => true,
                    }
                },
            }
        },
        Command::Parameter(pc) => {
            &&& post.sounds() == pre.sounds()
            &&& post.instances() == pre.instances()
            &&& post.sequences() == pre.sequences()
            &&& post.metronomes() == pre.metronomes()
            &&& crate::parameters::parameter_dispatched(
                pre.params().arena(),
                pc,
                post.params().arena(),
            )
        },
        Command::Sequence(SequenceCommand::StartSequence(id, seq)) => {
            &&& post.sounds() == pre.sounds()
            &&& post.instances() == pre.instances()
            &&& post.metronomes() == pre.metronomes()
            &&& post.params() == pre.params()
            &&& others_same(pre.sequences(), post.sequences(), id.index as int)
            &&& if seq.wf() && pre.metronomes().live(
                seq.metronome_id().index,
                seq.metronome_id().generation,
            ) && (id.index as int) < pre.sequences().capacity() {
                post.sequences().live(id.index, id.generation) && match post.sequences().slot_at(
                    id.index as int,
                ) {
                    Some(s2) => s2.metronome_id() == seq.metronome_id() && s2.steps()
                        == seq.steps() && (s2.state() is Running || s2.state() is Finished),
                    None => false,
                }
            } else {
                slot_same(pre.sequences(), post.sequences(), id.index as int)
            }
        },
        Command::EmitCustomEvent(tag) => {
            &&& post.sounds() == pre.sounds()
            &&& post.instances() == pre.instances()
            &&& post.sequences() == pre.sequences()
            &&& post.metronomes() == pre.metronomes()
            &&& post.params() == pre.params()
        },
    }
}

/// A stale handle to a single instance slot leaves it untouched; a live
/// one keeps its generation stamp and occupancy.
pub open spec fn single_instance_step(
    pre: Arena<Instance>,
    post: Arena<Instance>,
    id: InstanceId,
) -> bool {
    if pre.live(id.index, id.generation) {
        post.gen_at(id.index as int) == id.generation && post.occupied(id.index as int)
    } else {
        slot_same(pre, post, id.index as int)
    }
}

/// A stale handle to a single metronome slot leaves it untouched; a live
/// one keeps its generation stamp and occupancy.
pub open spec fn single_metronome_step(
    pre: Arena<Metronome>,
    post: Arena<Metronome>,
    id: crate::metronome::MetronomeId,
) -> bool {
    if pre.live(id.index, id.generation) {
        post.gen_at(id.index as int) == id.generation && post.occupied(id.index as int)
    } else {
        slot_same(pre, post, id.index as int)
    }
}

/// A command list a sequence could have emitted: no sound transfers and
/// no nested sequences.
pub open spec fn commands_ok(q: Seq<Command>) -> bool {
    forall|k: int| 0 <= k < q.len() ==> crate::sequence::queued_ok(#[trigger] q[k])
}

/// The five stores and the rate agree; the ring endpoints, which the
/// other thread shares, are not compared.
pub open spec fn same_stores(pre: Backend, post: Backend) -> bool {
    &&& post.rate() == pre.rate()
    &&& post.sounds() == pre.sounds()
    &&& post.instances() == pre.instances()
    &&& post.sequences() == pre.sequences()
    &&& post.metronomes() == pre.metronomes()
    &&& post.params() == pre.params()
}

/// Whether `post`'s stores are reachable from `pre`'s by dispatching the
/// commands of `cmds` in order.
pub open spec fn dispatch_chain(pre: Backend, post: Backend, cmds: Seq<Command>) -> bool
    decreases cmds.len(),
{
    if cmds.len() == 0 {
        same_stores(pre, post)
    } else {
        exists|m: Backend| #[trigger] dispatched(pre, cmds[0], m) && dispatch_chain(
            m,
            post,
            cmds.drop_first(),
        )
    }
}

/// A dispatch step only constrains the stores, so its endpoints may be
/// swapped for store-equal states.
proof fn lemma_dispatched_congruence(
    pre: Backend,
    pre2: Backend,
    c: Command,
    post: Backend,
    post2: Backend,
)
    requires
        dispatched(pre, c, post),
        same_stores(pre, pre2),
        same_stores(post, post2),
    ensures
        dispatched(pre2, c, post2),
{
}

/// A dispatch chain may end at any store-equal state.
proof fn lemma_dispatch_chain_retarget(pre: Backend, a: Backend, b: Backend, cmds: Seq<Command>)
    requires
        dispatch_chain(pre, a, cmds),
        same_stores(a, b),
    ensures
        dispatch_chain(pre, b, cmds),
    decreases cmds.len(),
{
    if cmds.len() > 0 {
        let m0 = choose|m: Backend|
            #[trigger] dispatched(pre, cmds[0], m) && dispatch_chain(m, a, cmds.drop_first());
        lemma_dispatch_chain_retarget(m0, a, b, cmds.drop_first());
        assert(dispatched(pre, cmds[0], m0) && dispatch_chain(m0, b, cmds.drop_first()));
    }
}

/// Dispatching one more command extends a dispatch chain.
proof fn lemma_dispatch_chain_extend(
    pre: Backend,
    mid: Backend,
    post: Backend,
    cmds: Seq<Command>,
    c: Command,
)
    requires
        dispatch_chain(pre, mid, cmds),
        dispatched(mid, c, post),
    ensures
        dispatch_chain(pre, post, cmds.push(c)),
    decreases cmds.len(),
{
    if cmds.len() == 0 {
        assert(cmds.push(c)[0] == c);
        assert(cmds.push(c).drop_first() =~= Seq::<Command>::empty());
        lemma_dispatched_congruence(mid, pre, c, post, post);
        assert(dispatched(pre, c, post));
        assert(dispatch_chain(post, post, cmds.push(c).drop_first()));
    } else {
        let m0 = choose|m: Backend|
            #[trigger] dispatched(pre, cmds[0], m) && dispatch_chain(m, mid, cmds.drop_first());
        lemma_dispatch_chain_extend(m0, mid, post, cmds.drop_first(), c);
        assert(cmds.push(c)[0] == cmds[0]);
        assert(cmds.push(c).drop_first() =~= cmds.drop_first().push(c));
        assert(dispatched(pre, cmds.push(c)[0], m0) && dispatch_chain(
            m0,
            post,
            cmds.push(c).drop_first(),
        ));
    }
}

/// A dispatch chain of sequence-emittable commands never moves the
/// sequence store: such commands aim at instances, metronomes, parameters
/// or the event ring only.
pub proof fn lemma_safe_chain_keeps_sequences(pre: Backend, post: Backend, cmds: Seq<Command>)
    requires
        dispatch_chain(pre, post, cmds),
        commands_ok(cmds),
    ensures
        post.sequences() == pre.sequences(),
    decreases cmds.len(),
{
    if cmds.len() > 0 {
        let m0 = choose|m: Backend|
            #[trigger] dispatched(pre, cmds[0], m) && dispatch_chain(m, post, cmds.drop_first());
        assert(crate::sequence::queued_ok(cmds[0]));
        assert(m0.sequences() == pre.sequences());
        assert forall|k: int|
            0 <= k < cmds.drop_first().len() implies crate::sequence::queued_ok(
            #[trigger] cmds.drop_first()[k],
        ) by {
            assert(cmds.drop_first()[k] == cmds[k + 1]);
        }
        lemma_safe_chain_keeps_sequences(m0, post, cmds.drop_first());
    }
}

/// How the mixing pass relates the audio side before to after: every
/// occupied instance slot is advanced one tick by `Instance::update`'s
/// relation and removed exactly when that tick finishes it; nothing else
/// moves.
pub open spec fn mixed_and_advanced(pre: Backend, post: Backend) -> bool {
    &&& post.rate() == pre.rate()
    &&& post.sounds() == pre.sounds()
    &&& post.sequences() == pre.sequences()
    &&& post.metronomes() == pre.metronomes()
    &&& post.params() == pre.params()
    &&& post.instances().capacity() == pre.instances().capacity()
    &&& forall|j: int|
        0 <= j < pre.instances().capacity() ==> post.instances().gen_at(j)
            == pre.instances().gen_at(j)
    &&& forall|j: int|
        0 <= j < pre.instances().capacity() ==> match #[trigger] pre.instances().slot_at(j) {
            Some(a) => if next_state_of(a) is Stopped {
                !post.instances().occupied(j)
            } else {
                match post.instances().slot_at(j) {
                    Some(b) => ticked(a, b),
                    None => false,
                }
            },
            None => !post.instances().occupied(j),
        }
}

/// The audio-thread engine.
pub struct Backend {
    sample_rate: u32,
    sounds: Arena<Sound>,
    instances: Arena<Instance>,
    sequences: Arena<Sequence>,
    metronomes: Arena<Metronome>,
    parameters: Parameters,
    command_consumer: ringbuf::Consumer<Command>,
    event_producer: ringbuf::Producer<Event>,
    unused_instance_producer: ringbuf::Producer<InstanceId>,
    interval_scratch: Vec<u64>,
    sequence_command_queue: Vec<Command>,
}

impl Backend {
    /// Every arena is well formed and everything held in one is too;
    /// metronomes tick in this engine's time base.
    pub open spec fn wf(self) -> bool {
        &&& 1 <= self.rate() <= 1000000
        &&& self.sounds().wf()
        &&& self.instances().wf()
        &&& self.sequences().wf()
        &&& self.metronomes().wf()
        &&& self.params().wf()
        &&& forall|i: int|
            0 <= i < self.sounds().capacity() ==> match #[trigger] self.sounds().slot_at(i) {
                Some(s) => s.wf(),
                None => true,
            }
        &&& forall|i: int|
            0 <= i < self.instances().capacity() ==> match #[trigger] self.instances().slot_at(i) {
                Some(inst) => inst.wf(),
                None => true,
            }
        &&& forall|i: int|
            0 <= i < self.sequences().capacity() ==> match #[trigger] self.sequences().slot_at(i) {
                Some(s) => s.wf(),
                None => true,
            }
        &&& forall|i: int|
            0 <= i < self.metronomes().capacity() ==> match #[trigger] self.metronomes().slot_at(
                i,
            ) {
                Some(m) => m.wf() && m.rate() == self.rate(),
                None => true,
            }
    }

    /// The engine sample rate: ticks per second.
    pub closed spec fn rate(self) -> int {
        self.sample_rate as int
    }

    /// The sound store.
    pub closed spec fn sounds(self) -> Arena<Sound> {
        self.sounds
    }

    /// The instance store.
    pub closed spec fn instances(self) -> Arena<Instance> {
        self.instances
    }

    /// The sequence store.
    pub closed spec fn sequences(self) -> Arena<Sequence> {
        self.sequences
    }

    /// The metronome store.
    pub closed spec fn metronomes(self) -> Arena<Metronome> {
        self.metronomes
    }

    /// The parameter store.
    pub closed spec fn params(self) -> Parameters {
        self.parameters
    }

    /// The back-end's own fan-in queue of sequence-emitted commands.
    pub closed spec fn queue(self) -> Seq<Command> {
        self.sequence_command_queue@
    }

    /// Whether the fan-in queue holds only commands a sequence may emit.
    /// It does at rest: the queue starts empty and every cycle clears it.
    pub open spec fn queue_ok(self) -> bool {
        commands_ok(self.queue())
    }

    /// Capacities never move.
    pub open spec fn same_shape(pre: Backend, post: Backend) -> bool {
        &&& post.rate() == pre.rate()
        &&& post.sounds().capacity() == pre.sounds().capacity()
        &&& post.instances().capacity() == pre.instances().capacity()
        &&& post.sequences().capacity() == pre.sequences().capacity()
        &&& post.metronomes().capacity() == pre.metronomes().capacity()
        &&& post.params().arena().capacity() == pre.params().arena().capacity()
    }

    /// Build the audio side around its three rings.
    pub fn new(
        sample_rate: u32,
        settings: AudioManagerSettings,
        command_consumer: ringbuf::Consumer<Command>,
        event_producer: ringbuf::Producer<Event>,
        unused_instance_producer: ringbuf::Producer<InstanceId>,
        unused_parameter_producer: ringbuf::Producer<crate::parameters::Parameter>,
    ) -> (backend: Backend)
        requires
            1 <= sample_rate <= 1000000,
            settings.valid(),
        ensures
            backend.wf(),
            backend.rate() == sample_rate,
            backend.sounds().capacity() == settings.num_sounds,
            backend.instances().capacity() == settings.num_instances,
            backend.sequences().capacity() == settings.num_sequences,
            backend.metronomes().capacity() == settings.num_metronomes,
            backend.params().arena().capacity() == settings.num_parameters,
            forall|i: int|
                0 <= i < settings.num_instances ==> !backend.instances().occupied(i),
            forall|i: int| 0 <= i < settings.num_sounds ==> !backend.sounds().occupied(i),
            forall|i: int| 0 <= i < settings.num_sequences ==> !backend.sequences().occupied(i),
            forall|i: int| 0 <= i < settings.num_metronomes ==> !backend.metronomes().occupied(i),
            forall|i: int|
                0 <= i < settings.num_parameters ==> !backend.params().arena().occupied(i),
            backend.queue().len() == 0,
    {
        let backend = Backend {
            sample_rate,
            sounds: Arena::new(settings.num_sounds),
            instances: Arena::new(settings.num_instances),
            sequences: Arena::new(settings.num_sequences),
            metronomes: Arena::new(settings.num_metronomes),
            parameters: Parameters::new(settings.num_parameters, unused_parameter_producer),
            command_consumer,
            event_producer,
            unused_instance_producer,
            interval_scratch: Vec::with_capacity(settings.num_events),
            sequence_command_queue: Vec::with_capacity(settings.num_commands),
        };
        proof {
            assert forall|i: int| 0 <= i < backend.sounds().capacity() implies (match #[trigger] backend.sounds().slot_at(
                i,
            ) {
                Some(s) => s.wf(),
                None => true,
            }) by {
                assert(!backend.sounds().occupied(i));
            }
            assert forall|i: int|
                0 <= i < backend.instances().capacity() implies (match #[trigger] backend.instances().slot_at(i) {
                Some(inst) => inst.wf(),
                None => true,
            }) by {
                assert(!backend.instances().occupied(i));
            }
            assert forall|i: int|
                0 <= i < backend.sequences().capacity() implies (match #[trigger] backend.sequences().slot_at(i) {
                Some(q) => q.wf(),
                None => true,
            }) by {
                assert(!backend.sequences().occupied(i));
            }
            assert forall|i: int|
                0 <= i < backend.metronomes().capacity() implies (match #[trigger] backend.metronomes().slot_at(i) {
                Some(m) => m.wf() && m.rate() == backend.rate(),
                None => true,
            }) by {
                assert(!backend.metronomes().occupied(i));
            }
        }
        backend
    }

    /// Dispatch one command into the subsystem it aims at, exactly as
    /// `dispatched` states: unknown or stale handles change nothing, and
    /// no store but the targeted one moves.
    #[verifier::rlimit(100)]
    pub fn run_command(&mut self, command: Command)
        requires
            old(self).wf(),
        ensures
            final(self).wf(),
            Backend::same_shape(*old(self), *final(self)),
            dispatched(*old(self), command, *final(self)),
            old(self).queue_ok() ==> final(self).queue_ok(),
    {
        match command {
            Command::Sound(SoundCommand::LoadSound(id, sound)) => {
                if sound.wf_exec() {
                    self.sounds.insert_at(id.index, id.generation, sound);
                }
            },
            Command::Sound(SoundCommand::UnloadSound(id)) => {
                match self.sounds.remove(id.index, id.generation) {
                    Some(_) => {
                        self.stop_instances_of(id, None, true);
                    },
                    None => {},
                }
            },
            Command::Instance(InstanceCommand::PlaySound(sound_id, instance_id, settings)) => {
                let in_range = (instance_id.index as usize) < self.instances.capacity_exec();
                match self.sounds.remove(sound_id.index, sound_id.generation) {
                    Some(mut sound) => {
                        if in_range {
                            let frames: u64 = sound.frame_count_exec() as u64;
                            let rate_num: u64 = 1000 * (self.sample_rate as u64);
                            proof {
                                let f = frames as int;
                                let rn = rate_num as int;
                                assert(0 <= f * rn <= 0x3FFFFFFFFFFFFFFFint) by (nonlinear_arith)
                                    requires
                                        0 <= f <= 0xFFFF_FF00,
                                        0 <= rn <= 1000000000,
                                ;
                            }
                            let total: u64 = frames * rate_num;
                            let sr = sound.sample_rate();
                            assert(sr >= 1);
                            proof {
                                vstd::arithmetic::mul::lemma_mul_is_associative(
                                    frames as int,
                                    1000,
                                    self.sample_rate as int,
                                );
                            }
                            let d = total / (sr as u64);
                            proof {
                                vstd::arithmetic::div_mod::lemma_div_is_ordered_by_denominator(
                                    total as int,
                                    1,
                                    sound.rate(),
                                );
                            }
                            let cs = crate::instance::InstanceSettings {
                                volume_milli: clamp(settings.volume_milli, 0, VOLUME_CAP),
                                pitch_milli: clamp(settings.pitch_milli, 0, PITCH_CAP),
                                loop_start_units: settings.loop_start_units,
                            };
                            self.instances.insert_at(
                                instance_id.index,
                                instance_id.generation,
                                Instance::new(sound_id, cs, d),
                            );
                            sound.start_cooldown(self.sample_rate);
                        }
                        self.sounds.insert_at(sound_id.index, sound_id.generation, sound);
                    },
                    None => {},
                }
            },
            Command::Instance(InstanceCommand::SetInstanceVolume(id, volume, tween)) => {
                match self.instances.get(id.index, id.generation) {
                    Some(inst) => {
                        let mut inst2 = *inst;
                        let v = clamp(volume, 0, VOLUME_CAP);
                        inst2.set_volume(v, tween);
                        self.instances.insert_at(id.index, id.generation, inst2);
                    },
                    None => {},
                }
            },
            Command::Instance(InstanceCommand::SetInstancePitch(id, pitch, tween)) => {
                match self.instances.get(id.index, id.generation) {
                    Some(inst) => {
                        let mut inst2 = *inst;
                        let p = clamp(pitch, 0, PITCH_CAP);
                        inst2.set_pitch(p, tween);
                        self.instances.insert_at(id.index, id.generation, inst2);
                    },
                    None => {},
                }
            },
            Command::Instance(InstanceCommand::PauseInstance(id, tween)) => {
                match self.instances.get(id.index, id.generation) {
                    Some(inst) => {
                        let mut inst2 = *inst;
                        inst2.pause(tween);
                        self.instances.insert_at(id.index, id.generation, inst2);
                    },
                    None => {},
                }
            },
            Command::Instance(InstanceCommand::ResumeInstance(id, tween)) => {
                match self.instances.get(id.index, id.generation) {
                    Some(inst) => {
                        let mut inst2 = *inst;
                        inst2.resume(tween);
                        self.instances.insert_at(id.index, id.generation, inst2);
                    },
                    None => {},
                }
            },
            Command::Instance(InstanceCommand::StopInstance(id, tween)) => {
                match self.instances.get(id.index, id.generation) {
                    Some(inst) => {
                        let mut inst2 = *inst;
                        inst2.stop(tween);
                        self.instances.insert_at(id.index, id.generation, inst2);
                    },
                    None => {},
                }
            },
            Command::Instance(InstanceCommand::PauseInstancesOfSound(sound_id, tween)) => {
                self.pause_instances_of(sound_id, tween);
            },
            Command::Instance(InstanceCommand::ResumeInstancesOfSound(sound_id, tween)) => {
                self.resume_instances_of(sound_id, tween);
            },
            Command::Instance(InstanceCommand::StopInstancesOfSound(sound_id, tween)) => {
                self.stop_instances_of(sound_id, tween, false);
            },
            Command::Metronome(MetronomeCommand::AddMetronome(id, tempo, intervals)) => {
                if crate::metronome::intervals_valid(&intervals) {
                    let mb: u64 = if tempo.milli_bpm < 1 {
                        1
                    } else if tempo.milli_bpm > TEMPO_CAP {
                        TEMPO_CAP
                    } else {
                        tempo.milli_bpm
                    };
                    let m = Metronome::new(
                        crate::metronome::Tempo { milli_bpm: mb },
                        self.sample_rate,
                        intervals,
                    );
                    self.metronomes.insert_at(id.index, id.generation, m);
                }
            },
            Command::Metronome(MetronomeCommand::SetMetronomeTempo(id, tempo)) => {
                let mb: u64 = if tempo.milli_bpm < 1 {
                    1
                } else if tempo.milli_bpm > TEMPO_CAP {
                    TEMPO_CAP
                } else {
                    tempo.milli_bpm
                };
                match self.metronomes.remove(id.index, id.generation) {
                    Some(mut m) => {
                        m.set_tempo(crate::metronome::Tempo { milli_bpm: mb });
                        self.metronomes.insert_at(id.index, id.generation, m);
                    },
                    None => {},
                }
            },
            Command::Metronome(MetronomeCommand::StartMetronome(id)) => {
                match self.metronomes.remove(id.index, id.generation) {
                    Some(mut m) => {
                        m.start();
                        self.metronomes.insert_at(id.index, id.generation, m);
                    },
                    None => {},
                }
            },
            Command::Metronome(MetronomeCommand::PauseMetronome(id)) => {
                match self.metronomes.remove(id.index, id.generation) {
                    Some(mut m) => {
                        m.pause();
                        self.metronomes.insert_at(id.index, id.generation, m);
                    },
                    None => {},
                }
            },
            Command::Metronome(MetronomeCommand::StopMetronome(id)) => {
                match self.metronomes.remove(id.index, id.generation) {
                    Some(mut m) => {
                        m.stop();
                        self.metronomes.insert_at(id.index, id.generation, m);
                    },
                    None => {},
                }
            },
            Command::Parameter(pc) => {
                self.parameters.run_command(pc);
            },
            Command::Sequence(SequenceCommand::StartSequence(id, sequence)) => {
                if sequence.wf_exec() {
                    let mid = sequence.metronome_id_exec();
                    let known = match self.metronomes.get(mid.index, mid.generation) {
                        Some(_) => true,
                        None => false,
                    };
                    if known {
                        let mut sequence2 = sequence;
                        let ghost pre_q = self.queue();
                        match self.metronomes.get(mid.index, mid.generation) {
                            Some(metronome) => {
                                sequence2.start(metronome, &mut self.sequence_command_queue);
                            },
                            None => {},
                        }
                        proof {
                            if old(self).queue_ok() {
                                let q2 = self.queue();
                                assert(commands_ok(pre_q));
                                assert forall|k: int|
                                    0 <= k < q2.len() implies crate::sequence::queued_ok(
                                    #[trigger] q2[k],
                                ) by {
                                    if k < pre_q.len() {
                                        assert(q2.subrange(0, pre_q.len() as int)[k] == q2[k]);
                                        assert(crate::sequence::queued_ok(pre_q[k]));
                                    }
                                }
                                assert(commands_ok(q2));
                            }
                        }
                        self.sequences.insert_at(id.index, id.generation, sequence2);
                    }
                }
            },
            Command::EmitCustomEvent(tag) => {
                let _ = crate::ring::ring_push(&mut self.event_producer, Event::CustomEvent(tag));
            },
        }
    }

    /// Pause every instance of one sound; every other instance and every
    /// other store stays untouched.
    fn pause_instances_of(&mut self, sound_id: crate::sound::SoundId, tween: Option<Tween>)
        requires
            old(self).wf(),
        ensures
            final(self).wf(),
            Backend::same_shape(*old(self), *final(self)),
            final(self).sounds() == old(self).sounds(),
            final(self).sequences() == old(self).sequences(),
            final(self).metronomes() == old(self).metronomes(),
            final(self).params() == old(self).params(),
            final(self).queue() == old(self).queue(),
            forall|j: int|
                0 <= j < old(self).instances().capacity() ==> final(self).instances().gen_at(j)
                    == old(self).instances().gen_at(j),
            forall|j: int|
                0 <= j < old(self).instances().capacity() ==> match #[trigger] old(
                    self,
                ).instances().slot_at(j) {
                    Some(a) => match final(self).instances().slot_at(j) {
                        Some(b) => if a.sound_id() == sound_id {
                            pause_applied(a, b, tween)
                        } else {
                            b == a
                        },
                        None => false,
                    },
                    None => !final(self).instances().occupied(j),
                },
    {
        let cap = self.instances.capacity_exec();
        let mut i: usize = 0;
        while i < cap
            invariant
                self.wf(),
                Backend::same_shape(*old(self), *self),
                cap as int == self.instances().capacity(),
                self.sounds() == old(self).sounds(),
                self.sequences() == old(self).sequences(),
                self.metronomes() == old(self).metronomes(),
                self.params() == old(self).params(),
                self.queue() == old(self).queue(),
                forall|j: int|
                    0 <= j < old(self).instances().capacity() ==> self.instances().gen_at(j)
                        == old(self).instances().gen_at(j),
                forall|j: int|
                    0 <= j < i ==> match #[trigger] old(self).instances().slot_at(j) {
                        Some(a) => match self.instances().slot_at(j) {
                            Some(b) => if a.sound_id() == sound_id {
                                pause_applied(a, b, tween)
                            } else {
                                b == a
                            },
                            None => false,
                        },
                        None => !self.instances().occupied(j),
                    },
                forall|j: int|
                    i <= j < self.instances().capacity() ==> self.instances().slot_at(j) == old(self).instances().slot_at(j),
            decreases cap - i,
        {
            match self.instances.take_at(i) {
                Some(mut inst) => {
                    if inst.sound_id_exec() == sound_id {
                        inst.pause(tween);
                    }
                    self.instances.put_at(i, inst);
                },
                None => {},
            }
            i = i + 1;
        }
    }

    /// Resume every instance of one sound; every other instance and every
    /// other store stays untouched.
    fn resume_instances_of(&mut self, sound_id: crate::sound::SoundId, tween: Option<Tween>)
        requires
            old(self).wf(),
        ensures
            final(self).wf(),
            Backend::same_shape(*old(self), *final(self)),
            final(self).sounds() == old(self).sounds(),
            final(self).sequences() == old(self).sequences(),
            final(self).metronomes() == old(self).metronomes(),
            final(self).params() == old(self).params(),
            final(self).queue() == old(self).queue(),
            forall|j: int|
                0 <= j < old(self).instances().capacity() ==> final(self).instances().gen_at(j)
                    == old(self).instances().gen_at(j),
            forall|j: int|
                0 <= j < old(self).instances().capacity() ==> match #[trigger] old(
                    self,
                ).instances().slot_at(j) {
                    Some(a) => match final(self).instances().slot_at(j) {
                        Some(b) => if a.sound_id() == sound_id {
                            resume_applied(a, b, tween)
                        } else {
                            b == a
                        },
                        None => false,
                    },
                    None => !final(self).instances().occupied(j),
                },
    {
        let cap = self.instances.capacity_exec();
        let mut i: usize = 0;
        while i < cap
            invariant
                self.wf(),
                Backend::same_shape(*old(self), *self),
                cap as int == self.instances().capacity(),
                self.sounds() == old(self).sounds(),
                self.sequences() == old(self).sequences(),
                self.metronomes() == old(self).metronomes(),
                self.params() == old(self).params(),
                self.queue() == old(self).queue(),
                forall|j: int|
                    0 <= j < old(self).instances().capacity() ==> self.instances().gen_at(j)
                        == old(self).instances().gen_at(j),
                forall|j: int|
                    0 <= j < i ==> match #[trigger] old(self).instances().slot_at(j) {
                        Some(a) => match self.instances().slot_at(j) {
                            Some(b) => if a.sound_id() == sound_id {
                                resume_applied(a, b, tween)
                            } else {
                                b == a
                            },
                            None => false,
                        },
                        None => !self.instances().occupied(j),
                    },
                forall|j: int|
                    i <= j < self.instances().capacity() ==> self.instances().slot_at(j) == old(self).instances().slot_at(j),
            decreases cap - i,
        {
            match self.instances.take_at(i) {
                Some(mut inst) => {
                    if inst.sound_id_exec() == sound_id {
                        inst.resume(tween);
                    }
                    self.instances.put_at(i, inst);
                },
                None => {},
            }
            i = i + 1;
        }
    }

    /// Stop every instance of one sound; when `discard` is set (the sound
    /// was unloaded) they are removed at once and their handles recycled.
    /// Every other instance and every other store stays untouched.
    fn stop_instances_of(
        &mut self,
        sound_id: crate::sound::SoundId,
        tween: Option<Tween>,
        discard: bool,
    )
        requires
            old(self).wf(),
        ensures
            final(self).wf(),
            Backend::same_shape(*old(self), *final(self)),
            final(self).sounds() == old(self).sounds(),
            final(self).sequences() == old(self).sequences(),
            final(self).metronomes() == old(self).metronomes(),
            final(self).params() == old(self).params(),
            final(self).queue() == old(self).queue(),
            forall|j: int|
                0 <= j < old(self).instances().capacity() ==> final(self).instances().gen_at(j)
                    == old(self).instances().gen_at(j),
            forall|j: int|
                0 <= j < old(self).instances().capacity() ==> match #[trigger] old(
                    self,
                ).instances().slot_at(j) {
                    Some(a) => if a.sound_id() == sound_id && discard {
                        !final(self).instances().occupied(j)
                    } else {
                        match final(self).instances().slot_at(j) {
                            Some(b) => if a.sound_id() == sound_id {
                                stop_applied(a, b, tween)
                            } else {
                                b == a
                            },
                            None => false,
                        }
                    },
                    None => !final(self).instances().occupied(j),
                },
    {
        let cap = self.instances.capacity_exec();
        let mut i: usize = 0;
        while i < cap
            invariant
                self.wf(),
                Backend::same_shape(*old(self), *self),
                cap as int == self.instances().capacity(),
                self.sounds() == old(self).sounds(),
                self.sequences() == old(self).sequences(),
                self.metronomes() == old(self).metronomes(),
                self.params() == old(self).params(),
                self.queue() == old(self).queue(),
                forall|j: int|
                    0 <= j < old(self).instances().capacity() ==> self.instances().gen_at(j)
                        == old(self).instances().gen_at(j),
                forall|j: int|
                    0 <= j < i ==> match #[trigger] old(self).instances().slot_at(j) {
                        Some(a) => if a.sound_id() == sound_id && discard {
                            !self.instances().occupied(j)
                        } else {
                            match self.instances().slot_at(j) {
                                Some(b) => if a.sound_id() == sound_id {
                                    stop_applied(a, b, tween)
                                } else {
                                    b == a
                                },
                                None => false,
                            }
                        },
                        None => !self.instances().occupied(j),
                    },
                forall|j: int|
                    i <= j < self.instances().capacity() ==> self.instances().slot_at(j) == old(self).instances().slot_at(j),
            decreases cap - i,
        {
            let generation = self.instances.generation_at(i);
            match self.instances.take_at(i) {
                Some(mut inst) => {
                    if inst.sound_id_exec() == sound_id && discard {
                        let _ = crate::ring::ring_push(
                            &mut self.unused_instance_producer,
                            InstanceId { index: i as u32, generation },
                        );
                    } else {
                        if inst.sound_id_exec() == sound_id {
                            inst.stop(tween);
                        }
                        self.instances.put_at(i, inst);
                    }
                },
                None => {},
            }
            i = i + 1;
        }
    }

    /// Drain the command ring, up to the cycle's budget, and dispatch each
    /// command in ring order: the final state is reachable from the old
    /// one by a chain of `dispatched` steps, one per drained command.
    pub fn process_commands(&mut self)
        requires
            old(self).wf(),
        ensures
            final(self).wf(),
            Backend::same_shape(*old(self), *final(self)),
            exists|cmds: Seq<Command>| #[trigger] dispatch_chain(*old(self), *final(self), cmds),
            old(self).queue_ok() ==> final(self).queue_ok(),
    {
        let ghost mut cmds: Seq<Command> = Seq::empty();
        let ghost mut known: Backend = *old(self);
        let mut budget: u32 = COMMAND_BUDGET;
        while budget > 0
            invariant
                self.wf(),
                Backend::same_shape(*old(self), *self),
                dispatch_chain(*old(self), known, cmds),
                same_stores(known, *self),
                old(self).queue_ok() ==> commands_ok(self.queue()),
            decreases budget,
        {
            budget = budget - 1;
            match crate::ring::ring_pop(&mut self.command_consumer) {
                Some(command) => {
                    let ghost before = *self;
                    let ghost cmd = command;
                    self.run_command(command);
                    proof {
                        lemma_dispatch_chain_retarget(*old(self), known, before, cmds);
                        lemma_dispatch_chain_extend(*old(self), before, *self, cmds, cmd);
                        cmds = cmds.push(cmd);
                        known = *self;
                    }
                },
                None => {
                    proof {
                        lemma_dispatch_chain_retarget(*old(self), known, *self, cmds);
                    }
                    return ;
                },
            }
        }
        proof {
            lemma_dispatch_chain_retarget(*old(self), known, *self, cmds);
        }
    }

    /// Advance every metronome one tick by `Metronome::update`'s relation
    /// and report each crossed interval to the controller; events are
    /// dropped when the event ring is full, and no other store moves.
    pub fn update_metronomes(&mut self)
        requires
            old(self).wf(),
        ensures
            final(self).wf(),
            Backend::same_shape(*old(self), *final(self)),
            final(self).sounds() == old(self).sounds(),
            final(self).instances() == old(self).instances(),
            final(self).sequences() == old(self).sequences(),
            final(self).params() == old(self).params(),
            final(self).queue() == old(self).queue(),
            forall|j: int|
                0 <= j < old(self).metronomes().capacity() ==> final(self).metronomes().gen_at(j)
                    == old(self).metronomes().gen_at(j),
            forall|j: int|
                0 <= j < old(self).metronomes().capacity() ==> match #[trigger] old(
                    self,
                ).metronomes().slot_at(j) {
                    Some(m1) => match final(self).metronomes().slot_at(j) {
                        Some(m2) => crate::metronome::metronome_ticked(m1, m2),
                        None => false,
                    },
                    None => !final(self).metronomes().occupied(j),
                },
    {
        let cap = self.metronomes.capacity_exec();
        let mut i: usize = 0;
        while i < cap
            invariant
                self.wf(),
                Backend::same_shape(*old(self), *self),
                cap as int == self.metronomes().capacity(),
                self.sounds() == old(self).sounds(),
                self.instances() == old(self).instances(),
                self.sequences() == old(self).sequences(),
                self.params() == old(self).params(),
                self.queue() == old(self).queue(),
                forall|j: int|
                    0 <= j < cap ==> self.metronomes().gen_at(j) == old(self).metronomes().gen_at(
                        j,
                    ),
                forall|j: int|
                    i <= j < cap ==> self.metronomes().slot_at(j) == old(
                        self,
                    ).metronomes().slot_at(j),
                forall|j: int|
                    0 <= j < i ==> match #[trigger] old(self).metronomes().slot_at(j) {
                        Some(m1) => match self.metronomes().slot_at(j) {
                            Some(m2) => crate::metronome::metronome_ticked(m1, m2),
                            None => false,
                        },
                        None => !self.metronomes().occupied(j),
                    },
            decreases cap - i,
        {
            let generation = self.metronomes.generation_at(i);
            match self.metronomes.take_at(i) {
                Some(mut m) => {
                    self.interval_scratch.clear();
                    m.update(&mut self.interval_scratch);
                    self.metronomes.put_at(i, m);
                    let id = crate::metronome::MetronomeId { index: i as u32, generation };
                    let ghost snap = *self;
                    let mut k: usize = 0;
                    while k < self.interval_scratch.len()
                        invariant
                            self.wf(),
                            Backend::same_shape(*old(self), *self),
                            cap as int == self.metronomes().capacity(),
                            self.sounds() == snap.sounds(),
                            self.instances() == snap.instances(),
                            self.sequences() == snap.sequences(),
                            self.params() == snap.params(),
                            self.metronomes() == snap.metronomes(),
                            self.queue() == snap.queue(),
                        decreases self.interval_scratch@.len() - k,
                    {
                        let iv = self.interval_scratch[k];
                        let _ = crate::ring::ring_push(
                            &mut self.event_producer,
                            Event::MetronomeIntervalPassed(id, iv),
                        );
                        k = k + 1;
                    }
                },
                None => {},
            }
            i = i + 1;
        }
    }

    /// How the sequence-stepping pass relates the sequence store before to
    /// after: every held sequence keeps its program, steps by
    /// `Sequence::update`'s relation against its (unchanged) metronome, and
    /// is removed exactly when its tick finished it.
    pub open spec fn sequences_stepped(pre: Backend, post: Backend) -> bool {
        &&& post.sequences().capacity() == pre.sequences().capacity()
        &&& forall|j: int|
            0 <= j < pre.sequences().capacity() ==> post.sequences().gen_at(j)
                == pre.sequences().gen_at(j)
        &&& forall|j: int|
            0 <= j < pre.sequences().capacity() ==> match #[trigger] pre.sequences().slot_at(j) {
                Some(s1) => match post.sequences().slot_at(j) {
                    Some(s2) => {
                        &&& s2.metronome_id() == s1.metronome_id()
                        &&& s2.steps() == s1.steps()
                        &&& !(s2.state() is Finished)
                        &&& (!(s1.state() is Running) ==> s2 == s1)
                        &&& match pre.metronomes().slot_at(s1.metronome_id().index as int) {
                            Some(m) => pre.metronomes().live(
                                s1.metronome_id().index,
                                s1.metronome_id().generation,
                            ) && s1.state() is Running && crate::sequence::first_step_suspends(
                                s1,
                                m,
                            ) ==> crate::sequence::suspended_outcome(s1, m, s2),
                            None => true,
                        }
                    },
                    None => s1.state() is Running || s1.state() is Finished,
                },
                None => !post.sequences().occupied(j),
            }
    }

    /// How one sequence pass relates the audio side before to after:
    /// first only the sequence store steps (`sequences_stepped`), then a
    /// chain of the sequence-emittable commands the pass collected is
    /// dispatched into the final state. Such commands never move the
    /// sequence store (`lemma_safe_chain_keeps_sequences`), so the final
    /// sequence store is exactly the stepped one.
    pub open spec fn sequence_phase(
        pre: Backend,
        mid: Backend,
        cmds: Seq<Command>,
        post: Backend,
    ) -> bool {
        &&& Backend::same_shape(pre, mid)
        &&& mid.wf()
        &&& mid.sounds() == pre.sounds()
        &&& mid.instances() == pre.instances()
        &&& mid.metronomes() == pre.metronomes()
        &&& mid.params() == pre.params()
        &&& Backend::sequences_stepped(pre, mid)
        &&& commands_ok(cmds)
        &&& dispatch_chain(mid, post, cmds)
    }

    /// Advance every running sequence one tick, then execute what the
    /// sequences emitted, in order, through `run_command`. The sequence
    /// store steps exactly as `sequences_stepped` says, and with a
    /// well-formed queue the final state is reachable from the stepped one
    /// by dispatching exactly the emitted commands; the queue ends empty.
    pub fn update_sequences(&mut self)
        requires
            old(self).wf(),
        ensures
            final(self).wf(),
            Backend::same_shape(*old(self), *final(self)),
            final(self).queue().len() == 0,
            old(self).queue_ok() ==> exists|mid: Backend, cmds: Seq<Command>|
                #[trigger] Backend::sequence_phase(*old(self), mid, cmds, *final(self)),
            exists|mid: Backend|
                {
                    &&& #[trigger] Backend::same_shape(*old(self), mid)
                    &&& mid.wf()
                    &&& mid.sounds() == old(self).sounds()
                    &&& mid.instances() == old(self).instances()
                    &&& mid.metronomes() == old(self).metronomes()
                    &&& mid.params() == old(self).params()
                    &&& Backend::sequences_stepped(*old(self), mid)
                },
    {
        let cap = self.sequences.capacity_exec();
        let mut i: usize = 0;
        while i < cap
            invariant
                self.wf(),
                Backend::same_shape(*old(self), *self),
                cap as int == self.sequences().capacity(),
                self.sounds() == old(self).sounds(),
                self.instances() == old(self).instances(),
                self.metronomes() == old(self).metronomes(),
                self.params() == old(self).params(),
                old(self).queue_ok() ==> commands_ok(self.queue()),
                forall|j: int|
                    0 <= j < cap ==> self.sequences().gen_at(j) == old(self).sequences().gen_at(j),
                forall|j: int|
                    i <= j < cap ==> self.sequences().slot_at(j) == old(self).sequences().slot_at(
                        j,
                    ),
                forall|j: int|
                    0 <= j < i ==> match #[trigger] old(self).sequences().slot_at(j) {
                        Some(s1) => match self.sequences().slot_at(j) {
                            Some(s2) => {
                                &&& s2.metronome_id() == s1.metronome_id()
                                &&& s2.steps() == s1.steps()
                                &&& !(s2.state() is Finished)
                                &&& (!(s1.state() is Running) ==> s2 == s1)
                                &&& match old(self).metronomes().slot_at(
                                    s1.metronome_id().index as int,
                                ) {
                                    Some(m) => old(self).metronomes().live(
                                        s1.metronome_id().index,
                                        s1.metronome_id().generation,
                                    ) && s1.state() is Running
                                        && crate::sequence::first_step_suspends(s1, m)
                                        ==> crate::sequence::suspended_outcome(s1, m, s2),
                                    None => true,
                                }
                            },
                            None => s1.state() is Running || s1.state() is Finished,
                        },
                        None => !self.sequences().occupied(j),
                    },
            decreases cap - i,
        {
            match self.sequences.take_at(i) {
                Some(mut s) => {
                    let mid = s.metronome_id_exec();
                    let ghost pre_q = self.queue();
                    match self.metronomes.get(mid.index, mid.generation) {
                        Some(metronome) => {
                            s.update(metronome, &mut self.sequence_command_queue);
                        },
                        None => {},
                    }
                    proof {
                        if old(self).queue_ok() {
                            let q2 = self.queue();
                            assert forall|k: int|
                                0 <= k < q2.len() implies crate::sequence::queued_ok(
                                #[trigger] q2[k],
                            ) by {
                                if k < pre_q.len() {
                                    assert(q2.subrange(0, pre_q.len() as int)[k] == q2[k]);
                                    assert(crate::sequence::queued_ok(pre_q[k]));
                                }
                            }
                            assert(commands_ok(q2));
                        }
                    }
                    if !s.finished() {
                        self.sequences.put_at(i, s);
                    }
                },
                None => {},
            }
            i = i + 1;
        }
        let ghost mid_state = *self;
        proof {
            assert(Backend::same_shape(*old(self), mid_state));
            assert(Backend::sequences_stepped(*old(self), mid_state));
        }
        let ghost mut cmds: Seq<Command> = Seq::empty();
        let ghost mut known: Backend = mid_state;
        let mut budget: u32 = COMMAND_BUDGET;
        while budget > 0 && self.sequence_command_queue.len() > 0
            invariant
                self.wf(),
                Backend::same_shape(*old(self), *self),
                dispatch_chain(mid_state, known, cmds),
                same_stores(known, *self),
                old(self).queue_ok() ==> commands_ok(self.queue()),
                old(self).queue_ok() ==> commands_ok(cmds),
            decreases budget,
        {
            budget = budget - 1;
            let ghost q0 = self.queue();
            let command = self.sequence_command_queue.remove(0);
            let ghost cmd = command;
            proof {
                if old(self).queue_ok() {
                    assert(crate::sequence::queued_ok(q0[0]));
                    let q2 = self.queue();
                    assert forall|k: int|
                        0 <= k < q2.len() implies crate::sequence::queued_ok(
                        #[trigger] q2[k],
                    ) by {
                        assert(q2[k] == q0[k + 1]);
                    }
                    assert(commands_ok(q2));
                }
            }
            let ghost before = *self;
            self.run_command(command);
            proof {
                lemma_dispatch_chain_retarget(mid_state, known, before, cmds);
                lemma_dispatch_chain_extend(mid_state, before, *self, cmds, cmd);
                if old(self).queue_ok() {
                    let cmds2 = cmds.push(cmd);
                    assert forall|k: int|
                        0 <= k < cmds2.len() implies crate::sequence::queued_ok(
                        #[trigger] cmds2[k],
                    ) by {
                        if k < cmds.len() {
                            assert(cmds2[k] == cmds[k]);
                        } else {
                            assert(cmds2[k] == cmd);
                        }
                    }
                    assert(commands_ok(cmds2));
                }
                cmds = cmds.push(cmd);
                known = *self;
            }
        }
        self.sequence_command_queue.clear();
        proof {
            lemma_dispatch_chain_retarget(mid_state, known, *self, cmds);
            if old(self).queue_ok() {
                assert(Backend::sequence_phase(*old(self), mid_state, cmds, *self));
            }
        }
    }

    /// What one occupied instance slot contributes to the left channel:
    /// the sound's frame at the instance's position, scaled by the
    /// instance's effective volume. Slots that are vacant, not playing,
    /// or point at a missing sound contribute silence.
    pub open spec fn mix_term_l(self, i: int) -> int {
        match self.instances().slot_at(i) {
            Some(inst) => if crate::instance::advances(inst.state()) {
                match self.sounds().slot_at(inst.sound_id().index as int) {
                    Some(sound) => if self.sounds().live(
                        inst.sound_id().index,
                        inst.sound_id().generation,
                    ) {
                        crate::frame::sat_amp(
                            crate::frame::div_trunc(
                                sound.played_l(inst.position(), 1000 * self.rate())
                                    * inst.effective_volume_spec(),
                                1000,
                            ),
                        )
                    } else {
                        0
                    },
                    None => 0,
                }
            } else {
                0
            },
            None => 0,
        }
    }

    /// What one occupied instance slot contributes to the right channel.
    pub open spec fn mix_term_r(self, i: int) -> int {
        match self.instances().slot_at(i) {
            Some(inst) => if crate::instance::advances(inst.state()) {
                match self.sounds().slot_at(inst.sound_id().index as int) {
                    Some(sound) => if self.sounds().live(
                        inst.sound_id().index,
                        inst.sound_id().generation,
                    ) {
                        crate::frame::sat_amp(
                            crate::frame::div_trunc(
                                sound.played_r(inst.position(), 1000 * self.rate())
                                    * inst.effective_volume_spec(),
                                1000,
                            ),
                        )
                    } else {
                        0
                    },
                    None => 0,
                }
            } else {
                0
            },
            None => 0,
        }
    }

    /// The saturated running sum of the first `n` slots' left channels.
    pub open spec fn mix_l(self, n: int) -> int
        decreases n,
    {
        if n <= 0 {
            0
        } else {
            crate::frame::sat_amp(self.mix_l(n - 1) + self.mix_term_l(n - 1))
        }
    }

    /// The saturated running sum of the first `n` slots' right channels.
    pub open spec fn mix_r(self, n: int) -> int
        decreases n,
    {
        if n <= 0 {
            0
        } else {
            crate::frame::sat_amp(self.mix_r(n - 1) + self.mix_term_r(n - 1))
        }
    }

    /// Mix every playing instance into one output frame, advance each
    /// instance one tick, and reclaim finished instances, recycling their
    /// handles to the controller. The output is exactly the saturated sum
    /// of the slots' contributions.
    pub fn mix_and_advance(&mut self) -> (out: Frame)
        requires
            old(self).wf(),
        ensures
            final(self).wf(),
            Backend::same_shape(*old(self), *final(self)),
            out.l() == old(self).mix_l(old(self).instances().capacity()),
            out.r() == old(self).mix_r(old(self).instances().capacity()),
            mixed_and_advanced(*old(self), *final(self)),
            final(self).queue() == old(self).queue(),
    {
        let mut out = Frame::zero();
        let den: u64 = 1000 * (self.sample_rate as u64);
        let cap = self.instances.capacity_exec();
        let mut i: usize = 0;
        while i < cap
            invariant
                self.wf(),
                Backend::same_shape(*old(self), *self),
                cap as int == self.instances().capacity(),
                den == 1000 * self.rate(),
                i <= cap,
                self.sounds() == old(self).sounds(),
                self.sequences() == old(self).sequences(),
                self.metronomes() == old(self).metronomes(),
                self.params() == old(self).params(),
                self.queue() == old(self).queue(),
                forall|j: int|
                    0 <= j < cap ==> self.instances().gen_at(j) == old(self).instances().gen_at(j),
                forall|j: int|
                    i <= j < cap ==> self.instances().slot_at(j) == old(self).instances().slot_at(
                        j,
                    ),
                forall|j: int|
                    0 <= j < i ==> match #[trigger] old(self).instances().slot_at(j) {
                        Some(a) => if next_state_of(a) is Stopped {
                            !self.instances().occupied(j)
                        } else {
                            match self.instances().slot_at(j) {
                                Some(b) => ticked(a, b),
                                None => false,
                            }
                        },
                        None => !self.instances().occupied(j),
                    },
                out.l() == old(self).mix_l(i as int),
                out.r() == old(self).mix_r(i as int),
            decreases cap - i,
        {
            let generation = self.instances.generation_at(i);
            match self.instances.take_at(i) {
                Some(mut inst) => {
                    if inst.playing() {
                        match self.sounds.get(
                            inst.sound_id_exec().index,
                            inst.sound_id_exec().generation,
                        ) {
                            Some(sound) => {
                                let frame = sound.get_frame_at_position(inst.position_exec(), den);
                                out = out.add(frame.scaled(inst.effective_volume()));
                            },
                            None => {},
                        }
                    }
                    inst.update();
                    if inst.finished_exec() {
                        let _ = crate::ring::ring_push(
                            &mut self.unused_instance_producer,
                            InstanceId { index: i as u32, generation },
                        );
                    } else {
                        self.instances.put_at(i, inst);
                    }
                },
                None => {},
            }
            i = i + 1;
        }
        out
    }

    /// How the cycle's opening recycle pass relates the audio side before
    /// to after: only parameters move, and only marked ones can vanish.
    pub open spec fn recycle_phase(pre: Backend, post: Backend) -> bool {
        &&& post.rate() == pre.rate()
        &&& post.sounds() == pre.sounds()
        &&& post.instances() == pre.instances()
        &&& post.sequences() == pre.sequences()
        &&& post.metronomes() == pre.metronomes()
        &&& post.queue() == pre.queue()
        &&& post.params().arena().capacity() == pre.params().arena().capacity()
        &&& forall|i: int|
            0 <= i < pre.params().arena().capacity() && !(match pre.params().arena().slot_at(i) {
                Some(p) => p.removal_requested(),
                None => false,
            }) ==> post.params().arena().slot_at(i) == pre.params().arena().slot_at(i)
        &&& forall|i: int|
            0 <= i < pre.params().arena().capacity() ==> (post.params().arena().slot_at(i)
                == pre.params().arena().slot_at(i) || !post.params().arena().occupied(i))
        &&& forall|i: int|
            0 <= i < pre.params().arena().capacity() ==> #[trigger] post.params().arena().gen_at(i)
                == pre.params().arena().gen_at(i)
    }

    /// How the metronome pass relates the audio side before to after:
    /// every metronome ticks once, nothing else moves.
    pub open spec fn metronome_phase(pre: Backend, post: Backend) -> bool {
        &&& post.rate() == pre.rate()
        &&& post.sounds() == pre.sounds()
        &&& post.instances() == pre.instances()
        &&& post.sequences() == pre.sequences()
        &&& post.params() == pre.params()
        &&& post.queue() == pre.queue()
        &&& post.metronomes().capacity() == pre.metronomes().capacity()
        &&& forall|j: int|
            0 <= j < pre.metronomes().capacity() ==> post.metronomes().gen_at(j)
                == pre.metronomes().gen_at(j)
        &&& forall|j: int|
            0 <= j < pre.metronomes().capacity() ==> match #[trigger] pre.metronomes().slot_at(j) {
                Some(m1) => match post.metronomes().slot_at(j) {
                    Some(m2) => crate::metronome::metronome_ticked(m1, m2),
                    None => false,
                },
                None => !post.metronomes().occupied(j),
            }
    }

    /// How the cooldown pass relates the audio side before to after:
    /// every sound cools one tick, nothing else moves.
    pub open spec fn cooldown_phase(pre: Backend, post: Backend) -> bool {
        &&& post.rate() == pre.rate()
        &&& post.instances() == pre.instances()
        &&& post.sequences() == pre.sequences()
        &&& post.metronomes() == pre.metronomes()
        &&& post.params() == pre.params()
        &&& post.queue() == pre.queue()
        &&& post.sounds().capacity() == pre.sounds().capacity()
        &&& forall|j: int|
            0 <= j < pre.sounds().capacity() ==> post.sounds().gen_at(j) == pre.sounds().gen_at(j)
        &&& forall|j: int|
            0 <= j < pre.sounds().capacity() ==> match #[trigger] pre.sounds().slot_at(j) {
                Some(a) => match post.sounds().slot_at(j) {
                    Some(b) => cooled(a, b),
                    None => false,
                },
                None => !post.sounds().occupied(j),
            }
    }

    /// How the parameter pass relates the audio side before to after:
    /// every parameter's tween steps once, nothing else moves.
    pub open spec fn parameter_phase(pre: Backend, post: Backend) -> bool {
        &&& post.rate() == pre.rate()
        &&& post.sounds() == pre.sounds()
        &&& post.instances() == pre.instances()
        &&& post.sequences() == pre.sequences()
        &&& post.metronomes() == pre.metronomes()
        &&& post.queue() == pre.queue()
        &&& post.params().arena().capacity() == pre.params().arena().capacity()
        &&& forall|i: int|
            0 <= i < pre.params().arena().capacity() ==> match #[trigger] pre.params().arena().slot_at(
                i,
            ) {
                Some(p) => match post.params().arena().slot_at(i) {
                    Some(q) => crate::tween::steps_to(p.value(), q.value()),
                    None => false,
                },
                None => !post.params().arena().occupied(i),
            }
    }

    /// One whole cycle, phase by phase: recycle parameters, dispatch a
    /// chain of drained commands, tick the metronomes, step the sequences
    /// and dispatch what they emitted, cool the sounds, step the
    /// parameters, and mix that state into the output frame while its
    /// instances advance one tick into the final state.
    pub open spec fn cycle_relation(
        pre: Backend,
        m1: Backend,
        m2: Backend,
        m3: Backend,
        m4: Backend,
        m5: Backend,
        m6: Backend,
        post: Backend,
        out_l: int,
        out_r: int,
    ) -> bool {
        &&& Backend::recycle_phase(pre, m1)
        &&& (exists|cmds: Seq<Command>| #[trigger] dispatch_chain(m1, m2, cmds))
        &&& Backend::metronome_phase(m2, m3)
        &&& (exists|mid: Backend, cmds: Seq<Command>|
            #[trigger] Backend::sequence_phase(m3, mid, cmds, m4))
        &&& m4.queue().len() == 0
        &&& Backend::cooldown_phase(m4, m5)
        &&& Backend::parameter_phase(m5, m6)
        &&& out_l == m6.mix_l(m6.instances().capacity())
        &&& out_r == m6.mix_r(m6.instances().capacity())
        &&& mixed_and_advanced(m6, post)
    }

    /// Let one tick of cooldown elapse on every held sound; nothing else
    /// moves.
    fn update_cooldowns(&mut self)
        requires
            old(self).wf(),
        ensures
            final(self).wf(),
            Backend::same_shape(*old(self), *final(self)),
            final(self).instances() == old(self).instances(),
            final(self).sequences() == old(self).sequences(),
            final(self).metronomes() == old(self).metronomes(),
            final(self).params() == old(self).params(),
            final(self).queue() == old(self).queue(),
            forall|j: int|
                0 <= j < old(self).sounds().capacity() ==> final(self).sounds().gen_at(j) == old(self).sounds().gen_at(j),
            forall|j: int|
                0 <= j < old(self).sounds().capacity() ==> match #[trigger] old(
                    self,
                ).sounds().slot_at(j) {
                    Some(a) => match final(self).sounds().slot_at(j) {
                        Some(b) => cooled(a, b),
                        None => false,
                    },
                    None => !final(self).sounds().occupied(j),
                },
    {
        let cap = self.sounds.capacity_exec();
        let mut i: usize = 0;
        while i < cap
            invariant
                self.wf(),
                Backend::same_shape(*old(self), *self),
                cap as int == self.sounds().capacity(),
                self.instances() == old(self).instances(),
                self.sequences() == old(self).sequences(),
                self.metronomes() == old(self).metronomes(),
                self.params() == old(self).params(),
                self.queue() == old(self).queue(),
                forall|j: int|
                    0 <= j < cap ==> self.sounds().gen_at(j) == old(self).sounds().gen_at(j),
                forall|j: int|
                    i <= j < cap ==> self.sounds().slot_at(j) == old(self).sounds().slot_at(j),
                forall|j: int|
                    0 <= j < i ==> match #[trigger] old(self).sounds().slot_at(j) {
                        Some(a) => match self.sounds().slot_at(j) {
                            Some(b) => cooled(a, b),
                            None => false,
                        },
                        None => !self.sounds().occupied(j),
                    },
            decreases cap - i,
        {
            match self.sounds.take_at(i) {
                Some(mut sound) => {
                    sound.update_cooldown();
                    self.sounds.put_at(i, sound);
                },
                None => {},
            }
            i = i + 1;
        }
    }

    /// One audio cycle, in the spec's order: recycle, drain and dispatch
    /// the command ring, tick metronomes, step sequences and dispatch what
    /// they emitted, cool sounds, step parameters, then mix. With a
    /// well-formed queue (which it is at rest: the queue starts empty and
    /// every cycle clears it) the whole cycle is pinned phase by phase by
    /// `cycle_relation`; the returned frame is exactly the saturated mix
    /// of the state the earlier phases produced.
    pub fn process(&mut self) -> (out: Frame)
        requires
            old(self).wf(),
        ensures
            final(self).wf(),
            Backend::same_shape(*old(self), *final(self)),
            final(self).queue().len() == 0,
            old(self).queue_ok() ==> exists|
                m1: Backend,
                m2: Backend,
                m3: Backend,
                m4: Backend,
                m5: Backend,
                m6: Backend,
            |
                #[trigger] Backend::cycle_relation(
                    *old(self),
                    m1,
                    m2,
                    m3,
                    m4,
                    m5,
                    m6,
                    *final(self),
                    out.l(),
                    out.r(),
                ),
            exists|mid: Backend|
                {
                    &&& #[trigger] Backend::same_shape(*old(self), mid)
                    &&& mid.wf()
                    &&& out.l() == mid.mix_l(mid.instances().capacity())
                    &&& out.r() == mid.mix_r(mid.instances().capacity())
                    &&& mixed_and_advanced(mid, *final(self))
                },
    {
        self.parameters.on_start_processing();
        let ghost m1 = *self;
        self.process_commands();
        let ghost m2 = *self;
        self.update_metronomes();
        let ghost m3 = *self;
        self.update_sequences();
        let ghost m4 = *self;
        self.update_cooldowns();
        let ghost m5 = *self;
        self.parameters.update();
        let ghost m6 = *self;
        let out = self.mix_and_advance();
        proof {
            assert(Backend::same_shape(*old(self), m6));
            if old(self).queue_ok() {
                assert(Backend::recycle_phase(*old(self), m1));
                assert(commands_ok(m1.queue()));
                assert(Backend::metronome_phase(m2, m3));
                assert(commands_ok(m3.queue()));
                assert(Backend::cooldown_phase(m4, m5));
                assert(Backend::parameter_phase(m5, m6));
                assert(Backend::cycle_relation(
                    *old(self),
                    m1,
                    m2,
                    m3,
                    m4,
                    m5,
                    m6,
                    *self,
                    out.l(),
                    out.r(),
                ));
            }
        }
        out
    }
}

impl Backend {
    /// Where an instance stands in its life, seen through its handle.
    pub fn instance_state(&self, id: InstanceId) -> (r: Option<crate::instance::InstanceState>)
        requires
            self.wf(),
        ensures
            match r {
                Some(state) => match self.instances().slot_at(id.index as int) {
                    Some(inst) => self.instances().live(id.index, id.generation) && state
                        == inst.state(),
                    None => false,
                },
                None => !self.instances().live(id.index, id.generation),
            },
    {
        match self.instances.get(id.index, id.generation) {
            Some(inst) => Some(inst.state_exec()),
            None => None,
        }
    }

    /// What the mixer multiplies an instance's frames by, seen through
    /// its handle.
    pub fn instance_effective_volume(&self, id: InstanceId) -> (r: Option<i64>)
        requires
            self.wf(),
        ensures
            match r {
                Some(v) => match self.instances().slot_at(id.index as int) {
                    Some(inst) => self.instances().live(id.index, id.generation) && v
                        == inst.effective_volume_spec() && 0 <= v <= inst.volume().current(),
                    None => false,
                },
                None => !self.instances().live(id.index, id.generation),
            },
    {
        match self.instances.get(id.index, id.generation) {
            Some(inst) => Some(inst.effective_volume()),
            None => None,
        }
    }

    /// How many instances are alive: never more than the configured
    /// capacity.
    pub fn instance_count(&self) -> (n: usize)
        requires
            self.wf(),
        ensures
            n as int == self.instances().count(),
            n as int <= self.instances().capacity(),
    {
        proof {
            self.instances().lemma_count_within_capacity();
        }
        let cap = self.instances.capacity_exec();
        let mut n: usize = 0;
        let mut i: usize = 0;
        while i < cap
            invariant
                self.wf(),
                cap as int == self.instances().capacity(),
                i <= cap,
                n as int == self.instances().count_up_to(i as int),
                n <= i,
            decreases cap - i,
        {
            if self.instances.occupied_at(i) {
                n = n + 1;
            }
            i = i + 1;
        }
        n
    }

    /// A parameter's current value, seen through its handle.
    pub fn parameter_value(&self, id: crate::parameters::ParameterId) -> (r: Option<i64>)
        requires
            self.wf(),
        ensures
            match r {
                Some(v) => match self.params().arena().slot_at(id.index as int) {
                    Some(p) => self.params().arena().live(id.index, id.generation) && v as int
                        == p.value().current(),
                    None => false,
                },
                None => !self.params().arena().live(id.index, id.generation),
            },
    {
        match self.parameters.get(id) {
            Some(p) => Some(p.get()),
            None => None,
        }
    }

    /// Whether a sequence is still held under its handle.
    pub fn sequence_exists(&self, id: crate::sequence::SequenceId) -> (b: bool)
        requires
            self.wf(),
        ensures
            b == self.sequences().live(id.index, id.generation),
    {
        match self.sequences.get(id.index, id.generation) {
            Some(_) => true,
            None => false,
        }
    }
}

/// Clamp a value into a closed band.
fn clamp(v: i64, lo: i64, hi: i64) -> (r: i64)
    requires
        lo <= hi,
    ensures
        lo <= r <= hi,
        r == if v < lo {
            lo
        } else if v > hi {
            hi
        } else {
            v
        },
{
    if v < lo {
        lo
    } else if v > hi {
        hi
    } else {
        v
    }
}

} // verus!
