//! A sequence: an interpreter over timed steps, bound to a metronome.
//!
//! Each audio tick a running sequence executes steps until it reaches a
//! wait it cannot pass, emitting commands into the back-end's own queue.
//! The number of steps executed in one tick is capped, so a runaway
//! program cannot stall the audio thread.

use vstd::prelude::*;
use crate::command::Command;
use crate::command::InstanceCommand;
use crate::command::MetronomeCommand;
use crate::instance::InstanceId;
use crate::instance::InstanceSettings;
use crate::metronome::INTERVAL_CAP;
use crate::metronome::Metronome;
use crate::metronome::MetronomeId;
use crate::metronome::Tempo;
use crate::sound::SoundId;
use crate::tween::Tween;

verus! {

/// The most steps one sequence may execute in one audio tick.
pub const STEP_BUDGET: u32 = 1024;

/// Handle to a sequence held in the engine's arena.
#[derive(Clone, Copy, Debug, PartialEq, Eq, Structural)]
pub struct SequenceId {
    pub index: u32,
    pub generation: u32,
}

/// Where a sequence stands in its life.
#[derive(Clone, Copy, Debug, PartialEq, Eq, Structural)]
pub enum SequenceState {
    Idle,
    Running,
    Finished,
}

/// One entry of a sequence program.
#[derive(Clone, Copy, Debug)]
pub enum SequenceStep {
    /// Suspend for this many audio ticks.
    Wait(u64),
    /// Suspend until the bound metronome crosses a multiple of this
    /// interval (in milli-beats).
    WaitForInterval(u64),
    /// Start an instance of a sound under a pre-allocated handle.
    PlaySound(SoundId, InstanceId, InstanceSettings),
    /// Emit a user tag to the controller.
    EmitCustomEvent(u64),
    SetMetronomeTempo(MetronomeId, Tempo),
    StartMetronome(MetronomeId),
    PauseMetronome(MetronomeId),
    StopMetronome(MetronomeId),
    PauseInstance(InstanceId, Option<Tween>),
    ResumeInstance(InstanceId, Option<Tween>),
    StopInstance(InstanceId, Option<Tween>),
    /// Jump to a step index; an index past the end finishes the sequence.
    GoTo(usize),
    /// Finish the sequence.
    End,
}

/// Interval waits must lie inside the metronome's interval cap.
pub open spec fn step_valid(step: SequenceStep) -> bool {
    match step {
        SequenceStep::WaitForInterval(iv) => 1 <= iv <= INTERVAL_CAP,
        _ => true,
    }
}

/// The step a sequence's cursor stands on, if any.
pub open spec fn head_of(steps: Seq<SequenceStep>, cursor: int) -> Option<SequenceStep> {
    if 0 <= cursor < steps.len() {
        Some(steps[cursor])
    } else {
        None
    }
}

/// Whether the first step a run would meet halts it at once: the end of
/// the program, the end marker, a tick wait, or an interval wait that has
/// not crossed.
pub open spec fn first_step_suspends(pre: Sequence, m: Metronome) -> bool {
    match head_of(pre.steps(), pre.cursor()) {
        None => true,
        Some(SequenceStep::End) => true,
        Some(SequenceStep::Wait(_)) => true,
        Some(SequenceStep::WaitForInterval(iv)) => !m.crossed_value(iv),
        Some(_) => false,
    }
}

/// Commands a sequence may emit: never sound transfers and never other
/// sequences, so the back-end's own queue cannot recurse.
pub open spec fn queued_ok(c: Command) -> bool {
    match c {
        Command::Sound(_) => false,
        Command::Sequence(_) => false,
        _ => true,
    }
}

/// The command an executable step emits, if it emits one.
pub open spec fn step_command(step: SequenceStep) -> Option<Command> {
    match step {
        SequenceStep::PlaySound(sound_id, instance_id, settings) => Some(
            Command::Instance(InstanceCommand::PlaySound(sound_id, instance_id, settings)),
        ),
        SequenceStep::EmitCustomEvent(tag) => Some(Command::EmitCustomEvent(tag)),
        SequenceStep::SetMetronomeTempo(id, tempo) => Some(
            Command::Metronome(MetronomeCommand::SetMetronomeTempo(id, tempo)),
        ),
        SequenceStep::StartMetronome(id) => Some(
            Command::Metronome(MetronomeCommand::StartMetronome(id)),
        ),
        SequenceStep::PauseMetronome(id) => Some(
            Command::Metronome(MetronomeCommand::PauseMetronome(id)),
        ),
        SequenceStep::StopMetronome(id) => Some(
            Command::Metronome(MetronomeCommand::StopMetronome(id)),
        ),
        SequenceStep::PauseInstance(id, tween) => Some(
            Command::Instance(InstanceCommand::PauseInstance(id, tween)),
        ),
        SequenceStep::ResumeInstance(id, tween) => Some(
            Command::Instance(InstanceCommand::ResumeInstance(id, tween)),
        ),
        SequenceStep::StopInstance(id, tween) => Some(
            Command::Instance(InstanceCommand::StopInstance(id, tween)),
        ),
        _ => None,
    }
}

/// The interpreter itself, as a function: starting at `cursor` with a
/// pending `timer`, execute up to `fuel` steps of the program against the
/// metronome's last tick, and yield the final cursor, state, timer and the
/// commands emitted, in order. `Sequence::run` returns exactly this.
pub open spec fn run_program(
    steps: Seq<SequenceStep>,
    m: Metronome,
    cursor: int,
    timer: Option<u64>,
    fuel: nat,
) -> (int, SequenceState, Option<u64>, Seq<Command>)
    decreases fuel,
{
    if fuel == 0 {
        (cursor, SequenceState::Running, timer, Seq::<Command>::empty())
    } else if cursor >= steps.len() {
        (steps.len() as int, SequenceState::Finished, timer, Seq::<Command>::empty())
    } else {
        match steps[cursor] {
            SequenceStep::Wait(d) => {
                let t0 = match timer {
                    Some(t) => t,
                    None => d,
                };
                if t0 <= 1 {
                    (cursor + 1, SequenceState::Running, Option::<u64>::None, Seq::<Command>::empty())
                } else {
                    (cursor, SequenceState::Running, Some((t0 - 1) as u64), Seq::<Command>::empty())
                }
            },
            SequenceStep::WaitForInterval(iv) => if m.crossed_value(iv) {
                run_program(steps, m, cursor + 1, timer, (fuel - 1) as nat)
            } else {
                (cursor, SequenceState::Running, timer, Seq::<Command>::empty())
            },
            SequenceStep::End => (
                steps.len() as int,
                SequenceState::Finished,
                timer,
                Seq::<Command>::empty(),
            ),
            SequenceStep::GoTo(k) => run_program(
                steps,
                m,
                if k as int <= steps.len() {
                    k as int
                } else {
                    steps.len() as int
                },
                timer,
                (fuel - 1) as nat,
            ),
            step => {
                let rest = run_program(steps, m, cursor + 1, timer, (fuel - 1) as nat);
                match step_command(step) {
                    Some(c) => (rest.0, rest.1, rest.2, seq![c] + rest.3),
                    None => rest,
                }
            },
        }
    }
}

/// How one tick resolves a suspending first step, exactly.
pub open spec fn suspended_outcome(pre: Sequence, m: Metronome, post: Sequence) -> bool {
    match head_of(pre.steps(), pre.cursor()) {
        None => post.state() is Finished && post.cursor() == pre.steps().len(),
        Some(SequenceStep::End) => post.state() is Finished && post.cursor() == pre.steps().len(),
        Some(SequenceStep::Wait(d)) => {
            let t0 = match pre.wait_timer() {
                Some(t) => t,
                None => d,
            };
            &&& post.state() is Running
            &&& if t0 <= 1 {
                post.cursor() == pre.cursor() + 1 && post.wait_timer() is None
            } else {
                post.cursor() == pre.cursor() && post.wait_timer() == Some((t0 - 1) as u64)
            }
        },
        Some(SequenceStep::WaitForInterval(iv)) => {
            &&& post.state() is Running
            &&& post.cursor() == pre.cursor()
            &&& post.wait_timer() == pre.wait_timer()
        },
        Some(_) => true,
    }
}

/// A program over sequence steps, advanced in step with its metronome.
pub struct Sequence {
    metronome_id: MetronomeId,
    steps: Vec<SequenceStep>,
    cursor: usize,
    state: SequenceState,
    wait_timer: Option<u64>,
}

impl Sequence {
    /// The cursor stays inside the program, a finished sequence sits at
    /// its end, and every step is valid.
    pub open spec fn wf(self) -> bool {
        &&& self.cursor() <= self.steps().len()
        &&& self.state() is Finished ==> self.cursor() == self.steps().len()
        &&& forall|i: int| 0 <= i < self.steps().len() ==> step_valid(#[trigger] self.steps()[i])
    }

    /// The metronome this sequence is bound to.
    pub closed spec fn metronome_id(self) -> MetronomeId {
        self.metronome_id
    }

    /// The program.
    pub closed spec fn steps(self) -> Seq<SequenceStep> {
        self.steps@
    }

    /// The step the interpreter stands on.
    pub closed spec fn cursor(self) -> int {
        self.cursor as int
    }

    /// Where the sequence stands in its life.
    pub closed spec fn state(self) -> SequenceState {
        self.state
    }

    /// Ticks the current wait still needs, once entered.
    pub closed spec fn wait_timer(self) -> Option<u64> {
        self.wait_timer
    }

    /// Build an idle sequence over a program.
    pub fn new(metronome_id: MetronomeId, steps: Vec<SequenceStep>) -> (s: Sequence)
        requires
            forall|i: int| 0 <= i < steps@.len() ==> step_valid(#[trigger] steps@[i]),
        ensures
            s.wf(),
            s.metronome_id() == metronome_id,
            s.steps() == steps@,
            s.state() == SequenceState::Idle,
            s.cursor() == 0,
    {
        Sequence {
            metronome_id,
            steps,
            cursor: 0,
            state: SequenceState::Idle,
            wait_timer: None,
        }
    }

    /// Whether the sequence is well formed, executable.
    pub fn wf_exec(&self) -> (b: bool)
        ensures
            b == self.wf(),
    {
        let cursor_ok = self.cursor <= self.steps.len();
        let finished_ok = match self.state {
            SequenceState::Finished => self.cursor == self.steps.len(),
            _ => true,
        };
        if !(cursor_ok && finished_ok) {
            return false;
        }
        let mut i: usize = 0;
        while i < self.steps.len()
            invariant
                i <= self.steps().len(),
                forall|j: int| 0 <= j < i ==> step_valid(#[trigger] self.steps()[j]),
            decreases self.steps@.len() - i,
        {
            let ok = match self.steps[i] {
                SequenceStep::WaitForInterval(iv) => 1 <= iv && iv <= INTERVAL_CAP,
                _ => true,
            };
            if !ok {
                return false;
            }
            i = i + 1;
        }
        true
    }

    /// The metronome this sequence is bound to, executable.
    pub fn metronome_id_exec(&self) -> (id: MetronomeId)
        ensures
            id == self.metronome_id(),
    {
        self.metronome_id
    }

    /// Whether the sequence is done and may be reclaimed.
    pub fn finished(&self) -> (b: bool)
        ensures
            b == (self.state() is Finished),
    {
        match self.state {
            SequenceState::Finished => true,
            _ => false,
        }
    }

    /// Begin running from the first step, executing steps up to the first
    /// wait; emitted commands go to `out`.
    pub fn start(&mut self, metronome: &Metronome, out: &mut Vec<Command>)
        requires
            old(self).wf(),
            metronome.wf(),
        ensures
            final(self).wf(),
            final(self).metronome_id() == old(self).metronome_id(),
            final(self).steps() == old(self).steps(),
            final(self).state() is Running || final(self).state() is Finished,
            final(out)@.len() >= old(out)@.len(),
            final(out)@.subrange(0, old(out)@.len() as int) == old(out)@,
            forall|k: int|
                old(out)@.len() <= k < final(out)@.len() ==> queued_ok(#[trigger] final(out)@[k]),
            match head_of(old(self).steps(), 0) {
                None => final(self).state() is Finished && final(self).cursor() == old(self).steps().len(),
                Some(SequenceStep::End) => final(self).state() is Finished && final(self).cursor()
                    == old(self).steps().len(),
                Some(SequenceStep::Wait(d)) => final(self).state() is Running && (if d <= 1 {
                    final(self).cursor() == 1 && final(self).wait_timer() is None
                } else {
                    final(self).cursor() == 0 && final(self).wait_timer() == Some((d - 1) as u64)
                }),
                Some(SequenceStep::WaitForInterval(iv)) => !metronome.crossed_value(iv) ==> (final(self).state() is Running && final(self).cursor() == 0),
                Some(step) => match step_command(step) {
                    Some(c) => final(out)@.len() > old(out)@.len() && final(out)@[old(out)@.len() as int]
                        == c,
                    None => true,
                },
            },
            ({
                let r = run_program(
                    old(self).steps(),
                    *metronome,
                    0,
                    Option::<u64>::None,
                    STEP_BUDGET as nat,
                );
                &&& final(self).cursor() == r.0
                &&& final(self).state() == r.1
                &&& final(self).wait_timer() == r.2
                &&& final(out)@ == old(out)@ + r.3
            }),
    {
        self.state = SequenceState::Running;
        self.cursor = 0;
        self.wait_timer = None;
        self.run(metronome, out);
    }

    /// One audio tick: execute steps until a wait suspends the sequence,
    /// the program finishes, or the per-tick budget runs out. Sequences
    /// not running do nothing.
    pub fn update(&mut self, metronome: &Metronome, out: &mut Vec<Command>)
        requires
            old(self).wf(),
            metronome.wf(),
        ensures
            final(self).wf(),
            final(self).metronome_id() == old(self).metronome_id(),
            final(self).steps() == old(self).steps(),
            !(old(self).state() is Running) ==> *final(self) == *old(self) && *final(out) == *old(
                out,
            ),
            final(out)@.len() >= old(out)@.len(),
            final(out)@.subrange(0, old(out)@.len() as int) == old(out)@,
            forall|k: int|
                old(out)@.len() <= k < final(out)@.len() ==> queued_ok(#[trigger] final(out)@[k]),
            old(self).state() is Running && first_step_suspends(*old(self), *metronome) ==> (
            final(out)@ == old(out)@ && suspended_outcome(*old(self), *metronome, *final(self))),
            old(self).state() is Running ==> (match head_of(old(self).steps(), old(self).cursor()) {
                Some(step) => match step_command(step) {
                    Some(c) => final(out)@.len() > old(out)@.len() && final(out)@[old(out)@.len() as int]
                        == c,
                    None => true,
                },
                None => true,
            }),
            old(self).state() is Running ==> ({
                let r = run_program(
                    old(self).steps(),
                    *metronome,
                    old(self).cursor(),
                    old(self).wait_timer(),
                    STEP_BUDGET as nat,
                );
                &&& final(self).cursor() == r.0
                &&& final(self).state() == r.1
                &&& final(self).wait_timer() == r.2
                &&& final(out)@ == old(out)@ + r.3
            }),
    {
        match self.state {
            SequenceState::Running => {
                self.run(metronome, out);
            },
            _ => {},
        }
    }

    /// The command an executable step emits, executable.
    fn step_command_exec(step: SequenceStep) -> (r: Option<Command>)
        ensures
            r == step_command(step),
    {
        match step {
            SequenceStep::PlaySound(sound_id, instance_id, settings) => Some(
                Command::Instance(InstanceCommand::PlaySound(sound_id, instance_id, settings)),
            ),
            SequenceStep::EmitCustomEvent(tag) => Some(Command::EmitCustomEvent(tag)),
            SequenceStep::SetMetronomeTempo(id, tempo) => Some(
                Command::Metronome(MetronomeCommand::SetMetronomeTempo(id, tempo)),
            ),
            SequenceStep::StartMetronome(id) => Some(
                Command::Metronome(MetronomeCommand::StartMetronome(id)),
            ),
            SequenceStep::PauseMetronome(id) => Some(
                Command::Metronome(MetronomeCommand::PauseMetronome(id)),
            ),
            SequenceStep::StopMetronome(id) => Some(
                Command::Metronome(MetronomeCommand::StopMetronome(id)),
            ),
            SequenceStep::PauseInstance(id, tween) => Some(
                Command::Instance(InstanceCommand::PauseInstance(id, tween)),
            ),
            SequenceStep::ResumeInstance(id, tween) => Some(
                Command::Instance(InstanceCommand::ResumeInstance(id, tween)),
            ),
            SequenceStep::StopInstance(id, tween) => Some(
                Command::Instance(InstanceCommand::StopInstance(id, tween)),
            ),
            _ => None,
        }
    }

    /// The interpreter loop shared by `start` and `update`.
    fn run(&mut self, metronome: &Metronome, out: &mut Vec<Command>)
        requires
            old(self).wf(),
            metronome.wf(),
        ensures
            final(self).wf(),
            final(self).metronome_id() == old(self).metronome_id(),
            final(self).steps() == old(self).steps(),
            final(self).state() is Running || final(self).state() is Finished,
            final(out)@.len() >= old(out)@.len(),
            final(out)@.subrange(0, old(out)@.len() as int) == old(out)@,
            forall|k: int|
                old(out)@.len() <= k < final(out)@.len() ==> queued_ok(#[trigger] final(out)@[k]),
            first_step_suspends(*old(self), *metronome) ==> (final(out)@ == old(out)@
                && suspended_outcome(*old(self), *metronome, *final(self))),
            match head_of(old(self).steps(), old(self).cursor()) {
                Some(step) => match step_command(step) {
                    Some(c) => final(out)@.len() > old(out)@.len() && final(out)@[old(out)@.len() as int]
                        == c,
                    None => true,
                },
                None => true,
            },
            ({
                let r = run_program(
                    old(self).steps(),
                    *metronome,
                    old(self).cursor(),
                    old(self).wait_timer(),
                    STEP_BUDGET as nat,
                );
                &&& final(self).cursor() == r.0
                &&& final(self).state() == r.1
                &&& final(self).wait_timer() == r.2
                &&& final(out)@ == old(out)@ + r.3
            }),
    {
        self.state = SequenceState::Running;
        let mut budget: u32 = STEP_BUDGET;
        proof {
            assert(out@.subrange(old(out)@.len() as int, out@.len() as int)
                =~= Seq::<Command>::empty());
            assert(Seq::<Command>::empty() + run_program(
                old(self).steps(),
                *metronome,
                old(self).cursor(),
                old(self).wait_timer(),
                STEP_BUDGET as nat,
            ).3 =~= run_program(
                old(self).steps(),
                *metronome,
                old(self).cursor(),
                old(self).wait_timer(),
                STEP_BUDGET as nat,
            ).3);
        }
        while budget > 0
            invariant
                self.wf(),
                metronome.wf(),
                self.metronome_id() == old(self).metronome_id(),
                self.steps() == old(self).steps(),
                self.state() is Running || self.state() is Finished,
                out@.len() >= old(out)@.len(),
                out@.subrange(0, old(out)@.len() as int) == old(out)@,
                forall|k: int|
                    old(out)@.len() <= k < out@.len() ==> queued_ok(#[trigger] out@[k]),
                budget <= STEP_BUDGET,
                budget == STEP_BUDGET ==> self.cursor() == old(self).cursor()
                    && self.wait_timer() == old(self).wait_timer() && out@ == old(out)@
                    && self.state() is Running,
                budget < STEP_BUDGET ==> !first_step_suspends(*old(self), *metronome),
                budget < STEP_BUDGET ==> (match head_of(old(self).steps(), old(self).cursor()) {
                    Some(step) => match step_command(step) {
                        Some(c) => out@.len() > old(out)@.len() && out@[old(out)@.len() as int]
                            == c,
                        None => true,
                    },
                    None => true,
                }),
                self.state() is Running,
                ({
                    let full = run_program(
                        old(self).steps(),
                        *metronome,
                        old(self).cursor(),
                        old(self).wait_timer(),
                        STEP_BUDGET as nat,
                    );
                    let sub = run_program(
                        old(self).steps(),
                        *metronome,
                        self.cursor(),
                        self.wait_timer(),
                        budget as nat,
                    );
                    &&& full.0 == sub.0
                    &&& full.1 == sub.1
                    &&& full.2 == sub.2
                    &&& full.3 == out@.subrange(old(out)@.len() as int, out@.len() as int) + sub.3
                }),
            decreases budget,
        {
            let ghost fuel0 = budget as nat;
            let ghost pre_cursor = self.cursor();
            let ghost pre_timer = self.wait_timer();
            let ghost pre_out = out@;
            let ghost steps_g = old(self).steps();
            let ghost old_len = old(out)@.len() as int;
            budget = budget - 1;
            if self.cursor >= self.steps.len() {
                self.cursor = self.steps.len();
                self.state = SequenceState::Finished;
                proof {
                    lemma_appended_plus_empty(old(out)@, out@);
                }
                return ;
            }
            let step = self.steps[self.cursor];
            match step {
                SequenceStep::Wait(d) => {
                    let t = match self.wait_timer {
                        None => d,
                        Some(t) => t,
                    };
                    if t <= 1 {
                        self.wait_timer = None;
                        self.cursor = self.cursor + 1;
                    } else {
                        self.wait_timer = Some(t - 1);
                    }
                    proof {
                        lemma_appended_plus_empty(old(out)@, out@);
                    }
                    return ;
                },
                SequenceStep::WaitForInterval(iv) => {
                    assert(step_valid(self.steps()[self.cursor as int]));
                    if metronome.crossed_exec(iv) {
                        self.cursor = self.cursor + 1;
                        proof {
                            assert(run_program(steps_g, *metronome, pre_cursor, pre_timer, fuel0)
                                == run_program(
                                steps_g,
                                *metronome,
                                pre_cursor + 1,
                                pre_timer,
                                (fuel0 - 1) as nat,
                            ));
                        }
                    } else {
                        proof {
                            lemma_appended_plus_empty(old(out)@, out@);
                        }
                        return ;
                    }
                },
                SequenceStep::GoTo(k) => {
                    if k <= self.steps.len() {
                        self.cursor = k;
                    } else {
                        self.cursor = self.steps.len();
                    }
                    proof {
                        assert(run_program(steps_g, *metronome, pre_cursor, pre_timer, fuel0)
                            == run_program(
                            steps_g,
                            *metronome,
                            self.cursor(),
                            pre_timer,
                            (fuel0 - 1) as nat,
                        ));
                    }
                },
                SequenceStep::End => {
                    self.cursor = self.steps.len();
                    self.state = SequenceState::Finished;
                    proof {
                        lemma_appended_plus_empty(old(out)@, out@);
                    }
                    return ;
                },
                other => {
                    match Sequence::step_command_exec(other) {
                        Some(c) => {
                            out.push(c);
                            self.cursor = self.cursor + 1;
                            proof {
                                let rest = run_program(
                                    steps_g,
                                    *metronome,
                                    pre_cursor + 1,
                                    pre_timer,
                                    (fuel0 - 1) as nat,
                                );
                                assert(run_program(
                                    steps_g,
                                    *metronome,
                                    pre_cursor,
                                    pre_timer,
                                    fuel0,
                                ).3 == seq![c] + rest.3);
                                assert(out@.subrange(old_len, out@.len() as int) =~= pre_out.subrange(
                                    old_len,
                                    pre_out.len() as int,
                                ).push(c));
                                assert(pre_out.subrange(old_len, pre_out.len() as int).push(c)
                                    + rest.3 =~= pre_out.subrange(old_len, pre_out.len() as int) + (
                                seq![c] + rest.3));
                            }
                        },
                        None => {
                            proof {
                                assert(step_command(other) is Some);
                                assert(false);
                            }
                        },
                    }
                },
            }
            proof {
                assert(out@.subrange(0, old(out)@.len() as int) =~= old(out)@);
            }
        }
    }
}

/// The appended region of an untouched output equals itself plus an
/// empty emission list, and the whole equals the prefix plus the appended
/// region.
proof fn lemma_appended_plus_empty(prefix: Seq<Command>, whole: Seq<Command>)
    requires
        whole.len() >= prefix.len(),
        whole.subrange(0, prefix.len() as int) == prefix,
    ensures
        whole == prefix + whole.subrange(prefix.len() as int, whole.len() as int),
        whole.subrange(prefix.len() as int, whole.len() as int) + Seq::<Command>::empty()
            == whole.subrange(prefix.len() as int, whole.len() as int),
{
    assert(whole =~= prefix + whole.subrange(prefix.len() as int, whole.len() as int));
    assert(whole.subrange(prefix.len() as int, whole.len() as int) + Seq::<Command>::empty()
        =~= whole.subrange(prefix.len() as int, whole.len() as int));
}

} // verus!
