//! Scalar parameters the mixer reads each tick.
//!
//! Parameters live in an arena on the audio side. Removal is requested by
//! command; removed parameters are handed back to the controller over the
//! unused-parameter ring, so the audio thread never runs their
//! destructors.

use vstd::prelude::*;
use crate::arena::Arena;
use crate::command::ParameterCommand;
use crate::tween::Tween;
use crate::tween::Tweenable;
use crate::tween::VALUE_LIMIT;
use crate::tween::steps_to;
use crate::tween::tween_installed;

verus! {

/// Handle to a parameter held in the engine's arena.
#[derive(Clone, Copy, Debug, PartialEq, Eq, Structural)]
pub struct ParameterId {
    pub index: u32,
    pub generation: u32,
}

/// One scalar value, in `MILLI` units, with an optional active tween.
#[derive(Clone, Copy, Debug)]
pub struct Parameter {
    value: Tweenable,
    removal_requested: bool,
}

impl Parameter {
    /// The tweened value stays well formed.
    pub open spec fn wf(self) -> bool {
        self.value().wf()
    }

    /// The tweened scalar.
    pub closed spec fn value(self) -> Tweenable {
        self.value
    }

    /// Whether the controller asked for this parameter to be recycled.
    pub closed spec fn removal_requested(self) -> bool {
        self.removal_requested
    }

    /// A parameter at rest on `value`.
    pub fn new(value: i64) -> (p: Parameter)
        requires
            -VALUE_LIMIT <= value <= VALUE_LIMIT,
        ensures
            p.wf(),
            p.value().current() == value,
            p.value().target() == value,
            p.value().tween() is None,
            !p.removal_requested(),
    {
        Parameter { value: Tweenable::at(value), removal_requested: false }
    }

    /// The value consumers read, executable.
    pub fn get(&self) -> (v: i64)
        ensures
            v as int == self.value().current(),
    {
        self.value.value()
    }

    /// Jump to a value immediately.
    pub fn set(&mut self, value: i64)
        requires
            old(self).wf(),
            -VALUE_LIMIT <= value <= VALUE_LIMIT,
        ensures
            final(self).wf(),
            final(self).value().current() == value,
            final(self).value().target() == value,
            final(self).value().tween() is None,
            final(self).removal_requested() == old(self).removal_requested(),
    {
        self.value.set(value);
    }

    /// Head for a value over a tween.
    pub fn tween_to(&mut self, target: i64, tween: Tween)
        requires
            old(self).wf(),
            -VALUE_LIMIT <= target <= VALUE_LIMIT,
        ensures
            final(self).wf(),
            final(self).value().target() == target,
            tween_installed(old(self).value(), final(self).value(), target as int, Some(tween)),
            final(self).removal_requested() == old(self).removal_requested(),
    {
        self.value.tween_to(target, Some(tween));
    }

    /// Ask for this parameter to be recycled.
    pub fn mark_for_removal(&mut self)
        requires
            old(self).wf(),
        ensures
            final(self).wf(),
            final(self).removal_requested(),
            final(self).value() == old(self).value(),
    {
        self.removal_requested = true;
    }

    /// One audio tick: advance the tween.
    pub fn update(&mut self)
        requires
            old(self).wf(),
        ensures
            final(self).wf(),
            steps_to(old(self).value(), final(self).value()),
            final(self).removal_requested() == old(self).removal_requested(),
    {
        self.value.update();
    }
}

/// How one parameter command relates the store before to after: the
/// parameter the handle names is added, moved or marked, stale handles
/// change nothing, and no other slot is touched.
pub open spec fn parameter_dispatched(
    pre: Arena<Parameter>,
    command: ParameterCommand,
    post: Arena<Parameter>,
) -> bool {
    &&& post.capacity() == pre.capacity()
    &&& forall|j: int|
        0 <= j < pre.capacity() ==> #[trigger] post.gen_at(j) == (match command {
            ParameterCommand::AddParameter(id, value) => if j == id.index as int && (id.index as int)
                < pre.capacity() && -VALUE_LIMIT <= value <= VALUE_LIMIT {
                id.generation
            } else {
                pre.gen_at(j)
            },
            _ => pre.gen_at(j),
        })
    &&& forall|j: int|
        0 <= j < pre.capacity() && j != parameter_target(command).index as int ==> #[trigger] post.slot_at(
            j,
        ) == pre.slot_at(j)
    &&& match command {
        ParameterCommand::AddParameter(id, value) => if (id.index as int) < pre.capacity()
            && -VALUE_LIMIT <= value <= VALUE_LIMIT {
            post.live(id.index, id.generation) && match post.slot_at(id.index as int) {
                Some(p) => p.value().current() == value && p.value().target() == value
                    && p.value().tween() is None && !p.removal_requested(),
                None => false,
            }
        } else {
            post.slot_at(id.index as int) == pre.slot_at(id.index as int)
        },
        ParameterCommand::SetParameter(id, value) => if pre.live(id.index, id.generation)
            && -VALUE_LIMIT <= value <= VALUE_LIMIT {
            match (pre.slot_at(id.index as int), post.slot_at(id.index as int)) {
                (Some(p0), Some(p)) => p.value().current() == value && p.value().target() == value
                    && p.value().tween() is None && p.removal_requested()
                    == p0.removal_requested(),
                _ => false,
            }
        } else {
            post.slot_at(id.index as int) == pre.slot_at(id.index as int)
        },
        ParameterCommand::TweenParameter(id, target, tween) => if pre.live(id.index, id.generation)
            && -VALUE_LIMIT <= target <= VALUE_LIMIT {
            match (pre.slot_at(id.index as int), post.slot_at(id.index as int)) {
                (Some(p0), Some(p)) => tween_installed(
                    p0.value(),
                    p.value(),
                    target as int,
                    Some(tween),
                ) && p.removal_requested() == p0.removal_requested(),
                _ => false,
            }
        } else {
            post.slot_at(id.index as int) == pre.slot_at(id.index as int)
        },
        ParameterCommand::RemoveParameter(id) => if pre.live(id.index, id.generation) {
            match (pre.slot_at(id.index as int), post.slot_at(id.index as int)) {
                (Some(p0), Some(p)) => p.removal_requested() && p.value() == p0.value(),
                _ => false,
            }
        } else {
            post.slot_at(id.index as int) == pre.slot_at(id.index as int)
        },
    }
}

/// The handle a parameter command aims at.
pub open spec fn parameter_target(command: ParameterCommand) -> ParameterId {
    match command {
        ParameterCommand::AddParameter(id, _) => id,
        ParameterCommand::SetParameter(id, _) => id,
        ParameterCommand::TweenParameter(id, _, _) => id,
        ParameterCommand::RemoveParameter(id) => id,
    }
}

/// The audio side's parameter store and its recycle ring.
pub struct Parameters {
    parameters: Arena<Parameter>,
    unused_parameter_producer: ringbuf::Producer<Parameter>,
}

impl Parameters {
    /// The arena is well formed, and so is everything in it.
    pub open spec fn wf(self) -> bool {
        &&& self.arena().wf()
        &&& forall|i: int|
            0 <= i < self.arena().capacity() ==> match #[trigger] self.arena().slot_at(i) {
                Some(p) => p.wf(),
                None => true,
            }
    }

    /// The parameter store.
    pub closed spec fn arena(self) -> Arena<Parameter> {
        self.parameters
    }

    /// An empty store of the given capacity, recycling over the given
    /// ring.
    pub fn new(capacity: usize, unused_parameter_producer: ringbuf::Producer<Parameter>) -> (ps:
        Parameters)
        requires
            capacity <= 0xFFFF_FFFF,
        ensures
            ps.wf(),
            ps.arena().capacity() == capacity,
            forall|i: int| 0 <= i < capacity ==> !ps.arena().occupied(i),
    {
        let ps = Parameters { parameters: Arena::new(capacity), unused_parameter_producer };
        proof {
            assert forall|i: int| 0 <= i < ps.arena().capacity() implies (match #[trigger] ps.arena().slot_at(
                i,
            ) {
                Some(p) => p.wf(),
                None => true,
            }) by {
                assert(!ps.arena().occupied(i));
            }
        }
        ps
    }

    /// The parameter a handle names, or nothing when the handle is stale.
    pub fn get(&self, id: ParameterId) -> (r: Option<&Parameter>)
        requires
            self.wf(),
        ensures
            match r {
                Some(p) => self.arena().live(id.index, id.generation) && self.arena().slot_at(
                    id.index as int,
                ) == Some(*p) && p.wf(),
                None => !self.arena().live(id.index, id.generation),
            },
    {
        self.parameters.get(id.index, id.generation)
    }

    /// Apply one parameter command: add a parameter under the
    /// controller's handle, move or mark the parameter the handle names,
    /// and ignore stale handles.
    pub fn run_command(&mut self, command: ParameterCommand)
        requires
            old(self).wf(),
        ensures
            final(self).wf(),
            parameter_dispatched(old(self).arena(), command, final(self).arena()),
    {
        match command {
            ParameterCommand::AddParameter(id, value) => {
                if -VALUE_LIMIT <= value && value <= VALUE_LIMIT {
                    self.parameters.insert_at(id.index, id.generation, Parameter::new(value));
                }
            },
            ParameterCommand::SetParameter(id, value) => {
                if -VALUE_LIMIT <= value && value <= VALUE_LIMIT {
                    match self.parameters.get(id.index, id.generation) {
                        Some(p) => {
                            let mut p2 = *p;
                            p2.set(value);
                            self.parameters.insert_at(id.index, id.generation, p2);
                        },
                        None => {},
                    }
                }
            },
            ParameterCommand::TweenParameter(id, target, tween) => {
                if -VALUE_LIMIT <= target && target <= VALUE_LIMIT {
                    match self.parameters.get(id.index, id.generation) {
                        Some(p) => {
                            let mut p2 = *p;
                            p2.tween_to(target, tween);
                            self.parameters.insert_at(id.index, id.generation, p2);
                        },
                        None => {},
                    }
                }
            },
            ParameterCommand::RemoveParameter(id) => {
                match self.parameters.get(id.index, id.generation) {
                    Some(p) => {
                        let mut p2 = *p;
                        p2.mark_for_removal();
                        self.parameters.insert_at(id.index, id.generation, p2);
                    },
                    None => {},
                }
            },
        }
    }

    /// Hand parameters whose removal was requested back to the controller
    /// over the recycle ring, as long as the ring accepts them.
    pub fn remove_unused_parameters(&mut self)
        requires
            old(self).wf(),
        ensures
            final(self).wf(),
            final(self).arena().capacity() == old(self).arena().capacity(),
            forall|i: int|
                0 <= i < old(self).arena().capacity() && !(match old(self).arena().slot_at(i) {
                    Some(p) => p.removal_requested(),
                    None => false,
                }) ==> final(self).arena().slot_at(i) == old(self).arena().slot_at(i),
            forall|i: int|
                0 <= i < old(self).arena().capacity() ==> (final(self).arena().slot_at(i)
                    == old(self).arena().slot_at(i) || !final(self).arena().occupied(i)),
            forall|i: int|
                0 <= i < old(self).arena().capacity() ==> #[trigger] final(self).arena().gen_at(i)
                    == old(self).arena().gen_at(i),
    {
        let cap = self.parameters.capacity_exec();
        let mut i: usize = 0;
        while i < cap
            invariant
                self.wf(),
                cap as int == self.arena().capacity(),
                self.arena().capacity() == old(self).arena().capacity(),
                forall|j: int|
                    0 <= j < old(self).arena().capacity() && !(match old(self).arena().slot_at(j) {
                        Some(p) => p.removal_requested(),
                        None => false,
                    }) ==> self.arena().slot_at(j) == old(self).arena().slot_at(j),
                forall|j: int|
                    0 <= j < old(self).arena().capacity() ==> (self.arena().slot_at(j) == old(
                        self,
                    ).arena().slot_at(j) || !self.arena().occupied(j)),
                forall|j: int|
                    0 <= j < old(self).arena().capacity() ==> #[trigger] self.arena().gen_at(j)
                        == old(self).arena().gen_at(j),
            decreases cap - i,
        {
            if crate::ring::ring_is_full(&self.unused_parameter_producer) {
                return ;
            }
            let marked = match self.parameters.get_at_index(i) {
                Some(p) => p.removal_requested_exec(),
                None => false,
            };
            if marked {
                match self.parameters.take_at(i) {
                    Some(p) => {
                        match crate::ring::ring_push(&mut self.unused_parameter_producer, p) {
                            Ok(_) => {},
                            Err(p_back) => {
                                self.parameters.put_at(i, p_back);
                            },
                        }
                    },
                    None => {},
                }
            }
            i = i + 1;
        }
    }

    /// Begin an audio cycle: recycle what the controller dropped.
    pub fn on_start_processing(&mut self)
        requires
            old(self).wf(),
        ensures
            final(self).wf(),
            final(self).arena().capacity() == old(self).arena().capacity(),
            forall|i: int|
                0 <= i < old(self).arena().capacity() && !(match old(self).arena().slot_at(i) {
                    Some(p) => p.removal_requested(),
                    None => false,
                }) ==> final(self).arena().slot_at(i) == old(self).arena().slot_at(i),
            forall|i: int|
                0 <= i < old(self).arena().capacity() ==> (final(self).arena().slot_at(i)
                    == old(self).arena().slot_at(i) || !final(self).arena().occupied(i)),
            forall|i: int|
                0 <= i < old(self).arena().capacity() ==> #[trigger] final(self).arena().gen_at(i)
                    == old(self).arena().gen_at(i),
    {
        self.remove_unused_parameters();
    }

    /// One audio tick: advance every parameter's tween.
    pub fn update(&mut self)
        requires
            old(self).wf(),
        ensures
            final(self).wf(),
            final(self).arena().capacity() == old(self).arena().capacity(),
            forall|i: int|
                0 <= i < old(self).arena().capacity() ==> match #[trigger] old(self).arena().slot_at(i) {
                    Some(p) => match final(self).arena().slot_at(i) {
                        Some(q) => steps_to(p.value(), q.value()),
                        None => false,
                    },
                    None => !final(self).arena().occupied(i),
                },
    {
        let cap = self.parameters.capacity_exec();
        let mut i: usize = 0;
        while i < cap
            invariant
                self.wf(),
                cap as int == self.arena().capacity(),
                self.arena().capacity() == old(self).arena().capacity(),
                forall|j: int|
                    0 <= j < i ==> match #[trigger] old(self).arena().slot_at(j) {
                        Some(p) => match self.arena().slot_at(j) {
                            Some(q) => steps_to(p.value(), q.value()),
                            None => false,
                        },
                        None => !self.arena().occupied(j),
                    },
                forall|j: int|
                    i <= j < self.arena().capacity() ==> self.arena().slot_at(j) == old(self).arena().slot_at(j),
            decreases cap - i,
        {
            match self.parameters.take_at(i) {
                Some(p) => {
                    let mut p2 = p;
                    p2.update();
                    self.parameters.put_at(i, p2);
                },
                None => {},
            }
            i = i + 1;
        }
    }
}

impl Parameter {
    /// Whether the controller asked for recycling, executable.
    pub fn removal_requested_exec(&self) -> (b: bool)
        ensures
            b == self.removal_requested(),
    {
        self.removal_requested
    }
}

} // verus!
