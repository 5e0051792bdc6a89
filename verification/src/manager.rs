//! The controller side: ID allocation, command submission, event drain.
//!
//! The manager allocates stable handles from its own arenas, reserves a
//! slot before enqueueing the command that uses it, and rolls the
//! reservation back when the command ring is full. Handles the audio side
//! reclaimed come back over the unused-instance ring; draining it frees
//! the local slots, so a later command on the old handle reports
//! `InstanceStopped`.

use vstd::prelude::*;
use crate::arena::Arena;
use crate::backend::AudioManagerSettings;
use crate::backend::Backend;
use crate::command::Command;
use crate::command::Event;
use crate::command::InstanceCommand;
use crate::command::MetronomeCommand;
use crate::command::ParameterCommand;
use crate::command::SequenceCommand;
use crate::command::SoundCommand;
use crate::error::AddMetronomeError;
use crate::error::AddParameterError;
use crate::error::AddSoundError;
use crate::error::CommandError;
use crate::error::InstanceError;
use crate::error::PlaySoundError;
use crate::error::StartSequenceError;
use crate::instance::InstanceId;
use crate::instance::InstanceSettings;
use crate::metronome::MetronomeId;
use crate::metronome::Tempo;
use crate::parameters::ParameterId;
use crate::sequence::Sequence;
use crate::sequence::SequenceId;
use crate::sound::Sound;
use crate::sound::SoundId;
use crate::tween::Tween;

verus! {

/// The controller-side face of the engine.
pub struct AudioManager {
    command_producer: ringbuf::Producer<Command>,
    event_consumer: ringbuf::Consumer<Event>,
    unused_instance_consumer: ringbuf::Consumer<InstanceId>,
    unused_parameter_consumer: ringbuf::Consumer<crate::parameters::Parameter>,
    sound_ids: Arena<()>,
    instance_ids: Arena<()>,
    parameter_ids: Arena<()>,
    sequence_ids: Arena<()>,
    metronome_ids: Arena<()>,
}

impl AudioManager {
    /// Every local ID table is well formed.
    pub open spec fn wf(self) -> bool {
        &&& self.sound_ids().wf()
        &&& self.instance_ids().wf()
        &&& self.parameter_ids().wf()
        &&& self.sequence_ids().wf()
        &&& self.metronome_ids().wf()
    }

    /// The controller's view of allocated sound handles.
    pub closed spec fn sound_ids(self) -> Arena<()> {
        self.sound_ids
    }

    /// The controller's view of live instance handles.
    pub closed spec fn instance_ids(self) -> Arena<()> {
        self.instance_ids
    }

    /// The controller's view of allocated parameter handles.
    pub closed spec fn parameter_ids(self) -> Arena<()> {
        self.parameter_ids
    }

    /// The controller's view of allocated sequence handles.
    pub closed spec fn sequence_ids(self) -> Arena<()> {
        self.sequence_ids
    }

    /// The controller's view of allocated metronome handles.
    pub closed spec fn metronome_ids(self) -> Arena<()> {
        self.metronome_ids
    }

    /// Build both sides of the engine, wired by their rings.
    pub fn new(sample_rate: u32, settings: AudioManagerSettings) -> (pair: (AudioManager, Backend))
        requires
            1 <= sample_rate <= 1000000,
            settings.valid(),
        ensures
            pair.0.wf(),
            pair.1.wf(),
            pair.0.instance_ids().capacity() == settings.num_instances,
            pair.0.sound_ids().capacity() == settings.num_sounds,
            pair.1.rate() == sample_rate,
            forall|i: int|
                0 <= i < settings.num_instances ==> !pair.0.instance_ids().occupied(i),
    {
        let command_ring = crate::ring::ring_new::<Command>(settings.num_commands);
        let (command_producer, command_consumer) = crate::ring::ring_split(command_ring);
        let event_ring = crate::ring::ring_new::<Event>(settings.num_events);
        let (event_producer, event_consumer) = crate::ring::ring_split(event_ring);
        let unused_ring = crate::ring::ring_new::<InstanceId>(settings.num_instances);
        let (unused_instance_producer, unused_instance_consumer) = crate::ring::ring_split(
            unused_ring,
        );
        let unused_parameter_ring = crate::ring::ring_new::<crate::parameters::Parameter>(
            settings.num_parameters,
        );
        let (unused_parameter_producer, unused_parameter_consumer) = crate::ring::ring_split(
            unused_parameter_ring,
        );
        let backend = Backend::new(
            sample_rate,
            settings,
            command_consumer,
            event_producer,
            unused_instance_producer,
            unused_parameter_producer,
        );
        let manager = AudioManager {
            command_producer,
            event_consumer,
            unused_instance_consumer,
            unused_parameter_consumer,
            sound_ids: Arena::new(settings.num_sounds),
            instance_ids: Arena::new(settings.num_instances),
            parameter_ids: Arena::new(settings.num_parameters),
            sequence_ids: Arena::new(settings.num_sequences),
            metronome_ids: Arena::new(settings.num_metronomes),
        };
        (manager, backend)
    }

    /// Submit one command; a full ring reports `CommandQueueFull`.
    fn submit(&mut self, command: Command) -> (r: Result<(), CommandError>)
        ensures
            final(self).wf() == old(self).wf(),
            final(self).sound_ids() == old(self).sound_ids(),
            final(self).instance_ids() == old(self).instance_ids(),
            final(self).parameter_ids() == old(self).parameter_ids(),
            final(self).sequence_ids() == old(self).sequence_ids(),
            final(self).metronome_ids() == old(self).metronome_ids(),
            r is Ok || r == Err::<(), CommandError>(CommandError::CommandQueueFull),
    {
        match crate::ring::ring_push(&mut self.command_producer, command) {
            Ok(_) => Ok(()),
            Err(_) => Err(CommandError::CommandQueueFull),
        }
    }

    /// Move a decoded sound to the audio side, reserving a handle first;
    /// the reservation is rolled back when the queue is full.
    pub fn add_sound(&mut self, sound: Sound) -> (r: Result<SoundId, AddSoundError>)
        requires
            old(self).wf(),
            sound.wf(),
        ensures
            final(self).wf(),
            final(self).sound_ids().capacity() == old(self).sound_ids().capacity(),
            r == Err::<SoundId, AddSoundError>(AddSoundError::SoundLimitReached) <==> (forall|j: int|
                0 <= j < old(self).sound_ids().capacity() ==> old(self).sound_ids().occupied(j)),
            match r {
                Ok(id) => {
                    &&& final(self).sound_ids().live(id.index, id.generation)
                    &&& !old(self).sound_ids().occupied(id.index as int)
                    &&& forall|j: int|
                        0 <= j < old(self).sound_ids().capacity() && j != id.index as int
                            ==> final(self).sound_ids().slot_at(j) == old(self).sound_ids().slot_at(j) && final(self).sound_ids().gen_at(j) == old(self).sound_ids().gen_at(j)
                },
                Err(e) => {
                    &&& (e matches AddSoundError::CommandError(ce) ==> ce
                        == CommandError::CommandQueueFull)
                    &&& forall|j: int|
                        0 <= j < old(self).sound_ids().capacity() ==> final(self).sound_ids().occupied(j) == old(self).sound_ids().occupied(j)
                },
            },
    {
        match self.sound_ids.allocate(()) {
            Some((index, generation)) => {
                let id = SoundId { index, generation };
                match self.submit(Command::Sound(SoundCommand::LoadSound(id, sound))) {
                    Ok(_) => Ok(id),
                    Err(e) => {
                        self.sound_ids.remove(index, generation);
                        Err(AddSoundError::CommandError(e))
                    },
                }
            },
            None => Err(AddSoundError::SoundLimitReached),
        }
    }

    /// Drop a sound from the audio side; its instances stop at once.
    /// The local handle is freed only once the command is accepted.
    pub fn unload_sound(&mut self, id: SoundId) -> (r: Result<(), CommandError>)
        requires
            old(self).wf(),
        ensures
            final(self).wf(),
            r is Ok || r == Err::<(), CommandError>(CommandError::CommandQueueFull),
            r is Ok ==> !final(self).sound_ids().live(id.index, id.generation),
            r is Err ==> final(self).sound_ids() == old(self).sound_ids(),
    {
        match self.submit(Command::Sound(SoundCommand::UnloadSound(id))) {
            Ok(_) => {
                self.sound_ids.remove(id.index, id.generation);
                Ok(())
            },
            Err(e) => Err(e),
        }
    }

    /// Start an instance of a sound, reserving its handle first; the
    /// reservation is rolled back when the queue is full.
    pub fn play_sound(&mut self, sound_id: SoundId, settings: InstanceSettings) -> (r: Result<
        InstanceId,
        PlaySoundError,
    >)
        requires
            old(self).wf(),
        ensures
            final(self).wf(),
            final(self).instance_ids().capacity() == old(self).instance_ids().capacity(),
            r == Err::<InstanceId, PlaySoundError>(PlaySoundError::InstanceLimitReached) <==> (
            forall|j: int|
                0 <= j < old(self).instance_ids().capacity() ==> old(self).instance_ids().occupied(j)),
            match r {
                Ok(id) => {
                    &&& final(self).instance_ids().live(id.index, id.generation)
                    &&& !old(self).instance_ids().occupied(id.index as int)
                    &&& forall|j: int|
                        0 <= j < old(self).instance_ids().capacity() && j != id.index as int
                            ==> final(self).instance_ids().slot_at(j) == old(self).instance_ids().slot_at(j) && final(self).instance_ids().gen_at(j) == old(self).instance_ids().gen_at(j)
                },
                Err(e) => {
                    &&& (e matches PlaySoundError::CommandError(ce) ==> ce
                        == CommandError::CommandQueueFull)
                    &&& forall|j: int|
                        0 <= j < old(self).instance_ids().capacity() ==> final(self).instance_ids().occupied(j) == old(self).instance_ids().occupied(j)
                },
            },
    {
        match self.instance_ids.allocate(()) {
            Some((index, generation)) => {
                let id = InstanceId { index, generation };
                match self.submit(
                    Command::Instance(InstanceCommand::PlaySound(sound_id, id, settings)),
                ) {
                    Ok(_) => Ok(id),
                    Err(e) => {
                        self.instance_ids.remove(index, generation);
                        Err(PlaySoundError::CommandError(e))
                    },
                }
            },
            None => Err(PlaySoundError::InstanceLimitReached),
        }
    }

    /// Submit a command aimed at one instance handle; a handle the
    /// controller has already seen reclaimed reports `InstanceStopped`.
    fn submit_instance_command(&mut self, id: InstanceId, command: Command) -> (r: Result<
        (),
        InstanceError,
    >)
        requires
            old(self).wf(),
        ensures
            final(self).wf(),
            final(self).instance_ids() == old(self).instance_ids(),
            r == Err::<(), InstanceError>(InstanceError::InstanceStopped) <==> !old(self).instance_ids().live(id.index, id.generation),
            r is Ok || r == Err::<(), InstanceError>(InstanceError::InstanceStopped) || r
                == Err::<(), InstanceError>(
                InstanceError::CommandError(CommandError::CommandQueueFull),
            ),
    {
        let live = match self.instance_ids.get(id.index, id.generation) {
            Some(_) => true,
            None => false,
        };
        if !live {
            return Err(InstanceError::InstanceStopped);
        }
        match self.submit(command) {
            Ok(_) => Ok(()),
            Err(e) => Err(InstanceError::CommandError(e)),
        }
    }

    /// Head an instance's volume toward a value.
    pub fn set_instance_volume(&mut self, id: InstanceId, volume: i64, tween: Option<Tween>) -> (r:
        Result<(), InstanceError>)
        requires
            old(self).wf(),
        ensures
            final(self).wf(),
            final(self).instance_ids() == old(self).instance_ids(),
            r == Err::<(), InstanceError>(InstanceError::InstanceStopped) <==> !old(self).instance_ids().live(id.index, id.generation),
    {
        self.submit_instance_command(
            id,
            Command::Instance(InstanceCommand::SetInstanceVolume(id, volume, tween)),
        )
    }

    /// Head an instance's pitch toward a value.
    pub fn set_instance_pitch(&mut self, id: InstanceId, pitch: i64, tween: Option<Tween>) -> (r:
        Result<(), InstanceError>)
        requires
            old(self).wf(),
        ensures
            final(self).wf(),
            final(self).instance_ids() == old(self).instance_ids(),
            r == Err::<(), InstanceError>(InstanceError::InstanceStopped) <==> !old(self).instance_ids().live(id.index, id.generation),
    {
        self.submit_instance_command(
            id,
            Command::Instance(InstanceCommand::SetInstancePitch(id, pitch, tween)),
        )
    }

    /// Begin pausing an instance.
    pub fn pause_instance(&mut self, id: InstanceId, tween: Option<Tween>) -> (r: Result<
        (),
        InstanceError,
    >)
        requires
            old(self).wf(),
        ensures
            final(self).wf(),
            final(self).instance_ids() == old(self).instance_ids(),
            r == Err::<(), InstanceError>(InstanceError::InstanceStopped) <==> !old(self).instance_ids().live(id.index, id.generation),
    {
        self.submit_instance_command(
            id,
            Command::Instance(InstanceCommand::PauseInstance(id, tween)),
        )
    }

    /// Begin resuming an instance.
    pub fn resume_instance(&mut self, id: InstanceId, tween: Option<Tween>) -> (r: Result<
        (),
        InstanceError,
    >)
        requires
            old(self).wf(),
        ensures
            final(self).wf(),
            final(self).instance_ids() == old(self).instance_ids(),
            r == Err::<(), InstanceError>(InstanceError::InstanceStopped) <==> !old(self).instance_ids().live(id.index, id.generation),
    {
        self.submit_instance_command(
            id,
            Command::Instance(InstanceCommand::ResumeInstance(id, tween)),
        )
    }

    /// Begin stopping an instance.
    pub fn stop_instance(&mut self, id: InstanceId, tween: Option<Tween>) -> (r: Result<
        (),
        InstanceError,
    >)
        requires
            old(self).wf(),
        ensures
            final(self).wf(),
            final(self).instance_ids() == old(self).instance_ids(),
            r == Err::<(), InstanceError>(InstanceError::InstanceStopped) <==> !old(self).instance_ids().live(id.index, id.generation),
    {
        self.submit_instance_command(
            id,
            Command::Instance(InstanceCommand::StopInstance(id, tween)),
        )
    }

    /// Begin pausing every instance of one sound.
    pub fn pause_instances_of_sound(&mut self, id: SoundId, tween: Option<Tween>) -> (r: Result<
        (),
        CommandError,
    >)
        requires
            old(self).wf(),
        ensures
            final(self).wf(),
            r is Ok || r == Err::<(), CommandError>(CommandError::CommandQueueFull),
    {
        self.submit(Command::Instance(InstanceCommand::PauseInstancesOfSound(id, tween)))
    }

    /// Begin resuming every instance of one sound.
    pub fn resume_instances_of_sound(&mut self, id: SoundId, tween: Option<Tween>) -> (r: Result<
        (),
        CommandError,
    >)
        requires
            old(self).wf(),
        ensures
            final(self).wf(),
            r is Ok || r == Err::<(), CommandError>(CommandError::CommandQueueFull),
    {
        self.submit(Command::Instance(InstanceCommand::ResumeInstancesOfSound(id, tween)))
    }

    /// Begin stopping every instance of one sound.
    pub fn stop_instances_of_sound(&mut self, id: SoundId, tween: Option<Tween>) -> (r: Result<
        (),
        CommandError,
    >)
        requires
            old(self).wf(),
        ensures
            final(self).wf(),
            r is Ok || r == Err::<(), CommandError>(CommandError::CommandQueueFull),
    {
        self.submit(Command::Instance(InstanceCommand::StopInstancesOfSound(id, tween)))
    }

    /// Create a metronome with registered notification intervals.
    pub fn add_metronome(&mut self, tempo: Tempo, intervals_mb: Vec<u64>) -> (r: Result<
        MetronomeId,
        AddMetronomeError,
    >)
        requires
            old(self).wf(),
        ensures
            final(self).wf(),
            final(self).metronome_ids().capacity() == old(self).metronome_ids().capacity(),
            r == Err::<MetronomeId, AddMetronomeError>(AddMetronomeError::MetronomeLimitReached)
                <==> (forall|j: int|
                0 <= j < old(self).metronome_ids().capacity() ==> old(self).metronome_ids().occupied(j)),
            match r {
                Ok(id) => {
                    &&& final(self).metronome_ids().live(id.index, id.generation)
                    &&& !old(self).metronome_ids().occupied(id.index as int)
                    &&& forall|j: int|
                        0 <= j < old(self).metronome_ids().capacity() && j != id.index as int
                            ==> final(self).metronome_ids().slot_at(j) == old(self).metronome_ids().slot_at(j) && final(self).metronome_ids().gen_at(j)
                            == old(self).metronome_ids().gen_at(j)
                },
                Err(e) => {
                    &&& (e matches AddMetronomeError::CommandError(ce) ==> ce
                        == CommandError::CommandQueueFull)
                    &&& forall|j: int|
                        0 <= j < old(self).metronome_ids().capacity() ==> final(self).metronome_ids().occupied(j) == old(self).metronome_ids().occupied(j)
                },
            },
    {
        match self.metronome_ids.allocate(()) {
            Some((index, generation)) => {
                let id = MetronomeId { index, generation };
                match self.submit(
                    Command::Metronome(MetronomeCommand::AddMetronome(id, tempo, intervals_mb)),
                ) {
                    Ok(_) => Ok(id),
                    Err(e) => {
                        self.metronome_ids.remove(index, generation);
                        Err(AddMetronomeError::CommandError(e))
                    },
                }
            },
            None => Err(AddMetronomeError::MetronomeLimitReached),
        }
    }

    /// Replace a metronome's tempo.
    pub fn set_metronome_tempo(&mut self, id: MetronomeId, tempo: Tempo) -> (r: Result<
        (),
        CommandError,
    >)
        requires
            old(self).wf(),
        ensures
            final(self).wf(),
            r is Ok || r == Err::<(), CommandError>(CommandError::CommandQueueFull),
    {
        self.submit(Command::Metronome(MetronomeCommand::SetMetronomeTempo(id, tempo)))
    }

    /// Let a metronome's musical time advance.
    pub fn start_metronome(&mut self, id: MetronomeId) -> (r: Result<(), CommandError>)
        requires
            old(self).wf(),
        ensures
            final(self).wf(),
            r is Ok || r == Err::<(), CommandError>(CommandError::CommandQueueFull),
    {
        self.submit(Command::Metronome(MetronomeCommand::StartMetronome(id)))
    }

    /// Halt a metronome, keeping its beat count.
    pub fn pause_metronome(&mut self, id: MetronomeId) -> (r: Result<(), CommandError>)
        requires
            old(self).wf(),
        ensures
            final(self).wf(),
            r is Ok || r == Err::<(), CommandError>(CommandError::CommandQueueFull),
    {
        self.submit(Command::Metronome(MetronomeCommand::PauseMetronome(id)))
    }

    /// Halt a metronome and rewind its beat count.
    pub fn stop_metronome(&mut self, id: MetronomeId) -> (r: Result<(), CommandError>)
        requires
            old(self).wf(),
        ensures
            final(self).wf(),
            r is Ok || r == Err::<(), CommandError>(CommandError::CommandQueueFull),
    {
        self.submit(Command::Metronome(MetronomeCommand::StopMetronome(id)))
    }

    /// Create a parameter at a value.
    pub fn add_parameter(&mut self, value: i64) -> (r: Result<ParameterId, AddParameterError>)
        requires
            old(self).wf(),
        ensures
            final(self).wf(),
            final(self).parameter_ids().capacity() == old(self).parameter_ids().capacity(),
            r == Err::<ParameterId, AddParameterError>(AddParameterError::ParameterLimitReached)
                <==> (forall|j: int|
                0 <= j < old(self).parameter_ids().capacity() ==> old(self).parameter_ids().occupied(j)),
            match r {
                Ok(id) => {
                    &&& final(self).parameter_ids().live(id.index, id.generation)
                    &&& !old(self).parameter_ids().occupied(id.index as int)
                    &&& forall|j: int|
                        0 <= j < old(self).parameter_ids().capacity() && j != id.index as int
                            ==> final(self).parameter_ids().slot_at(j) == old(self).parameter_ids().slot_at(j) && final(self).parameter_ids().gen_at(j)
                            == old(self).parameter_ids().gen_at(j)
                },
                Err(e) => {
                    &&& (e matches AddParameterError::CommandError(ce) ==> ce
                        == CommandError::CommandQueueFull)
                    &&& forall|j: int|
                        0 <= j < old(self).parameter_ids().capacity() ==> final(self).parameter_ids().occupied(j) == old(self).parameter_ids().occupied(j)
                },
            },
    {
        match self.parameter_ids.allocate(()) {
            Some((index, generation)) => {
                let id = ParameterId { index, generation };
                match self.submit(Command::Parameter(ParameterCommand::AddParameter(id, value))) {
                    Ok(_) => Ok(id),
                    Err(e) => {
                        self.parameter_ids.remove(index, generation);
                        Err(AddParameterError::CommandError(e))
                    },
                }
            },
            None => Err(AddParameterError::ParameterLimitReached),
        }
    }

    /// Jump a parameter to a value.
    pub fn set_parameter(&mut self, id: ParameterId, value: i64) -> (r: Result<(), CommandError>)
        requires
            old(self).wf(),
        ensures
            final(self).wf(),
            r is Ok || r == Err::<(), CommandError>(CommandError::CommandQueueFull),
    {
        self.submit(Command::Parameter(ParameterCommand::SetParameter(id, value)))
    }

    /// Head a parameter toward a value over a tween.
    pub fn tween_parameter(&mut self, id: ParameterId, target: i64, tween: Tween) -> (r: Result<
        (),
        CommandError,
    >)
        requires
            old(self).wf(),
        ensures
            final(self).wf(),
            r is Ok || r == Err::<(), CommandError>(CommandError::CommandQueueFull),
    {
        self.submit(Command::Parameter(ParameterCommand::TweenParameter(id, target, tween)))
    }

    /// Ask for a parameter to be recycled.
    pub fn remove_parameter(&mut self, id: ParameterId) -> (r: Result<(), CommandError>)
        requires
            old(self).wf(),
        ensures
            final(self).wf(),
            r is Ok || r == Err::<(), CommandError>(CommandError::CommandQueueFull),
    {
        let r = self.submit(Command::Parameter(ParameterCommand::RemoveParameter(id)));
        match r {
            Ok(_) => {
                self.parameter_ids.remove(id.index, id.generation);
                Ok(())
            },
            Err(e) => Err(e),
        }
    }

    /// Ship a sequence to the audio side and start it.
    pub fn start_sequence(&mut self, sequence: Sequence) -> (r: Result<
        SequenceId,
        StartSequenceError,
    >)
        requires
            old(self).wf(),
            sequence.wf(),
        ensures
            final(self).wf(),
            final(self).sequence_ids().capacity() == old(self).sequence_ids().capacity(),
            r == Err::<SequenceId, StartSequenceError>(StartSequenceError::SequenceLimitReached)
                <==> (forall|j: int|
                0 <= j < old(self).sequence_ids().capacity() ==> old(self).sequence_ids().occupied(j)),
            match r {
                Ok(id) => {
                    &&& final(self).sequence_ids().live(id.index, id.generation)
                    &&& !old(self).sequence_ids().occupied(id.index as int)
                    &&& forall|j: int|
                        0 <= j < old(self).sequence_ids().capacity() && j != id.index as int
                            ==> final(self).sequence_ids().slot_at(j) == old(self).sequence_ids().slot_at(j) && final(self).sequence_ids().gen_at(j) == old(self).sequence_ids().gen_at(j)
                },
                Err(e) => {
                    &&& (e matches StartSequenceError::CommandError(ce) ==> ce
                        == CommandError::CommandQueueFull)
                    &&& forall|j: int|
                        0 <= j < old(self).sequence_ids().capacity() ==> final(self).sequence_ids().occupied(j) == old(self).sequence_ids().occupied(j)
                },
            },
    {
        match self.sequence_ids.allocate(()) {
            Some((index, generation)) => {
                let id = SequenceId { index, generation };
                match self.submit(
                    Command::Sequence(SequenceCommand::StartSequence(id, sequence)),
                ) {
                    Ok(_) => Ok(id),
                    Err(e) => {
                        self.sequence_ids.remove(index, generation);
                        Err(StartSequenceError::CommandError(e))
                    },
                }
            },
            None => Err(StartSequenceError::SequenceLimitReached),
        }
    }

    /// Emit a user tag through the audio side's event ring.
    pub fn emit_custom_event(&mut self, tag: u64) -> (r: Result<(), CommandError>)
        requires
            old(self).wf(),
        ensures
            final(self).wf(),
            r is Ok || r == Err::<(), CommandError>(CommandError::CommandQueueFull),
    {
        self.submit(Command::EmitCustomEvent(tag))
    }

    /// The oldest event the audio side produced, if any.
    pub fn next_event(&mut self) -> (r: Option<Event>)
        requires
            old(self).wf(),
        ensures
            final(self).wf(),
            final(self).sound_ids() == old(self).sound_ids(),
            final(self).instance_ids() == old(self).instance_ids(),
            final(self).parameter_ids() == old(self).parameter_ids(),
            final(self).sequence_ids() == old(self).sequence_ids(),
            final(self).metronome_ids() == old(self).metronome_ids(),
    {
        crate::ring::ring_pop(&mut self.event_consumer)
    }

    /// Take back the parameters the audio side removed, so that their
    /// storage is released on this side and never on the audio thread.
    pub fn free_unused_parameters(&mut self)
        requires
            old(self).wf(),
        ensures
            final(self).wf(),
            final(self).sound_ids() == old(self).sound_ids(),
            final(self).instance_ids() == old(self).instance_ids(),
            final(self).parameter_ids() == old(self).parameter_ids(),
            final(self).sequence_ids() == old(self).sequence_ids(),
            final(self).metronome_ids() == old(self).metronome_ids(),
    {
        let mut budget: u32 = 4096;
        while budget > 0
            invariant
                self.wf(),
                self.sound_ids() == old(self).sound_ids(),
                self.instance_ids() == old(self).instance_ids(),
                self.parameter_ids() == old(self).parameter_ids(),
                self.sequence_ids() == old(self).sequence_ids(),
                self.metronome_ids() == old(self).metronome_ids(),
            decreases budget,
        {
            budget = budget - 1;
            match crate::ring::ring_pop(&mut self.unused_parameter_consumer) {
                Some(_) => {},
                None => {
                    return ;
                },
            }
        }
    }

    /// Observe the instances the audio side reclaimed, freeing their
    /// local handles; commands on those handles then report
    /// `InstanceStopped`.
    pub fn free_unused_instances(&mut self)
        requires
            old(self).wf(),
        ensures
            final(self).wf(),
            final(self).instance_ids().capacity() == old(self).instance_ids().capacity(),
            final(self).sound_ids() == old(self).sound_ids(),
            final(self).parameter_ids() == old(self).parameter_ids(),
            final(self).sequence_ids() == old(self).sequence_ids(),
            final(self).metronome_ids() == old(self).metronome_ids(),
            forall|j: int|
                0 <= j < old(self).instance_ids().capacity() ==> final(self).instance_ids().gen_at(j) == old(self).instance_ids().gen_at(j),
            forall|j: int|
                0 <= j < old(self).instance_ids().capacity() && final(self).instance_ids().occupied(j) ==> old(self).instance_ids().occupied(j),
    {
        let mut budget: u32 = 4096;
        while budget > 0
            invariant
                self.wf(),
                self.instance_ids().capacity() == old(self).instance_ids().capacity(),
                self.sound_ids() == old(self).sound_ids(),
                self.parameter_ids() == old(self).parameter_ids(),
                self.sequence_ids() == old(self).sequence_ids(),
                self.metronome_ids() == old(self).metronome_ids(),
                forall|j: int|
                    0 <= j < old(self).instance_ids().capacity() ==> self.instance_ids().gen_at(j)
                        == old(self).instance_ids().gen_at(j),
                forall|j: int|
                    0 <= j < old(self).instance_ids().capacity() && self.instance_ids().occupied(j)
                        ==> old(self).instance_ids().occupied(j),
            decreases budget,
        {
            budget = budget - 1;
            match crate::ring::ring_pop(&mut self.unused_instance_consumer) {
                Some(id) => {
                    self.instance_ids.remove(id.index, id.generation);
                },
                None => {
                    return ;
                },
            }
        }
    }
}

} // verus!
