//! The wire protocol between the controller side and the audio side.
//!
//! Commands travel over the command ring from the controller to the audio
//! thread; events travel back over the event ring. Custom events carry an
//! opaque user tag.

use vstd::prelude::*;
use crate::instance::InstanceId;
use crate::instance::InstanceSettings;
use crate::metronome::MetronomeId;
use crate::metronome::Tempo;
use crate::parameters::ParameterId;
use crate::sequence::Sequence;
use crate::sequence::SequenceId;
use crate::sound::Sound;
use crate::sound::SoundId;
use crate::tween::Tween;

verus! {

/// Commands aimed at the sound store.
pub enum SoundCommand {
    /// Move a decoded sound into the audio side's arena.
    LoadSound(SoundId, Sound),
    /// Drop a sound; all of its instances stop at once.
    UnloadSound(SoundId),
}

/// Commands aimed at instances.
#[derive(Clone, Copy, Debug)]
pub enum InstanceCommand {
    PlaySound(SoundId, InstanceId, InstanceSettings),
    SetInstanceVolume(InstanceId, i64, Option<Tween>),
    SetInstancePitch(InstanceId, i64, Option<Tween>),
    PauseInstance(InstanceId, Option<Tween>),
    ResumeInstance(InstanceId, Option<Tween>),
    StopInstance(InstanceId, Option<Tween>),
    PauseInstancesOfSound(SoundId, Option<Tween>),
    ResumeInstancesOfSound(SoundId, Option<Tween>),
    StopInstancesOfSound(SoundId, Option<Tween>),
}

/// Commands aimed at metronomes. Intervals of a new metronome are in
/// milli-beats.
pub enum MetronomeCommand {
    AddMetronome(MetronomeId, Tempo, Vec<u64>),
    SetMetronomeTempo(MetronomeId, Tempo),
    StartMetronome(MetronomeId),
    PauseMetronome(MetronomeId),
    StopMetronome(MetronomeId),
}

/// Commands aimed at parameters.
#[derive(Clone, Copy, Debug)]
pub enum ParameterCommand {
    AddParameter(ParameterId, i64),
    SetParameter(ParameterId, i64),
    TweenParameter(ParameterId, i64, Tween),
    RemoveParameter(ParameterId),
}

/// Commands aimed at sequences.
pub enum SequenceCommand {
    StartSequence(SequenceId, Sequence),
}

/// One message over the command ring.
pub enum Command {
    Sound(SoundCommand),
    Instance(InstanceCommand),
    Metronome(MetronomeCommand),
    Parameter(ParameterCommand),
    Sequence(SequenceCommand),
    EmitCustomEvent(u64),
}

/// One message over the event ring.
#[derive(Clone, Copy, Debug, PartialEq, Eq, Structural)]
pub enum Event {
    /// A metronome's beat count crossed a multiple of a registered
    /// interval (in milli-beats).
    MetronomeIntervalPassed(MetronomeId, u64),
    /// A sequence or the controller emitted a user tag.
    CustomEvent(u64),
}

} // verus!
