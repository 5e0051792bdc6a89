//! Errors returned by the controller-side API.
//!
//! The audio side never returns errors: it silently absorbs stale handles
//! and drops events when its outgoing ring is full. Everything here is
//! reported synchronously to the caller on the controller side.

use vstd::prelude::*;

verus! {

/// The command ring could not accept a command.
#[derive(Clone, Copy, Debug, PartialEq, Eq, Structural)]
pub enum CommandError {
    /// The command queue is full; the caller may retry later.
    CommandQueueFull,
    /// The controller's own serialising primitive failed.
    MutexPoisoned,
}

/// Adding a sound to the engine failed.
#[derive(Clone, Copy, Debug, PartialEq, Eq, Structural)]
pub enum AddSoundError {
    /// The configured number of sounds has been reached.
    SoundLimitReached,
    /// The command could not be submitted.
    CommandError(CommandError),
}

/// Decoding an audio file into frames failed.
#[derive(Clone, Copy, Debug, PartialEq, Eq, Structural)]
pub enum FromFileError {
    /// The stream has a channel count other than mono or stereo.
    UnsupportedChannelConfiguration,
    /// An mp3 stream changed its sample rate between frames.
    VariableMp3SampleRate,
    /// An mp3 stream held no frames, so no sample rate is known.
    UnknownMp3SampleRate,
    /// The file extension names no supported format.
    UnsupportedAudioFileFormat,
}

/// Loading a sound from a file failed.
#[derive(Clone, Copy, Debug, PartialEq, Eq, Structural)]
pub enum LoadSoundError {
    /// The file could not be decoded.
    FromFileError(FromFileError),
    /// The decoded sound could not be added.
    AddSoundError(AddSoundError),
}

/// Starting an instance of a sound failed.
#[derive(Clone, Copy, Debug, PartialEq, Eq, Structural)]
pub enum PlaySoundError {
    /// The configured number of instances has been reached.
    InstanceLimitReached,
    /// The command could not be submitted.
    CommandError(CommandError),
}

/// Adding a parameter failed.
#[derive(Clone, Copy, Debug, PartialEq, Eq, Structural)]
pub enum AddParameterError {
    /// The configured number of parameters has been reached.
    ParameterLimitReached,
    /// The command could not be submitted.
    CommandError(CommandError),
}

/// Adding a mixer sub-track failed.
#[derive(Clone, Copy, Debug, PartialEq, Eq, Structural)]
pub enum AddSubTrackError {
    /// The configured number of sub-tracks has been reached.
    SubTrackLimitReached,
    /// The command could not be submitted.
    CommandError(CommandError),
}

/// Adding a metronome failed.
#[derive(Clone, Copy, Debug, PartialEq, Eq, Structural)]
pub enum AddMetronomeError {
    /// The configured number of metronomes has been reached.
    MetronomeLimitReached,
    /// The command could not be submitted.
    CommandError(CommandError),
}

/// Starting a sequence failed.
#[derive(Clone, Copy, Debug, PartialEq, Eq, Structural)]
pub enum StartSequenceError {
    /// The configured number of sequences has been reached.
    SequenceLimitReached,
    /// The command could not be submitted.
    CommandError(CommandError),
}

/// A command aimed at an instance failed.
#[derive(Clone, Copy, Debug, PartialEq, Eq, Structural)]
pub enum InstanceError {
    /// The instance has already finished playing and was reclaimed.
    InstanceStopped,
    /// The command could not be submitted.
    CommandError(CommandError),
}

} // verus!
