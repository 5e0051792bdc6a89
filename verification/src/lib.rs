//! Core of a realtime audio playback and sequencing engine.
//!
//! The engine is split across two actors: a controller side that allocates
//! IDs and submits commands, and an audio side that owns all playback state
//! and produces one stereo frame per tick. All audio values are exact
//! fixed-point integers so that every rule of the engine can be verified;
//! hosts convert to their native sample format at the edges.

pub mod arena;
pub mod backend;
pub mod command;
pub mod error;
pub mod frame;
pub mod instance;
pub mod manager;
pub mod metronome;
pub mod parameters;
pub mod ring;
pub mod sequence;
pub mod sound;
pub mod static_sound;
pub mod tween;

