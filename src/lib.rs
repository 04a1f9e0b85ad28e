//! Playback engine of a desktop music player: a play queue, transport state and
//! the decisions of the worker that owns them, stated and proved with Verus.

pub mod error;
pub mod track;
pub mod command;
pub mod player;
pub mod engine;
pub mod laws;
