//! A music sequencer for a four-channel tone chip.
//!
//! [`tone`] packs the parameters of one tone into the four register values
//! that the chip's tone primitive takes. [`track`] is the sequencer: a track
//! walks a table of 32 notes, one call of [`Track::step`] per tick, and hands
//! back the register values of each tone that is due. Playing them is left to
//! the caller.

pub mod tone;
pub mod track;

pub use tone::{tone_sub, ToneParams, ToneRegisters};
pub use track::{
    Track, TrackView, TRACK_INSTRUMENTS, TRACK_NOTES, TRACK_OPCODE_EMPTY, TRACK_OPCODE_END,
};
