//! Converts note-on and note-off events into a per-frame stream of velocity and
//! frequency for a bank of voices.
pub mod unit;
pub mod note_freq;
pub mod voice;
pub mod mode;
pub mod instrument;
pub mod source;

pub use note_freq::{FreqOut, Pitch};
pub use source::Source;
pub use voice::{NoteState, Voice};
pub use instrument::{ConfigError, FramePerVoice, Frames, Instrument};
