use vstd::prelude::*;

verus! {

/// A count of frames.
pub type Playhead = u64;

/// A frequency in thousandths of a hertz.
pub type NoteHz = u64;

/// A point on the mel scale in thousandths of a mel.
pub type Mel = u32;

/// A note velocity in millionths of full scale.
pub type NoteVelocity = u32;

} // verus!
