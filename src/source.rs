use vstd::prelude::*;

verus! {

/// A source of samples for an instrument.
pub trait Source {
    /// The state of the source that goes with each sounding voice.
    type Voice;
}

} // verus!
