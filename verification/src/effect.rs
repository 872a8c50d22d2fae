//! The effect capability: a stateful transformation applied in place to one
//! interleaved cycle buffer, given the context for that cycle.

use vstd::prelude::*;
use crate::context::AudioContext;

verus! {

/// A stateful audio transformation over samples of type `T`.
///
/// `process` mutates the buffer in place and may update the effect's own
/// internal state (oscillator phase, filter memory), but never the context.
/// The buffer handed in always spans exactly one cycle: one sample per
/// channel per frame. Every implementation leaves the buffer's length as it
/// found it, and writes into the buffer exactly what its own
/// `spec_data_after` names for the effect's pre-call state.
pub trait Effect<T> {
    /// What one `process` call under `context` makes of a buffer `data`,
    /// as a function of the effect's current state.
    spec fn spec_data_after(&self, context: AudioContext, data: Seq<T>) -> Seq<T>;

    fn process(&mut self, context: &AudioContext, data: &mut Vec<T>)
        requires
            context.wf(),
            old(data)@.len() == context.spec_interleaved_buffer_length(),
        ensures
            final(data)@.len() == old(data)@.len(),
            final(data)@ == old(self).spec_data_after(*context, old(data)@),
    ;
}

} // verus!
