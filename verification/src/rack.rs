//! The effects rack: an ordered, mutable chain of enableable effect entries.
//! The rack is itself an effect, so racks compose by nesting.

use vstd::prelude::*;
use crate::context::AudioContext;
use crate::effect::Effect;

verus! {

/// The one failure the rack reports: a positional operation addressed an
/// index outside the chain.
#[derive(Copy, Clone, Debug, PartialEq, Eq, Structural)]
pub enum RackError {
    IndexOutOfRange,
}

/// One slot of the rack: exclusive ownership of one effect instance plus an
/// enabled flag. Disabling only skips invocation; the effect's internal
/// state stays untouched.
pub struct RackEffect<E> {
    /// The owned effect instance.
    pub effect: E,
    /// Whether `process` invokes this entry.
    pub enabled: bool,
}

impl<E> RackEffect<E> {
    /// Wraps an effect; a fresh entry starts enabled.
    pub fn new(effect: E) -> (r: Self)
        ensures
            r == (RackEffect { effect, enabled: true }),
    {
        Self { effect, enabled: true }
    }

    /// Whether this entry currently takes part in processing.
    pub fn enabled(&self) -> (r: bool)
        ensures
            r == self.enabled,
    {
        self.enabled
    }

    /// Takes the entry out of the signal path; the effect keeps its state.
    pub fn disable(&mut self)
        ensures
            *final(self) == (RackEffect { enabled: false, ..*old(self) }),
    {
        self.enabled = false;
    }

    /// Puts the entry back into the signal path.
    pub fn enable(&mut self)
        ensures
            *final(self) == (RackEffect { enabled: true, ..*old(self) }),
    {
        self.enabled = true;
    }

    /// Flips the enabled flag.
    pub fn toggle(&mut self)
        ensures
            *final(self) == (RackEffect { enabled: !old(self).enabled, ..*old(self) }),
    {
        self.enabled = !self.enabled;
    }
}

/// An ordered, mutable chain of rack entries. The order is the signal path:
/// `process` applies the enabled entries front to back, each one reading the
/// previous one's output in place.
pub struct Rack<E> {
    /// The entries, in signal order.
    pub effects: Vec<RackEffect<E>>,
}

impl<E> Rack<E> {
    /// An empty rack, which processes any buffer as a no-op.
    pub fn new() -> (r: Self)
        ensures
            r.effects@.len() == 0,
    {
        Self { effects: Vec::new() }
    }

    /// Number of entries in the chain, enabled or not.
    pub fn len(&self) -> (r: usize)
        ensures
            r == self.effects@.len(),
    {
        self.effects.len()
    }

    /// Appends an effect at the tail of the chain, so it is applied last.
    /// The new entry starts enabled.
    pub fn push_effect(&mut self, effect: E)
        ensures
            final(self).effects@ == old(self).effects@.push(
                (RackEffect { effect, enabled: true }),
            ),
    {
        self.effects.push(RackEffect::new(effect));
    }

    /// Inserts an effect before the entry currently at `pos`; `pos` equal to
    /// the length appends. A position past the end is an index error and
    /// leaves the chain unchanged. The new entry starts enabled.
    pub fn insert_effect(&mut self, pos: usize, effect: E) -> (r: Result<(), RackError>)
        ensures
            r is Ok <==> pos <= old(self).effects@.len(),
            r is Ok ==> final(self).effects@ == old(self).effects@.insert(
                pos as int,
                (RackEffect { effect, enabled: true }),
            ),
            r is Err ==> final(self).effects@ == old(self).effects@
                && r == Err::<(), RackError>(RackError::IndexOutOfRange),
    {
        if pos <= self.effects.len() {
            self.effects.insert(pos, RackEffect::new(effect));
            Ok(())
        } else {
            Err(RackError::IndexOutOfRange)
        }
    }

    /// Removes the entry at `pos` and drops it. A position at or past the
    /// end is an index error and leaves the chain unchanged.
    pub fn remove_effect(&mut self, pos: usize) -> (r: Result<(), RackError>)
        ensures
            r is Ok <==> pos < old(self).effects@.len(),
            r is Ok ==> final(self).effects@ == old(self).effects@.remove(pos as int),
            r is Err ==> final(self).effects@ == old(self).effects@
                && r == Err::<(), RackError>(RackError::IndexOutOfRange),
    {
        if pos < self.effects.len() {
            let _ = self.effects.remove(pos);
            Ok(())
        } else {
            Err(RackError::IndexOutOfRange)
        }
    }

    /// Relocates the entry at `pos_src` so that it ends up at index
    /// `pos_dest`, keeping the relative order of all other entries.
    /// `pos_dest` addresses the chain as it stands after the source entry
    /// has been taken out, so both positions must lie below the current
    /// length. Anything else is an index error and leaves the chain
    /// unchanged.
    pub fn reorder_effect(&mut self, pos_src: usize, pos_dest: usize) -> (r: Result<
        (),
        RackError,
    >)
        ensures
            r is Ok <==> pos_src < old(self).effects@.len()
                && pos_dest < old(self).effects@.len(),
            r is Ok ==> final(self).effects@ == old(self).effects@.remove(
                pos_src as int,
            ).insert(pos_dest as int, old(self).effects@[pos_src as int]),
            r is Err ==> final(self).effects@ == old(self).effects@
                && r == Err::<(), RackError>(RackError::IndexOutOfRange),
    {
        if pos_src < self.effects.len() && pos_dest < self.effects.len() {
            let entry = self.effects.remove(pos_src);
            self.effects.insert(pos_dest, entry);
            Ok(())
        } else {
            Err(RackError::IndexOutOfRange)
        }
    }
}

impl<E> Default for Rack<E> {
    /// The default rack is empty.
    fn default() -> (r: Self)
        ensures
            r.effects@.len() == 0,
    {
        Self { effects: Vec::new() }
    }
}

/// What a chain of entries, taken front to back, makes of a buffer: each
/// enabled entry's transformation feeds the next, disabled entries are
/// skipped.
pub open spec fn spec_chain_after<T, E: Effect<T>>(
    entries: Seq<RackEffect<E>>,
    context: AudioContext,
    data: Seq<T>,
) -> Seq<T>
    decreases entries.len(),
{
    if entries.len() == 0 {
        data
    } else {
        let rest = entries.skip(1);
        if entries[0].enabled {
            spec_chain_after(rest, context, entries[0].effect.spec_data_after(context, data))
        } else {
            spec_chain_after(rest, context, data)
        }
    }
}

impl<T, E: Effect<T>> Effect<T> for RackEffect<E> {
    /// An entry transforms the buffer exactly as its wrapped effect does;
    /// the flag plays no part here, since the rack applies it.
    open spec fn spec_data_after(&self, context: AudioContext, data: Seq<T>) -> Seq<T> {
        self.effect.spec_data_after(context, data)
    }

    /// Forwards to the wrapped effect, whatever the flag says; the rack
    /// skips disabled entries itself. The flag is left as it was.
    fn process(&mut self, context: &AudioContext, data: &mut Vec<T>)
        ensures
            final(self).enabled == old(self).enabled,
    {
        self.effect.process(context, data)
    }
}

impl<T, E: Effect<T>> Effect<T> for Rack<E> {
    /// A rack transforms the buffer as the fold of its chain: the enabled
    /// entries in storage order, each output the next input.
    open spec fn spec_data_after(&self, context: AudioContext, data: Seq<T>) -> Seq<T> {
        spec_chain_after(self.effects@, context, data)
    }

    /// Applies the enabled entries to the buffer in storage order, each
    /// one's output feeding the next in place, so that the buffer ends as
    /// `spec_chain_after` of the chain's pre-call state. Disabled entries
    /// are skipped and left untouched. The chain's length and every enabled
    /// flag are preserved; a rack with no enabled entry (an empty one in
    /// particular) leaves both the buffer and itself exactly as they were.
    fn process(&mut self, context: &AudioContext, data: &mut Vec<T>)
        ensures
            final(self).effects@.len() == old(self).effects@.len(),
            forall|j: int|
                0 <= j < old(self).effects@.len() ==> final(self).effects@[j].enabled
                    == old(self).effects@[j].enabled,
            forall|j: int|
                0 <= j < old(self).effects@.len() && !old(self).effects@[j].enabled
                    ==> final(self).effects@[j] == old(self).effects@[j],
            (forall|j: int|
                0 <= j < old(self).effects@.len() ==> !old(self).effects@[j].enabled)
                ==> final(data)@ == old(data)@ && final(self).effects@ == old(self).effects@,
    {
        let ghost orig_effects = self.effects@;
        let ghost orig_data = data@;
        proof {
            assert(orig_effects.skip(0) =~= orig_effects);
        }
        let n = self.effects.len();
        let mut i: usize = 0;
        while i < n
            invariant
                i <= n,
                n == self.effects@.len(),
                self.effects@.len() == orig_effects.len(),
                data@.len() == orig_data.len(),
                context.wf(),
                orig_data.len() == context.spec_interleaved_buffer_length(),
                forall|j: int|
                    0 <= j < n ==> self.effects@[j].enabled == orig_effects[j].enabled,
                forall|j: int|
                    0 <= j < n && !orig_effects[j].enabled ==> self.effects@[j]
                        == orig_effects[j],
                forall|j: int| i <= j < n ==> self.effects@[j] == orig_effects[j],
                spec_chain_after(orig_effects, *context, orig_data) == spec_chain_after(
                    orig_effects.skip(i as int),
                    *context,
                    data@,
                ),
                (forall|j: int| 0 <= j < n ==> !orig_effects[j].enabled)
                    ==> data@ == orig_data && self.effects@ == orig_effects,
            decreases n - i,
        {
            proof {
                assert(orig_effects.skip(i as int)[0] == orig_effects[i as int]);
                assert(orig_effects.skip(i as int).skip(1) =~= orig_effects.skip(i + 1));
            }
            if self.effects[i].enabled {
                self.effects[i].effect.process(context, data);
            }
            i = i + 1;
        }
        proof {
            assert(orig_effects.skip(n as int).len() == 0);
        }
    }
}

} // verus!
