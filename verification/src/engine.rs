//! The engine: sole owner of one context and one rack. It drives processing
//! cycles over interleaved buffers and advances the sample clock exactly once
//! per completed cycle, after the rack has run.

use vstd::prelude::*;
use vstd::arithmetic::div_mod::lemma_fundamental_div_mod;
use crate::context::AudioContext;
use crate::context::AudioContextState;
use crate::effect::Effect;
use crate::rack::Rack;
use crate::rack::spec_chain_after;

verus! {

/// Orchestrator for buffer-at-a-time processing: owns the timing context and
/// the effects rack, and is the only party that moves the clock.
pub struct AudioEngine<E> {
    /// Timing and playback-state descriptor for the stream.
    pub context: AudioContext,
    /// The signal path applied to every cycle buffer.
    pub rack: Rack<E>,
}

impl<E> AudioEngine<E> {
    /// A fresh engine: the clock at frame zero, paused, with an empty rack.
    pub fn new(sample_rate: u64, channel_count: u8, buffer_size: usize) -> (r: Self)
        requires
            sample_rate > 0,
            channel_count > 0,
        ensures
            r.context == (AudioContext {
                sample_rate,
                channel_count,
                buffer_size,
                current_sample: 0,
                state: AudioContextState::Paused,
            }),
            r.rack.effects@.len() == 0,
    {
        Self {
            context: AudioContext::new(sample_rate, channel_count, buffer_size),
            rack: Rack::new(),
        }
    }

    /// Runs one cycle over a host-supplied interleaved buffer, in place.
    ///
    /// The cycle geometry follows the buffer: `buffer_size` becomes the
    /// number of frames the buffer holds, the rack processes the buffer, and
    /// the clock then advances by exactly that many frames. The buffer must
    /// hold whole frames: its length a multiple of the channel count.
    pub fn fill_interleaved<T>(&mut self, input: &mut Vec<T>) where E: Effect<T>
        requires
            old(self).context.wf(),
            old(input)@.len() as int % (old(self).context.channel_count as int) == 0,
            old(self).context.current_sample + old(input)@.len() as int / (
            old(self).context.channel_count as int) <= usize::MAX,
        ensures
            final(self).context.sample_rate == old(self).context.sample_rate,
            final(self).context.channel_count == old(self).context.channel_count,
            final(self).context.state == old(self).context.state,
            final(self).context.buffer_size == old(input)@.len() as int / (
            old(self).context.channel_count as int),
            final(self).context.current_sample == old(self).context.current_sample
                + old(input)@.len() as int / (old(self).context.channel_count as int),
            final(input)@.len() == old(input)@.len(),
            final(input)@ == spec_chain_after(
                old(self).rack.effects@,
                (AudioContext {
                    buffer_size: (old(input)@.len() as int / (
                    old(self).context.channel_count as int)) as usize,
                    ..old(self).context
                }),
                old(input)@,
            ),
            final(self).rack.effects@.len() == old(self).rack.effects@.len(),
            forall|j: int|
                0 <= j < old(self).rack.effects@.len() ==> final(self).rack.effects@[j].enabled
                    == old(self).rack.effects@[j].enabled,
            forall|j: int|
                0 <= j < old(self).rack.effects@.len() && !old(self).rack.effects@[j].enabled
                    ==> final(self).rack.effects@[j] == old(self).rack.effects@[j],
            (forall|j: int|
                0 <= j < old(self).rack.effects@.len() ==> !old(self).rack.effects@[j].enabled)
                ==> final(input)@ == old(input)@,
    {
        let channels = self.context.channel_count as usize;
        let frames = input.len() / channels;
        self.context.buffer_size = frames;
        proof {
            lemma_fundamental_div_mod(old(input)@.len() as int, channels as int);
        }
        self.rack.process(&self.context, input);
        self.context.add_sample_cycle();
    }

    /// Generates one cycle from silence: allocates a buffer of
    /// `interleaved_buffer_length()` copies of `silence`, runs the rack over
    /// it, advances the clock by `buffer_size` frames, and returns it.
    pub fn generate<T: Copy>(&mut self, silence: T) -> (r: Vec<T>) where E: Effect<T>
        requires
            old(self).context.wf(),
            old(self).context.spec_interleaved_buffer_length() <= usize::MAX,
            old(self).context.current_sample + old(self).context.buffer_size <= usize::MAX,
        ensures
            r@.len() == old(self).context.spec_interleaved_buffer_length(),
            r@ == spec_chain_after(
                old(self).rack.effects@,
                old(self).context,
                Seq::new(
                    old(self).context.spec_interleaved_buffer_length() as nat,
                    |k: int| silence,
                ),
            ),
            final(self).context == crate::context::spec_add_sample_cycle(old(self).context),
            final(self).rack.effects@.len() == old(self).rack.effects@.len(),
            forall|j: int|
                0 <= j < old(self).rack.effects@.len() ==> final(self).rack.effects@[j].enabled
                    == old(self).rack.effects@[j].enabled,
            forall|j: int|
                0 <= j < old(self).rack.effects@.len() && !old(self).rack.effects@[j].enabled
                    ==> final(self).rack.effects@[j] == old(self).rack.effects@[j],
            (forall|j: int|
                0 <= j < old(self).rack.effects@.len() ==> !old(self).rack.effects@[j].enabled)
                ==> forall|k: int| 0 <= k < r@.len() ==> r@[k] == silence,
    {
        let length = self.context.interleaved_buffer_length();
        let mut buffer: Vec<T> = Vec::new();
        while buffer.len() < length
            invariant
                buffer@.len() <= length,
                forall|k: int| 0 <= k < buffer@.len() ==> buffer@[k] == silence,
            decreases length - buffer@.len(),
        {
            buffer.push(silence);
        }
        proof {
            assert(buffer@ =~= Seq::new(
                old(self).context.spec_interleaved_buffer_length() as nat,
                |k: int| silence,
            ));
        }
        self.rack.process(&self.context, &mut buffer);
        self.context.add_sample_cycle();
        buffer
    }

    /// Sets the number of frames the next generated cycle will span. Takes
    /// effect from the next cycle; the clock and the rack are untouched.
    pub fn set_buffer_size(&mut self, buffer_size: usize)
        ensures
            final(self).context == (AudioContext { buffer_size, ..old(self).context }),
            final(self).rack == old(self).rack,
    {
        self.context.buffer_size = buffer_size;
    }

    /// Sets the playback state, effective from the next processing call.
    pub fn set_context_state(&mut self, state: AudioContextState)
        ensures
            final(self).context == (AudioContext { state, ..old(self).context }),
            final(self).rack == old(self).rack,
    {
        self.context.state = state;
    }

    /// Read access to the rack.
    pub fn get_rack(&self) -> (r: &Rack<E>)
        ensures
            *r == self.rack,
    {
        &self.rack
    }

    /// Mutable access to the rack, for configuration between cycles.
    pub fn get_rack_mut(&mut self) -> (r: &mut Rack<E>)
        ensures
            *r == old(self).rack,
            final(self).rack == *final(r),
            final(self).context == old(self).context,
    {
        &mut self.rack
    }

    /// Read access to the context.
    pub fn get_context(&self) -> (r: &AudioContext)
        ensures
            *r == self.context,
    {
        &self.context
    }
}

} // verus!
