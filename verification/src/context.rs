//! The audio context: the per-cycle timing and geometry descriptor together
//! with the playback state flag.

use vstd::prelude::*;
use vstd::arithmetic::div_mod::lemma_div_nonincreasing;
use vstd::arithmetic::div_mod::lemma_multiply_divide_lt;
use vstd::arithmetic::mul::lemma_mul_strict_inequality;

verus! {

/// Playback state of the audio stream.
///
/// `Paused` is inactive. `Playing` is live real-time playback. `Offline` is
/// non-real-time rendering, which generator effects treat as active.
#[derive(Copy, Clone, Debug, PartialEq, Eq, Hash, Structural)]
pub enum AudioContextState {
    Paused,
    Playing,
    Offline,
}

/// Timing and geometry descriptor for one processing cycle, plus the playback
/// state. Mutated only by the engine between cycles.
#[derive(Copy, Clone, Debug, PartialEq, Eq, Hash, Structural)]
pub struct AudioContext {
    /// Samples per second per channel. Must be positive.
    pub sample_rate: u64,
    /// Number of interleaved channels. Must be positive.
    pub channel_count: u8,
    /// Samples per channel in one processing cycle.
    pub buffer_size: usize,
    /// Absolute frame position since the start of the stream.
    pub current_sample: usize,
    /// Playback state flag.
    pub state: AudioContextState,
}

/// A point in stream time, split into whole seconds and the remaining
/// nanoseconds, with the nanosecond part truncated toward zero.
#[derive(Copy, Clone, Debug, PartialEq, Eq, Hash, Structural)]
pub struct Timestamp {
    /// Whole seconds since the start of the stream.
    pub seconds: u64,
    /// Nanoseconds past the whole second; always below one billion.
    pub nanoseconds: u32,
}

impl Timestamp {
    /// The nanosecond part never reaches a full second.
    pub open spec fn wf(&self) -> bool {
        self.nanoseconds < 1_000_000_000
    }
}

impl AudioContext {
    /// Rates and channel counts are positive; zero is outside the domain.
    pub open spec fn wf(&self) -> bool {
        &&& self.sample_rate > 0
        &&& self.channel_count > 0
    }

    /// Length of the interleaved buffer one cycle works over.
    pub open spec fn spec_interleaved_buffer_length(&self) -> int {
        self.channel_count * self.buffer_size
    }

    /// A fresh context starts at frame zero, paused.
    pub fn new(sample_rate: u64, channel_count: u8, buffer_size: usize) -> (r: Self)
        requires
            sample_rate > 0,
            channel_count > 0,
        ensures
            r == (AudioContext {
                sample_rate,
                channel_count,
                buffer_size,
                current_sample: 0,
                state: AudioContextState::Paused,
            }),
            r.wf(),
    {
        Self {
            sample_rate,
            channel_count,
            buffer_size,
            current_sample: 0,
            state: AudioContextState::Paused,
        }
    }

    /// Number of samples in one interleaved cycle buffer: one sample per
    /// channel per frame, `buffer_size` frames.
    pub fn interleaved_buffer_length(&self) -> (r: usize)
        requires
            self.spec_interleaved_buffer_length() <= usize::MAX,
        ensures
            r == self.channel_count * self.buffer_size,
    {
        self.channel_count as usize * self.buffer_size
    }

    /// Stream time reached by `frame` frames at `sample_rate` frames per
    /// second: `frame / sample_rate` seconds, with the fractional part
    /// rendered as whole nanoseconds, truncated toward zero.
    pub open spec fn spec_time_at(frame: int, sample_rate: int) -> Timestamp {
        Timestamp {
            seconds: (frame / sample_rate) as u64,
            nanoseconds: ((frame % sample_rate) * 1_000_000_000 / sample_rate) as u32,
        }
    }

    /// Stream time at the current frame position.
    pub fn timestamp(&self) -> (r: Timestamp)
        requires
            self.wf(),
        ensures
            r == Self::spec_time_at(self.current_sample as int, self.sample_rate as int),
            r.wf(),
    {
        Self::time_at(self.current_sample, self.sample_rate)
    }

    /// Stream time at `offset` frames past the current position; `offset`
    /// may reach to the end of the representable stream.
    pub fn timestamp_offset(&self, offset: usize) -> (r: Timestamp)
        requires
            self.wf(),
            self.current_sample + offset <= usize::MAX,
        ensures
            r == Self::spec_time_at(
                self.current_sample + offset,
                self.sample_rate as int,
            ),
            r.wf(),
    {
        Self::time_at(self.current_sample + offset, self.sample_rate)
    }

    /// Converts a frame count into seconds and nanoseconds by exact integer
    /// arithmetic.
    fn time_at(frame: usize, sample_rate: u64) -> (r: Timestamp)
        requires
            sample_rate > 0,
        ensures
            r == Self::spec_time_at(frame as int, sample_rate as int),
            r.wf(),
    {
        let total: u128 = frame as u128;
        let rate: u128 = sample_rate as u128;
        let secs: u128 = total / rate;
        let rem: u128 = total % rate;
        proof {
            lemma_div_nonincreasing(total as int, rate as int);
            lemma_mul_strict_inequality(rem as int, rate as int, 1_000_000_000);
        }
        let nanos: u128 = rem * 1_000_000_000 / rate;
        proof {
            lemma_multiply_divide_lt(
                rem as int * 1_000_000_000,
                rate as int,
                1_000_000_000,
            );
        }
        Timestamp { seconds: secs as u64, nanoseconds: nanos as u32 }
    }

    /// Advances the clock by one completed cycle: `buffer_size` frames.
    /// The engine calls this exactly once per cycle, after processing.
    pub fn add_sample_cycle(&mut self)
        requires
            old(self).current_sample + old(self).buffer_size <= usize::MAX,
        ensures
            *final(self) == spec_add_sample_cycle(*old(self)),
            final(self).current_sample == old(self).current_sample + old(self).buffer_size,
    {
        self.current_sample = self.current_sample + self.buffer_size;
    }

    /// Whether the stream is active: true in `Playing` and `Offline`, false
    /// in `Paused`, regardless of every other field.
    pub fn is_playing(&self) -> (r: bool)
        ensures
            r == (self.state == AudioContextState::Playing
                || self.state == AudioContextState::Offline),
    {
        match self.state {
            AudioContextState::Playing | AudioContextState::Offline => true,
            _ => false,
        }
    }
}

/// The context after one completed cycle: the clock has moved forward by one
/// buffer of frames and nothing else has changed.
pub open spec fn spec_add_sample_cycle(c: AudioContext) -> AudioContext {
    AudioContext { current_sample: (c.current_sample + c.buffer_size) as usize, ..c }
}

/// The context after `n` completed cycles.
pub open spec fn cycled(c: AudioContext, n: nat) -> AudioContext
    decreases n,
{
    if n == 0 {
        c
    } else {
        spec_add_sample_cycle(cycled(c, (n - 1) as nat))
    }
}

/// Law: `n` completed cycles move the clock exactly `n` buffers past where it
/// started, and touch no other field.
pub proof fn lemma_clock_after_cycles(c: AudioContext, n: nat)
    requires
        c.current_sample + n * c.buffer_size <= usize::MAX,
    ensures
        cycled(c, n).current_sample == c.current_sample + n * c.buffer_size,
        cycled(c, n).buffer_size == c.buffer_size,
        cycled(c, n).sample_rate == c.sample_rate,
        cycled(c, n).channel_count == c.channel_count,
        cycled(c, n).state == c.state,
    decreases n,
{
    if n > 0 {
        let m = (n - 1) as nat;
        assert(m * c.buffer_size + c.buffer_size == n * c.buffer_size)
            by (nonlinear_arith)
            requires m == n - 1,
        ;
        lemma_clock_after_cycles(c, m);
    } else {
        assert(cycled(c, n) == c);
        assert(n * c.buffer_size == 0) by (nonlinear_arith)
            requires n == 0,
        ;
    }
}

/// Law: a stream that starts at frame zero stands at frame `n * buffer_size`
/// after `n` completed cycles.
pub proof fn lemma_clock_counts_cycles(
    sample_rate: u64,
    channel_count: u8,
    buffer_size: usize,
    n: nat,
)
    requires
        n * buffer_size <= usize::MAX,
    ensures
        cycled(
            AudioContext {
                sample_rate,
                channel_count,
                buffer_size,
                current_sample: 0,
                state: AudioContextState::Paused,
            },
            n,
        ).current_sample == n * buffer_size,
{
    let c = AudioContext {
        sample_rate,
        channel_count,
        buffer_size,
        current_sample: 0,
        state: AudioContextState::Paused,
    };
    lemma_clock_after_cycles(c, n);
}

} // verus!
