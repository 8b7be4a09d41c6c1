//! Per-period sample storage: the main-bus buffer and the auxiliary buses.
//!
//! A [`Buffer`] holds one audio block: a fixed number of channels, each a
//! contiguous run of 32-bit samples.  A sample is the raw bit pattern of an
//! IEEE 754 single-precision float; the all-zero word is `+0.0`.  The driver
//! owns every buffer for its whole lifetime and lends the callback a mutable
//! borrow for exactly one invocation, re-zeroing the contents before the
//! next one.

use vstd::prelude::*;

verus! {

/// The contents of one zero-filled channel: `samples` zero samples.
pub open spec fn zero_row(samples: nat) -> Seq<u32> {
    Seq::new(samples, |s: int| 0u32)
}

/// The contents of a zero-filled audio block: `channels` channels of
/// `samples` zero samples each.
pub open spec fn zero_block(channels: nat, samples: nat) -> Seq<Seq<u32>> {
    Seq::new(channels, |c: int| zero_row(samples))
}

/// The contents of one zero-filled block per port: block `i` has
/// `counts[i]` channels of `samples` zero samples each.
pub open spec fn zero_banks(counts: Seq<u32>, samples: nat) -> Seq<Seq<Seq<u32>>> {
    Seq::new(counts.len(), |i: int| zero_block(counts[i] as nat, samples))
}

/// The abstract contents of a sequence of buffers.
pub open spec fn buffers_view(buffers: Seq<Buffer>) -> Seq<Seq<Seq<u32>>> {
    buffers.map_values(|b: Buffer| b@)
}

/// One audio block: per-channel sample storage for a fixed number of
/// channels and a fixed number of samples per channel.
///
/// Abstractly a `Buffer` is a sequence of channels, each a sequence of
/// 32-bit samples.
#[derive(Debug)]
pub struct Buffer {
    channels: Vec<Vec<u32>>,
}

impl View for Buffer {
    type V = Seq<Seq<u32>>;

    closed spec fn view(&self) -> Seq<Seq<u32>> {
        self.channels@.map_values(|c: Vec<u32>| c@)
    }
}

impl Buffer {
    /// Allocates a buffer of `channels` channels, each holding `samples`
    /// zero samples.
    pub fn new_zeroed(channels: usize, samples: usize) -> (b: Buffer)
        ensures
            b@ == zero_block(channels as nat, samples as nat),
    {
        let mut b = Buffer { channels: Vec::new() };
        b.reset_zero(channels, samples);
        b
    }

    /// Restores the buffer to `channels` channels of `samples` zero samples
    /// each, whatever shape or contents it held before.
    pub fn reset_zero(&mut self, channels: usize, samples: usize)
        ensures
            final(self)@ == zero_block(channels as nat, samples as nat),
    {
        self.channels.truncate(channels);
        let mut c: usize = 0;
        while c < self.channels.len()
            invariant
                c <= self.channels@.len() <= channels,
                forall|k: int|
                    0 <= k < c ==> #[trigger] self.channels@[k]@ == zero_row(samples as nat),
            decreases self.channels@.len() - c,
        {
            let ch = &mut self.channels[c];
            zero_channel(ch, samples);
            c += 1;
        }
        while self.channels.len() < channels
            invariant
                self.channels@.len() <= channels,
                forall|k: int|
                    0 <= k < self.channels@.len() ==> #[trigger] self.channels@[k]@ == zero_row(
                        samples as nat,
                    ),
            decreases channels - self.channels@.len(),
        {
            let fresh = zeroed_channel(samples);
            self.channels.push(fresh);
        }
        assert(self@ =~= zero_block(channels as nat, samples as nat));
    }

    /// Returns the number of channels.
    pub fn channel_count(&self) -> (n: usize)
        ensures
            n == self@.len(),
    {
        self.channels.len()
    }

    /// Returns the number of samples in channel `c`.
    pub fn channel_len(&self, c: usize) -> (n: usize)
        requires
            c < self@.len(),
        ensures
            n == self@[c as int].len(),
    {
        self.channels[c].len()
    }

    /// Reads the sample at position `i` of channel `c`.
    pub fn sample(&self, c: usize, i: usize) -> (s: u32)
        requires
            c < self@.len(),
            i < self@[c as int].len(),
        ensures
            s == self@[c as int][i as int],
    {
        self.channels[c][i]
    }

    /// Writes sample `v` at position `i` of channel `c`; every other sample
    /// keeps its value.
    pub fn set_sample(&mut self, c: usize, i: usize, v: u32)
        requires
            c < old(self)@.len(),
            i < old(self)@[c as int].len(),
        ensures
            final(self)@ == old(self)@.update(c as int, old(self)@[c as int].update(i as int, v)),
    {
        let ch = &mut self.channels[c];
        ch.set(i, v);
        assert(self@ =~= old(self)@.update(c as int, old(self)@[c as int].update(i as int, v)));
    }
}

/// Restores one channel to `samples` zero samples, whatever it held before.
fn zero_channel(ch: &mut Vec<u32>, samples: usize)
    ensures
        final(ch)@ == zero_row(samples as nat),
{
    ch.truncate(samples);
    let mut i: usize = 0;
    while i < ch.len()
        invariant
            i <= ch@.len() <= samples,
            forall|k: int| 0 <= k < i ==> #[trigger] ch@[k] == 0u32,
        decreases ch@.len() - i,
    {
        ch.set(i, 0u32);
        i += 1;
    }
    while ch.len() < samples
        invariant
            ch@.len() <= samples,
            forall|k: int| 0 <= k < ch@.len() ==> #[trigger] ch@[k] == 0u32,
        decreases samples - ch@.len(),
    {
        ch.push(0u32);
    }
    assert(ch@ =~= zero_row(samples as nat));
}

/// Allocates one channel of `samples` zero samples.
fn zeroed_channel(samples: usize) -> (ch: Vec<u32>)
    ensures
        ch@ == zero_row(samples as nat),
{
    let mut ch: Vec<u32> = Vec::new();
    zero_channel(&mut ch, samples);
    ch
}

/// The auxiliary buses lent to the callback beside the main buffer: one
/// buffer per auxiliary input port and one per auxiliary output port, in
/// the order the layout declares them.
#[derive(Debug)]
pub struct AuxiliaryBuses {
    /// One buffer per auxiliary input port.
    pub inputs: Vec<Buffer>,
    /// One buffer per auxiliary output port.
    pub outputs: Vec<Buffer>,
}

/// Restores a bank of auxiliary buffers to the shape the layout declares:
/// one buffer per entry of `counts`, buffer `i` holding `counts[i]` channels
/// of `samples` zero samples each.
pub fn reset_bank(buffers: &mut Vec<Buffer>, counts: &Vec<u32>, samples: usize)
    ensures
        buffers_view(final(buffers)@) == zero_banks(counts@, samples as nat),
{
    buffers.truncate(counts.len());
    let mut i: usize = 0;
    while i < buffers.len()
        invariant
            i <= buffers@.len() <= counts@.len(),
            forall|k: int|
                0 <= k < i ==> #[trigger] buffers@[k]@ == zero_block(
                    counts@[k] as nat,
                    samples as nat,
                ),
        decreases buffers@.len() - i,
    {
        let b = &mut buffers[i];
        b.reset_zero(counts[i] as usize, samples);
        i += 1;
    }
    while buffers.len() < counts.len()
        invariant
            buffers@.len() <= counts@.len(),
            forall|k: int|
                0 <= k < buffers@.len() ==> #[trigger] buffers@[k]@ == zero_block(
                    counts@[k] as nat,
                    samples as nat,
                ),
        decreases counts@.len() - buffers@.len(),
    {
        let n = buffers.len();
        let fresh = Buffer::new_zeroed(counts[n] as usize, samples);
        buffers.push(fresh);
    }
    assert(buffers_view(buffers@) =~= zero_banks(counts@, samples as nat));
}

} // verus!
