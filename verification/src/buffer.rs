//! Planar sample container: one ordered sequence of samples per channel.
//!
//! Samples are opaque 64-bit words; the buffer only stores and reorders
//! them, so every operation here is exact.  A buffer is well formed when
//! all channels hold the same number of frames.

use vstd::arithmetic::div_mod::lemma_fundamental_div_mod_converse;
use vstd::prelude::*;

verus! {

/// Planar (channel-major) sample storage.
pub struct SampleBuf {
    data: Vec<Vec<u64>>,
}

/// The number of frames a planar buffer holds: the length of its first
/// channel, or zero when it has no channels.
pub open spec fn spec_frames(b: Seq<Seq<u64>>) -> nat {
    if b.len() == 0 {
        0
    } else {
        b[0].len()
    }
}

/// A buffer is well formed when every channel holds the same number of
/// frames.
pub open spec fn buf_wf(b: Seq<Seq<u64>>) -> bool {
    forall|i: int| 0 <= i < b.len() ==> (#[trigger] b[i]).len() == spec_frames(b)
}

/// One channel after a resize to `f` frames: existing samples kept up to
/// `f`, new frames filled with the equilibrium word 0.
pub open spec fn spec_resize_channel(ch: Seq<u64>, f: nat) -> Seq<u64> {
    if f <= ch.len() {
        ch.take(f as int)
    } else {
        ch + Seq::new((f - ch.len()) as nat, |j: int| 0u64)
    }
}

/// A whole buffer after `resize(c, f)`: exactly `c` channels of `f`
/// frames each; existing channels keep their samples up to `f`, and
/// every new channel or frame holds the equilibrium word 0.
pub open spec fn spec_resize(b: Seq<Seq<u64>>, c: nat, f: nat) -> Seq<Seq<u64>> {
    Seq::new(c,
        |i: int| if i < b.len() {
            spec_resize_channel(b[i], f)
        } else {
            Seq::new(f, |j: int| 0u64)
        })
}

impl View for SampleBuf {
    type V = Seq<Seq<u64>>;

    closed spec fn view(&self) -> Seq<Seq<u64>> {
        Seq::new(self.data@.len(), |i: int| self.data@[i]@)
    }
}

impl SampleBuf {
    pub open spec fn wf(self) -> bool {
        buf_wf(self@)
    }

    /// An empty buffer: no channels, no frames.
    pub fn new() -> (r: SampleBuf)
        ensures
            r@ == Seq::<Seq<u64>>::empty(),
            r.wf(),
    {
        let r = SampleBuf { data: Vec::new() };
        proof {
            assert(r@ =~= Seq::<Seq<u64>>::empty());
        }
        r
    }

    /// `channels` empty channels, each with room reserved for
    /// `samples_per_channel` frames.
    pub fn with_capacity(channels: usize, samples_per_channel: usize) -> (r: SampleBuf)
        ensures
            r@.len() == channels,
            forall|i: int| 0 <= i < channels ==> (#[trigger] r@[i]).len() == 0,
            r.wf(),
    {
        let mut data: Vec<Vec<u64>> = Vec::new();
        let mut c: usize = 0;
        while c < channels
            invariant
                c <= channels,
                data@.len() == c,
                forall|i: int| 0 <= i < c ==> (#[trigger] data@[i])@.len() == 0,
            decreases channels - c,
        {
            data.push(Vec::with_capacity(samples_per_channel));
            c = c + 1;
        }
        SampleBuf { data }
    }

    /// Wrap already-planar data without copying it.
    pub fn with_buffer(buffer: Vec<Vec<u64>>) -> (r: SampleBuf)
        ensures
            r@.len() == buffer@.len(),
            forall|i: int| 0 <= i < buffer@.len() ==> r@[i] == (#[trigger] buffer@[i])@,
    {
        SampleBuf { data: buffer }
    }

    pub fn channels(&self) -> (r: usize)
        ensures
            r == self@.len(),
    {
        self.data.len()
    }

    pub fn frames(&self) -> (r: usize)
        ensures
            r == spec_frames(self@),
    {
        if self.data.len() == 0 {
            0
        } else {
            self.data[0].len()
        }
    }

    /// Read access to one channel's samples; none when the channel does
    /// not exist.
    pub fn samples(&self, channel: usize) -> (r: Option<&Vec<u64>>)
        ensures
            channel < self@.len() ==> (r matches Some(v) && v@ == self@[channel as int]),
            channel >= self@.len() ==> r is None,
    {
        if channel < self.data.len() {
            Some(&self.data[channel])
        } else {
            None
        }
    }

    /// Append one sample word to an existing channel.
    pub fn push_sample(&mut self, channel: usize, value: u64)
        requires
            channel < old(self)@.len(),
        ensures
            final(self)@ == old(self)@.update(channel as int,
                old(self)@[channel as int].push(value)),
    {
        let ch = &mut self.data[channel];
        ch.push(value);
        proof {
            assert(self@ =~= old(self)@.update(channel as int,
                old(self)@[channel as int].push(value)));
        }
    }

    /// Resize to exactly `channels` channels of `samples_per_channel`
    /// frames each: existing samples are kept up to the new size, and
    /// every new channel or frame is filled with the equilibrium word 0.
    pub fn resize(&mut self, channels: usize, samples_per_channel: usize)
        ensures
            final(self)@ == spec_resize(old(self)@, channels as nat, samples_per_channel as nat),
            final(self)@.len() == channels,
            final(self).wf(),
    {
        let mut out: Vec<Vec<u64>> = Vec::new();
        let mut i: usize = 0;
        while i < channels
            invariant
                i <= channels,
                self@ == old(self)@,
                out@.len() == i,
                forall|k: int| 0 <= k < i ==> (#[trigger] out@[k])@
                    == spec_resize(old(self)@, channels as nat, samples_per_channel as nat)[k],
            decreases channels - i,
        {
            let mut ch: Vec<u64> = Vec::new();
            if i < self.data.len() {
                let src = &self.data[i];
                let copy_len = if samples_per_channel < src.len() {
                    samples_per_channel
                } else {
                    src.len()
                };
                let mut j: usize = 0;
                while j < copy_len
                    invariant
                        j <= copy_len,
                        copy_len <= src@.len(),
                        ch@.len() == j,
                        forall|k: int| 0 <= k < j ==> ch@[k] == src@[k],
                    decreases copy_len - j,
                {
                    let s = src[j];
                    ch.push(s);
                    j = j + 1;
                }
                while ch.len() < samples_per_channel
                    invariant
                        copy_len <= ch@.len() <= samples_per_channel,
                        copy_len <= src@.len(),
                        forall|k: int| 0 <= k < copy_len ==> ch@[k] == src@[k],
                        forall|k: int| copy_len <= k < ch@.len() ==> ch@[k] == 0u64,
                    decreases samples_per_channel - ch@.len(),
                {
                    ch.push(0);
                }
                proof {
                    assert(ch@ =~= spec_resize_channel(self@[i as int], samples_per_channel as nat));
                }
            } else {
                while ch.len() < samples_per_channel
                    invariant
                        ch@.len() <= samples_per_channel,
                        forall|k: int| 0 <= k < ch@.len() ==> ch@[k] == 0u64,
                    decreases samples_per_channel - ch@.len(),
                {
                    ch.push(0);
                }
                proof {
                    assert(ch@ =~= Seq::new(samples_per_channel as nat, |j: int| 0u64));
                }
            }
            out.push(ch);
            i = i + 1;
        }
        self.data = out;
        proof {
            let target = spec_resize(old(self)@, channels as nat, samples_per_channel as nat);
            assert(self@ =~= target);
            assert forall|k: int| 0 <= k < self@.len()
                implies (#[trigger] self@[k]).len() == spec_frames(self@) by {
                assert(self@[k].len() == samples_per_channel);
            }
        }
    }

    /// All samples in interleaved (frame-major, channel-minor) order:
    /// the k-th output word is channel `k % C`, frame `k / C`, so the
    /// output holds exactly `channels * frames` words.
    pub fn interleaved(&self) -> (r: Vec<u64>)
        requires
            self.wf(),
        ensures
            r@.len() == self@.len() * spec_frames(self@),
            forall|k: int| 0 <= k < r@.len()
                ==> r@[k] == self@[k % self@.len() as int][k / self@.len() as int],
    {
        let channels = self.data.len();
        let frames = self.frames();
        let mut r: Vec<u64> = Vec::new();
        let mut f: usize = 0;
        while f < frames
            invariant
                self.wf(),
                f <= frames,
                channels == self@.len(),
                frames == spec_frames(self@),
                r@.len() == f * channels,
                forall|k: int| 0 <= k < r@.len()
                    ==> r@[k] == self@[k % channels as int][k / channels as int],
            decreases frames - f,
        {
            let mut c: usize = 0;
            while c < channels
                invariant
                    self.wf(),
                    f < frames,
                    c <= channels,
                    channels == self@.len(),
                    frames == spec_frames(self@),
                    r@.len() == f * channels + c,
                    forall|k: int| 0 <= k < r@.len()
                        ==> r@[k] == self@[k % channels as int][k / channels as int],
                decreases channels - c,
            {
                proof {
                    assert(self@[c as int].len() == spec_frames(self@));
                }
                let s = self.data[c][f];
                r.push(s);
                proof {
                    lemma_fundamental_div_mod_converse(
                        f * channels + c, channels as int, f as int, c as int);
                }
                c = c + 1;
            }
            proof {
                assert((f + 1) * channels == f * channels + channels) by (nonlinear_arith);
            }
            f = f + 1;
        }
        proof {
            assert(frames * channels == channels * frames) by (nonlinear_arith);
        }
        r
    }
}

/// Resizing is idempotent: a second `resize` with the same channel and
/// frame counts leaves the buffer unchanged.
pub proof fn lemma_resize_idempotent(b: Seq<Seq<u64>>, c: nat, f: nat)
    ensures
        spec_resize(spec_resize(b, c, f), c, f) == spec_resize(b, c, f),
{
    let once = spec_resize(b, c, f);
    assert forall|i: int| 0 <= i < once.len()
        implies #[trigger] spec_resize(once, c, f)[i] == once[i] by {
        assert(once[i].len() == f);
        assert(spec_resize_channel(once[i], f) =~= once[i]);
    }
    assert(spec_resize(once, c, f) =~= once);
}

} // verus!
