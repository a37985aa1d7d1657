//! Cross-packet buffering shim in front of a fixed-input-chunk
//! resampler engine.
//!
//! The engine consumes exactly `chunk_frames` frames per invocation,
//! but decoded packets arrive in arbitrary sizes.  The shim aggregates
//! packets into full chunks, hands full chunks out in arrival order,
//! and preserves the residual partial chunk across packets.  The sinc
//! engine itself works in floating point and lives outside the library;
//! everything decided here — chunk sizing, packet aggregation, chunk
//! boundaries, the reset on seek — is verified.

use crate::buffer::{buf_wf, spec_frames, SampleBuf};
use crate::track::CodecParams;
use vstd::prelude::*;

verus! {

/// Errors raised while setting up resampling.
#[derive(Clone, Copy, Debug, PartialEq, Eq, Structural)]
pub enum ResamplerError {
    /// The codec reports no sample rate or no channel count; the caller
    /// falls back to playing the track unresampled.
    InvalidCodecParameters,
    /// The chosen chunk size cannot drive the engine (zero frames, or
    /// more frames than this machine can address); fatal for the track.
    Construction,
}

/// Chunk size when the codec reports no packet size and is not MP3.
pub const DEFAULT_CHUNK_FRAMES: usize = 1024;

/// Chunk size assumed for MP3 when the codec reports no packet size.
pub const MP3_CHUNK_FRAMES: usize = 1152;

/// The input chunk width chosen for a codec: its reported maximum
/// packet size when known, else 1152 for MP3, else 1024.
pub open spec fn spec_chunk_frames(p: CodecParams) -> int {
    match p.max_frames_per_packet {
        Some(m) => m as int,
        None => if p.codec is Mp3 {
            MP3_CHUNK_FRAMES as int
        } else {
            DEFAULT_CHUNK_FRAMES as int
        },
    }
}

/// The samples of channel `c` across a sequence of planar chunks, in
/// arrival order.
pub open spec fn chunks_channel(chunks: Seq<Seq<Seq<u64>>>, c: int) -> Seq<u64>
    decreases chunks.len(),
{
    if chunks.len() == 0 {
        Seq::empty()
    } else {
        chunks[0][c] + chunks_channel(chunks.drop_first(), c)
    }
}

/// Appending a chunk appends its samples to every channel's stream.
pub proof fn lemma_chunks_channel_push(chunks: Seq<Seq<Seq<u64>>>, x: Seq<Seq<u64>>, c: int)
    ensures
        chunks_channel(chunks.push(x), c) == chunks_channel(chunks, c) + x[c],
    decreases chunks.len(),
{
    if chunks.len() == 0 {
        let pushed = chunks.push(x);
        assert(pushed.len() == 1);
        assert(pushed[0] == x);
        assert(pushed.drop_first() =~= Seq::<Seq<Seq<u64>>>::empty());
        assert(chunks_channel(pushed.drop_first(), c) =~= Seq::<u64>::empty());
        assert(chunks_channel(pushed, c) == pushed[0][c] + chunks_channel(pushed.drop_first(), c));
        assert(pushed[0][c] + chunks_channel(pushed.drop_first(), c) =~= x[c]);
        assert(chunks_channel(chunks, c) + x[c] =~= x[c]);
    } else {
        assert(chunks.push(x).drop_first() =~= chunks.drop_first().push(x));
        lemma_chunks_channel_push(chunks.drop_first(), x, c);
        assert(chunks[0][c] + (chunks_channel(chunks.drop_first(), c) + x[c])
            =~= (chunks[0][c] + chunks_channel(chunks.drop_first(), c)) + x[c]);
    }
}

/// The buffering shim: full chunks awaiting the engine, in arrival
/// order, plus the residual partial chunk still being filled.
pub struct BufferedResampler {
    channels: usize,
    chunk_frames: usize,
    complete: Vec<SampleBuf>,
    partial: SampleBuf,
}

impl BufferedResampler {
    pub closed spec fn spec_channels(self) -> nat {
        self.channels as nat
    }

    pub closed spec fn spec_chunk(self) -> nat {
        self.chunk_frames as nat
    }

    /// The full chunks, each as planar sample data, in arrival order.
    pub closed spec fn chunk_views(self) -> Seq<Seq<Seq<u64>>> {
        Seq::new(self.complete@.len(), |i: int| self.complete@[i]@)
    }

    /// The residual partial chunk as planar sample data.
    pub closed spec fn partial_view(self) -> Seq<Seq<u64>> {
        self.partial@
    }

    pub open spec fn chunk_count(self) -> nat {
        self.chunk_views().len()
    }

    pub open spec fn partial_frames(self) -> nat {
        spec_frames(self.partial_view())
    }

    /// One stored chunk is well formed: full channel set, equal channel
    /// lengths, exactly one chunk's worth of frames.
    pub open spec fn chunk_wf(self, ch: Seq<Seq<u64>>) -> bool {
        &&& ch.len() == self.spec_channels()
        &&& buf_wf(ch)
        &&& spec_frames(ch) == self.spec_chunk()
    }

    pub open spec fn wf(self) -> bool {
        &&& self.spec_chunk() >= 1
        &&& self.partial_view().len() == self.spec_channels()
        &&& buf_wf(self.partial_view())
        &&& self.partial_frames() < self.spec_chunk()
        &&& forall|i: int| 0 <= i < self.chunk_views().len()
            ==> self.chunk_wf(#[trigger] self.chunk_views()[i])
    }

    /// Everything waiting in the shim, per channel, in arrival order:
    /// the full chunks followed by the residual.
    pub open spec fn buffered(self) -> Seq<Seq<u64>> {
        Seq::new(self.spec_channels(),
            |c: int| chunks_channel(self.chunk_views(), c) + self.partial_view()[c])
    }

    /// Set up buffering for a codec: fails with
    /// `InvalidCodecParameters` when the codec reports no sample rate
    /// or no channel count, and with `Construction` when the chunk
    /// size cannot drive the engine.
    pub fn new(params: &CodecParams, output_sample_rate: u32) -> (r: Result<
        BufferedResampler,
        ResamplerError,
    >)
        ensures
            (r matches Err(e) && e is InvalidCodecParameters)
                <==> (params.sample_rate is None || params.channels is None),
            (r matches Err(e) && e is Construction)
                <==> (params.sample_rate is Some && params.channels is Some
                    && !(1 <= spec_chunk_frames(*params) <= usize::MAX)),
            r matches Ok(b) ==> {
                &&& b.wf()
                &&& b.spec_channels() == params.channels.unwrap()
                &&& b.spec_chunk() == spec_chunk_frames(*params)
                &&& b.chunk_count() == 0
                &&& b.partial_frames() == 0
                &&& forall|c: int| 0 <= c < b.buffered().len()
                    ==> (#[trigger] b.buffered()[c]).len() == 0
            },
    {
        // The output rate drives the engine's ratio, not the shim's
        // chunking; the shim only validates and buffers.
        let _ = output_sample_rate;
        if params.sample_rate.is_none() {
            return Err(ResamplerError::InvalidCodecParameters);
        }
        let chunk_frames: usize = match params.max_frames_per_packet {
            Some(m) => {
                if m > usize::MAX as u64 {
                    if params.channels.is_none() {
                        return Err(ResamplerError::InvalidCodecParameters);
                    }
                    return Err(ResamplerError::Construction);
                }
                m as usize
            },
            None => {
                match params.codec {
                    crate::track::CodecKind::Mp3 => MP3_CHUNK_FRAMES,
                    crate::track::CodecKind::Other => DEFAULT_CHUNK_FRAMES,
                }
            },
        };
        let channels: usize = match params.channels {
            Some(c) => c as usize,
            None => {
                return Err(ResamplerError::InvalidCodecParameters);
            },
        };
        if chunk_frames == 0 {
            return Err(ResamplerError::Construction);
        }
        let b = BufferedResampler {
            channels,
            chunk_frames,
            complete: Vec::new(),
            partial: SampleBuf::with_capacity(channels, chunk_frames),
        };
        proof {
            assert(b.chunk_views() =~= Seq::<Seq<Seq<u64>>>::empty());
            assert forall|c: int| 0 <= c < b.buffered().len()
                implies (#[trigger] b.buffered()[c]).len() == 0 by {
                assert(b.partial_view()[c].len() == 0);
            }
        }
        Ok(b)
    }

    pub fn channels(&self) -> (r: usize)
        ensures
            r == self.spec_channels(),
    {
        self.channels
    }

    pub fn chunk_frames(&self) -> (r: usize)
        ensures
            r == self.spec_chunk(),
    {
        self.chunk_frames
    }

    /// How many full chunks are ready for the engine.
    pub fn ready_chunks(&self) -> (r: usize)
        ensures
            r == self.chunk_count(),
    {
        self.complete.len()
    }

    /// How many frames sit in the residual partial chunk.
    pub fn residual_frames(&self) -> (r: usize)
        requires
            self.wf(),
        ensures
            r == self.partial_frames(),
    {
        self.partial.frames()
    }

    /// Append a packet's samples: the shim's per-channel streams grow
    /// by exactly the packet's samples, in order; full chunks are
    /// closed off as they fill; a zero-frame packet changes nothing.
    pub fn push(&mut self, input: &SampleBuf)
        requires
            old(self).wf(),
            input.wf(),
            input@.len() == old(self).spec_channels(),
        ensures
            final(self).wf(),
            final(self).spec_channels() == old(self).spec_channels(),
            final(self).spec_chunk() == old(self).spec_chunk(),
            forall|c: int| 0 <= c < final(self).buffered().len()
                ==> final(self).buffered()[c]
                    == old(self).buffered()[c] + input@[c],
            final(self).chunk_count() * final(self).spec_chunk() + final(self).partial_frames()
                == old(self).chunk_count() * old(self).spec_chunk() + old(self).partial_frames()
                    + spec_frames(input@),
            spec_frames(input@) == 0 ==> *final(self) == *old(self),
    {
        let frames = input.frames();
        let channels = self.channels;
        let mut f: usize = 0;
        while f < frames
            invariant
                self.wf(),
                self.channels == old(self).channels,
                self.chunk_frames == old(self).chunk_frames,
                channels == self.channels,
                f <= frames,
                frames == spec_frames(input@),
                input.wf(),
                input@.len() == self.spec_channels(),
                forall|c: int| 0 <= c < self.spec_channels()
                    ==> #[trigger] self.buffered()[c]
                        == old(self).buffered()[c] + input@[c].take(f as int),
                self.chunk_count() * self.spec_chunk() + self.partial_frames()
                    == old(self).chunk_count() * old(self).spec_chunk()
                        + old(self).partial_frames() + f,
                f > 0 || *self == *old(self),
            decreases frames - f,
        {
            let ghost pre = *self;
            let mut c: usize = 0;
            while c < channels
                invariant
                    c <= channels,
                    channels == self.channels,
                    pre.wf(),
                    input.wf(),
                    f < frames,
                    frames == spec_frames(input@),
                    input@.len() == channels,
                    self.channels == pre.channels,
                    self.chunk_frames == pre.chunk_frames,
                    self.complete == pre.complete,
                    self.partial@.len() == pre.partial@.len(),
                    forall|i: int| 0 <= i < c
                        ==> #[trigger] self.partial@[i]
                            == pre.partial@[i].push(input@[i][f as int]),
                    forall|i: int| c <= i < self.partial@.len()
                        ==> #[trigger] self.partial@[i] == pre.partial@[i],
                decreases channels - c,
            {
                proof {
                    assert(input@[c as int].len() == spec_frames(input@));
                }
                let v = match input.samples(c) {
                    Some(ch) => ch[f],
                    None => 0,
                };
                self.partial.push_sample(c, v);
                c = c + 1;
            }
            proof {
                assert(spec_frames(self.partial_view()) == pre.partial_frames() + 1) by {
                    assert(self.partial@[0] == pre.partial@[0].push(input@[0][f as int]));
                }
                assert(buf_wf(self.partial_view()));
                assert forall|cc: int| 0 <= cc < self.spec_channels()
                    implies #[trigger] self.buffered()[cc]
                        == old(self).buffered()[cc] + input@[cc].take(f + 1) by {
                    assert(self.chunk_views() =~= pre.chunk_views());
                    assert(chunks_channel(self.chunk_views(), cc)
                        == chunks_channel(pre.chunk_views(), cc));
                    assert(self.buffered()[cc]
                        =~= pre.buffered()[cc].push(input@[cc][f as int]));
                    assert(pre.buffered()[cc]
                        == old(self).buffered()[cc] + input@[cc].take(f as int));
                    assert((old(self).buffered()[cc] + input@[cc].take(f as int)).push(
                        input@[cc][f as int]) =~= old(self).buffered()[cc] + input@[cc].take(f + 1));
                }
            }
            if self.partial.frames() == self.chunk_frames {
                let ghost before = *self;
                let mut full = SampleBuf::with_capacity(channels, self.chunk_frames);
                core::mem::swap(&mut full, &mut self.partial);
                self.complete.push(full);
                proof {
                    assert(self.chunk_views() =~= before.chunk_views().push(full@));
                    assert forall|cc: int| 0 <= cc < self.spec_channels()
                        implies #[trigger] self.buffered()[cc] == before.buffered()[cc] by {
                        lemma_chunks_channel_push(before.chunk_views(), full@, cc);
                        assert(self.buffered()[cc]
                            =~= chunks_channel(before.chunk_views(), cc) + full@[cc]);
                        assert(before.buffered()[cc]
                            =~= chunks_channel(before.chunk_views(), cc) + full@[cc]);
                    }
                    assert(self.chunk_count() * self.spec_chunk()
                        == before.chunk_count() * before.spec_chunk() + before.spec_chunk())
                        by (nonlinear_arith)
                        requires
                            self.chunk_count() == before.chunk_count() + 1,
                            self.spec_chunk() == before.spec_chunk(),
                    ;
                }
            }
            f = f + 1;
        }
        proof {
            assert forall|c: int| 0 <= c < self.buffered().len()
                implies #[trigger] self.buffered()[c]
                    == old(self).buffered()[c] + input@[c] by {
                assert(input@[c].take(frames as int) =~= input@[c]) by {
                    assert(input@[c].len() == spec_frames(input@));
                }
            }
        }
    }

    /// Hand out the oldest full chunk, if one is ready: exactly the
    /// first `chunk_frames` frames of every channel's stream leave the
    /// shim; the residual is untouched.
    pub fn pop(&mut self) -> (r: Option<SampleBuf>)
        requires
            old(self).wf(),
        ensures
            final(self).wf(),
            final(self).spec_channels() == old(self).spec_channels(),
            final(self).spec_chunk() == old(self).spec_chunk(),
            old(self).chunk_count() == 0 ==> (r is None && *final(self) == *old(self)),
            old(self).chunk_count() > 0 ==> (r matches Some(chunk) && {
                &&& chunk@ == old(self).chunk_views()[0]
                &&& chunk@.len() == old(self).spec_channels()
                &&& buf_wf(chunk@)
                &&& spec_frames(chunk@) == old(self).spec_chunk()
                &&& final(self).chunk_count() == old(self).chunk_count() - 1
                &&& final(self).partial_view() == old(self).partial_view()
                &&& forall|c: int| 0 <= c < old(self).buffered().len()
                    ==> old(self).buffered()[c] == chunk@[c] + final(self).buffered()[c]
            }),
    {
        if self.complete.len() == 0 {
            None
        } else {
            let chunk = self.complete.remove(0);
            proof {
                assert(self.chunk_views() =~= old(self).chunk_views().drop_first());
                assert forall|c: int| 0 <= c < old(self).buffered().len()
                    implies old(self).buffered()[c] == chunk@[c] + self.buffered()[c] by {
                    assert(old(self).buffered()[c]
                        =~= chunk@[c] + (chunks_channel(old(self).chunk_views().drop_first(), c)
                            + old(self).partial_view()[c]));
                }
            }
            Some(chunk)
        }
    }

    /// Discard everything, residual included: called after a seek so
    /// samples from before and after the discontinuity never share a
    /// chunk.
    pub fn reset(&mut self)
        requires
            old(self).wf(),
        ensures
            final(self).wf(),
            final(self).spec_channels() == old(self).spec_channels(),
            final(self).spec_chunk() == old(self).spec_chunk(),
            final(self).chunk_count() == 0,
            final(self).partial_frames() == 0,
            forall|c: int| 0 <= c < final(self).buffered().len()
                ==> (#[trigger] final(self).buffered()[c]).len() == 0,
    {
        self.complete.clear();
        self.partial = SampleBuf::with_capacity(self.channels, self.chunk_frames);
        proof {
            assert(self.chunk_views() =~= Seq::<Seq<Seq<u64>>>::empty());
            assert forall|c: int| 0 <= c < self.buffered().len()
                implies (#[trigger] self.buffered()[c]).len() == 0 by {
                assert(self.partial_view()[c].len() == 0);
            }
        }
    }
}

} // verus!
