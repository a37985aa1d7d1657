//! The playback executor's decisions.
//!
//! The executor's outer loop (receiving queued tracks), its blocking
//! (condition variables, the bounded device queue) and its calls into
//! the demuxer and the sinc engine are front-end work; every decision
//! it takes on plain values is a verified function here: which
//! resampler a track gets, and how a decoded packet is routed to the
//! device.

use crate::buffer::{buf_wf, spec_frames, SampleBuf};
use crate::resampler::{
    chunks_channel, lemma_chunks_channel_push, spec_chunk_frames, BufferedResampler,
    ResamplerError,
};
use crate::track::CodecParams;
use vstd::prelude::*;

verus! {

/// The planar views of a sequence of sample buffers.
pub open spec fn bufs_views(s: Seq<SampleBuf>) -> Seq<Seq<Seq<u64>>> {
    Seq::new(s.len(), |i: int| s[i]@)
}

/// The executor's per-track resampler choice: none when the codec's
/// rate already matches the device (bypass), none when the codec
/// reports too little to resample (`InvalidCodecParameters` falls back
/// to bypass), a buffering shim otherwise; a chunk size the engine
/// cannot take is fatal for the track.
pub fn select_resampler(params: &CodecParams, output_sample_rate: u32) -> (r: Result<
    Option<BufferedResampler>,
    ResamplerError,
>)
    ensures
        r matches Ok(o) ==> ((o is None) <==> (params.sample_rate == Some(output_sample_rate)
            || params.sample_rate is None || params.channels is None)),
        r matches Ok(o) ==> o matches Some(b) ==> {
            &&& params.sample_rate is Some
            &&& params.sample_rate != Some(output_sample_rate)
            &&& params.channels is Some
            &&& b.wf()
            &&& b.spec_channels() == params.channels.unwrap()
            &&& b.spec_chunk() == spec_chunk_frames(*params)
            &&& b.chunk_count() == 0
            &&& b.partial_frames() == 0
        },
        r is Err <==> (params.sample_rate is Some
            && params.sample_rate != Some(output_sample_rate)
            && params.channels is Some
            && !(1 <= spec_chunk_frames(*params) <= usize::MAX)),
        r matches Err(e) ==> e is Construction,
    {
    let bypass = match params.sample_rate {
        Some(rate) => rate == output_sample_rate,
        None => false,
    };
    if bypass {
        return Ok(None);
    }
    match BufferedResampler::new(params, output_sample_rate) {
        Ok(resampler) => Ok(Some(resampler)),
        Err(ResamplerError::InvalidCodecParameters) => Ok(None),
        Err(e) => Err(e),
    }
}

/// Where a decoded packet's samples go.
pub enum PacketRoute {
    /// No resampler: the packet goes to the device unchanged.
    Direct(SampleBuf),
    /// Through the shim: the full chunks now ready for the engine, in
    /// order; the residual stays buffered.
    Chunks(Vec<SampleBuf>),
}

/// Route one decoded packet.  Without a resampler the route is the
/// identity: the very packet goes out, sample for sample.  With one,
/// the packet enters the shim and every chunk that became full leaves
/// it, in order; nothing is lost: the buffered samples plus the packet
/// equal the chunks handed out plus what stays buffered.
pub fn route_packet(resampler: &mut Option<BufferedResampler>, packet: SampleBuf) -> (r:
    PacketRoute)
    requires
        (*old(resampler)) matches Some(b) ==> {
            &&& b.wf()
            &&& packet.wf()
            &&& packet@.len() == b.spec_channels()
        },
    ensures
        (*old(resampler)) is None ==> (*final(resampler)) is None,
        (*old(resampler)) is None ==> (r matches PacketRoute::Direct(out) && out == packet),
        (*old(resampler)) matches Some(b0) ==> ((*final(resampler)) matches Some(b1)
            && r matches PacketRoute::Chunks(chunks) && {
            &&& b1.wf()
            &&& b1.spec_channels() == b0.spec_channels()
            &&& b1.spec_chunk() == b0.spec_chunk()
            &&& b1.chunk_count() == 0
            &&& forall|i: int| 0 <= i < chunks@.len() ==> {
                &&& (#[trigger] chunks@[i])@.len() == b0.spec_channels()
                &&& buf_wf(chunks@[i]@)
                &&& spec_frames(chunks@[i]@) == b0.spec_chunk()
            }
            &&& forall|c: int| 0 <= c < b0.spec_channels()
                ==> b0.buffered()[c] + packet@[c]
                    == chunks_channel(bufs_views(chunks@), c) + b1.buffered()[c]
        }),
{
    match resampler {
        None => PacketRoute::Direct(packet),
        Some(b) => {
            let ghost entry = *b;
            proof {
                assert(entry == (*old(resampler)).unwrap());
            }
            b.push(&packet);
            let ghost filled = *b;
            let mut chunks: Vec<SampleBuf> = Vec::new();
            proof {
                assert(bufs_views(chunks@) =~= Seq::<Seq<Seq<u64>>>::empty());
                assert forall|c: int| 0 <= c < filled.spec_channels()
                    implies filled.buffered()[c]
                        == chunks_channel(bufs_views(chunks@), c) + b.buffered()[c] by {
                    assert(chunks_channel(bufs_views(chunks@), c) + b.buffered()[c]
                        =~= b.buffered()[c]);
                }
            }
            #[verifier::loop_isolation(false)]
            while b.ready_chunks() > 0
                invariant
                    b.wf(),
                    b.spec_channels() == filled.spec_channels(),
                    b.spec_chunk() == filled.spec_chunk(),
                    forall|i: int| 0 <= i < chunks@.len() ==> {
                        &&& (#[trigger] chunks@[i])@.len() == filled.spec_channels()
                        &&& buf_wf(chunks@[i]@)
                        &&& spec_frames(chunks@[i]@) == filled.spec_chunk()
                    },
                    forall|c: int| 0 <= c < filled.spec_channels()
                        ==> filled.buffered()[c]
                            == chunks_channel(bufs_views(chunks@), c) + b.buffered()[c],
                decreases b.chunk_count(),
            {
                let ghost pre = *b;
                let ghost pre_chunks = chunks@;
                match b.pop() {
                    Some(chunk) => {
                        chunks.push(chunk);
                        proof {
                            assert(bufs_views(chunks@)
                                =~= bufs_views(pre_chunks).push(chunk@));
                            assert forall|c: int| 0 <= c < filled.spec_channels()
                                implies filled.buffered()[c]
                                    == chunks_channel(bufs_views(chunks@), c)
                                        + b.buffered()[c] by {
                                lemma_chunks_channel_push(bufs_views(pre_chunks), chunk@, c);
                                assert(pre.buffered()[c] == chunk@[c] + b.buffered()[c]);
                                assert((chunks_channel(bufs_views(pre_chunks), c) + chunk@[c])
                                    + b.buffered()[c]
                                    =~= chunks_channel(bufs_views(pre_chunks), c)
                                        + (chunk@[c] + b.buffered()[c]));
                            }
                        }
                    },
                    None => {},
                }
            }
            proof {
                assert forall|c: int| 0 <= c < filled.spec_channels()
                    implies (*old(resampler)).unwrap().buffered()[c] + packet@[c]
                        == chunks_channel(bufs_views(chunks@), c) + b.buffered()[c] by {
                    assert(filled.buffered()[c] == entry.buffered()[c] + packet@[c]);
                    assert(filled.buffered()[c]
                        == chunks_channel(bufs_views(chunks@), c) + b.buffered()[c]);
                }
            }
            PacketRoute::Chunks(chunks)
        },
    }
}

} // verus!
