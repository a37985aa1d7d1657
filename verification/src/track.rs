//! The decoded side of a track: the codec parameters the engine reads,
//! the per-packet bookkeeping (progress, one-packet look-ahead), and the
//! metadata snapshot shown to callers.
//!
//! The demuxer and decoder themselves live outside the library; they
//! hand over plain values (packet timestamps, planar samples, tags) and
//! everything decided from those values is verified here.

use crate::buffer::SampleBuf;
use crate::time::{TimeBase, Timestamp};
use vstd::prelude::*;

verus! {

/// The codec family, as far as the engine cares: MP3 packets default to
/// 1152 frames when the codec does not report a packet size.
#[derive(Clone, Copy, Debug, PartialEq, Eq, Structural)]
pub enum CodecKind {
    Mp3,
    Other,
}

/// The slice of a codec's parameters that the playback engine reads.
#[derive(Clone, Copy, Debug)]
pub struct CodecParams {
    pub sample_rate: Option<u32>,
    pub channels: Option<u32>,
    pub max_frames_per_packet: Option<u64>,
    pub codec: CodecKind,
    pub time_base: Option<TimeBase>,
    pub start_ts: u64,
    pub n_frames: Option<u64>,
}

impl CodecParams {
    /// Parameters are well formed when the time base, if present, is.
    pub open spec fn wf(self) -> bool {
        match self.time_base {
            Some(tb) => tb.wf(),
            None => true,
        }
    }
}

/// Errors surfaced by the verified side of a decoding track.
#[derive(Clone, Copy, Debug, PartialEq, Eq, Structural)]
pub enum DecoderError {
    /// The codec reports no time base, so ticks cannot become time.
    ProgressUnavailable,
}

/// One decoded packet: its starting timestamp in codec ticks, and its
/// samples in planar form.
pub struct PacketData {
    pub ts: u64,
    pub samples: SampleBuf,
}

/// What a metadata tag means to this library.
#[derive(Clone, Copy, Debug, PartialEq, Eq, Structural)]
pub enum TagKind {
    Title,
    Artist,
    Other,
}

/// One metadata tag: its standard meaning, and its value when the
/// value is textual (non-text values carry no text).
pub struct MetaTag {
    pub kind: TagKind,
    pub text: Option<String>,
}

/// What an attached picture is used for.
#[derive(Clone, Copy, Debug, PartialEq, Eq, Structural)]
pub enum VisualKind {
    FrontCover,
    Other,
}

/// One attached picture.
pub struct VisualInfo {
    pub kind: VisualKind,
    pub media_type: String,
    pub data: Vec<u8>,
}

/// One revision of metadata: its tags and pictures, in order.
pub struct MetadataSnapshot {
    pub tags: Vec<MetaTag>,
    pub visuals: Vec<VisualInfo>,
}

/// A tag's text as a mathematical value.
pub open spec fn opt_text(t: Option<String>) -> Option<Seq<char>> {
    match t {
        Some(s) => Some(s@),
        None => None,
    }
}

/// The text selected for `kind` after scanning `tags` in order,
/// starting from `init`: every matching tag overwrites the selection
/// with its own text (or clears it, for a non-text value), so the last
/// matching tag wins.
pub open spec fn spec_tag_scan(tags: Seq<MetaTag>, kind: TagKind, init: Option<Seq<char>>)
    -> Option<Seq<char>>
    decreases tags.len(),
{
    if tags.len() == 0 {
        init
    } else if tags.last().kind == kind {
        opt_text(tags.last().text)
    } else {
        spec_tag_scan(tags.drop_last(), kind, init)
    }
}

/// The first front-cover picture in `vs`, if any.
pub open spec fn spec_first_cover(vs: Seq<VisualInfo>) -> Option<VisualInfo>
    decreases vs.len(),
{
    if vs.len() == 0 {
        None
    } else if vs[0].kind is FrontCover {
        Some(vs[0])
    } else {
        spec_first_cover(vs.drop_first())
    }
}

/// Two pictures hold the same content.
pub open spec fn spec_visual_eq(a: VisualInfo, b: VisualInfo) -> bool {
    &&& a.kind == b.kind
    &&& a.media_type@ == b.media_type@
    &&& a.data@ == b.data@
}

/// A cover selection result matches a picked picture: both absent, or
/// both present with the same content.
pub open spec fn spec_cover_like(r: Option<VisualInfo>, picked: Option<VisualInfo>) -> bool {
    match picked {
        Some(v) => r matches Some(c) && spec_visual_eq(c, v),
        None => r is None,
    }
}

fn copy_bytes(src: &Vec<u8>) -> (r: Vec<u8>)
    ensures
        r@ == src@,
{
    let mut r: Vec<u8> = Vec::new();
    let mut i: usize = 0;
    while i < src.len()
        invariant
            i <= src@.len(),
            r@ == src@.take(i as int),
        decreases src@.len() - i,
    {
        let b = src[i];
        r.push(b);
        proof {
            assert(r@ =~= src@.take(i + 1));
        }
        i = i + 1;
    }
    proof {
        assert(src@.take(src@.len() as int) =~= src@);
    }
    r
}

impl VisualInfo {
    /// An independent copy with the same content.
    pub fn duplicate(&self) -> (r: VisualInfo)
        ensures
            spec_visual_eq(r, *self),
    {
        VisualInfo {
            kind: self.kind,
            media_type: self.media_type.clone(),
            data: copy_bytes(&self.data),
        }
    }
}

/// The metadata snapshot shown to callers: picked once when a file is
/// opened, never mutated afterwards.
pub struct TrackDetails {
    duration: Option<Timestamp>,
    title: Option<String>,
    artist: Option<String>,
    cover: Option<VisualInfo>,
}

impl TrackDetails {
    /// The selected title text, as a mathematical value.
    pub closed spec fn spec_title(self) -> Option<Seq<char>> {
        opt_text(self.title)
    }

    /// The selected artist text, as a mathematical value.
    pub closed spec fn spec_artist(self) -> Option<Seq<char>> {
        opt_text(self.artist)
    }

    pub closed spec fn spec_duration(self) -> Option<Timestamp> {
        self.duration
    }

    pub closed spec fn spec_cover(self) -> Option<VisualInfo> {
        self.cover
    }

    /// Read one metadata revision: the title and artist are each the
    /// last matching tag's text, the cover is the first front-cover
    /// picture; a single revision never carries a duration.
    pub fn read_metadata(metadata: &MetadataSnapshot) -> (r: TrackDetails)
        ensures
            r.spec_title() == spec_tag_scan(metadata.tags@, TagKind::Title, None),
            r.spec_artist() == spec_tag_scan(metadata.tags@, TagKind::Artist, None),
            spec_cover_like(r.spec_cover(), spec_first_cover(metadata.visuals@)),
            r.spec_duration() is None,
    {
        let cover = Self::find_cover(&metadata.visuals);
        let title = Self::scan_tags(&metadata.tags, TagKind::Title);
        let artist = Self::scan_tags(&metadata.tags, TagKind::Artist);
        TrackDetails { duration: None, title, artist, cover }
    }

    /// Scan all tags in order, keeping the last matching tag's text.
    fn scan_tags(tags: &Vec<MetaTag>, kind: TagKind) -> (r: Option<String>)
        ensures
            opt_text(r) == spec_tag_scan(tags@, kind, None),
    {
        let mut selected: Option<String> = None;
        let mut i: usize = 0;
        while i < tags.len()
            invariant
                i <= tags@.len(),
                opt_text(selected) == spec_tag_scan(tags@.take(i as int), kind, None),
            decreases tags@.len() - i,
        {
            let tag = &tags[i];
            if tag.kind == kind {
                selected = match &tag.text {
                    Some(s) => Some(s.clone()),
                    None => None,
                };
            }
            proof {
                let pre = tags@.take(i as int);
                let now = tags@.take(i + 1);
                assert(now.drop_last() =~= pre);
                assert(now.last() == tags@[i as int]);
            }
            i = i + 1;
        }
        proof {
            assert(tags@.take(tags@.len() as int) =~= tags@);
        }
        selected
    }

    /// Find the first front-cover picture and copy it out.
    fn find_cover(visuals: &Vec<VisualInfo>) -> (r: Option<VisualInfo>)
        ensures
            spec_cover_like(r, spec_first_cover(visuals@)),
    {
        let mut i: usize = 0;
        proof {
            assert(visuals@.skip(0) =~= visuals@);
        }
        while i < visuals.len()
            invariant
                i <= visuals@.len(),
                spec_first_cover(visuals@) == spec_first_cover(visuals@.skip(i as int)),
            decreases visuals@.len() - i,
        {
            let v = &visuals[i];
            proof {
                assert(visuals@.skip(i as int)[0] == visuals@[i as int]);
                assert(visuals@.skip(i as int).drop_first() =~= visuals@.skip(i + 1));
            }
            match v.kind {
                VisualKind::FrontCover => {
                    return Some(v.duplicate());
                },
                VisualKind::Other => {},
            }
            i = i + 1;
        }
        proof {
            assert(visuals@.skip(visuals@.len() as int) =~= Seq::<VisualInfo>::empty());
        }
        None
    }

    /// Gather a track's details when a file is opened.  Container
    /// metadata takes priority; the stream's revision only supplies a
    /// cover or title the container lacks.  The duration comes from the
    /// default track's codec parameters, when the codec reports both a
    /// time base and a frame count.
    pub fn new(
        container: Option<&MetadataSnapshot>,
        stream: Option<&MetadataSnapshot>,
        track_params: Option<&CodecParams>,
    ) -> (r: TrackDetails)
        requires
            track_params matches Some(p) ==> p.wf(),
        ensures
            r.spec_title() == {
                let ct = spec_opt_title(container);
                if ct is Some {
                    ct
                } else {
                    spec_opt_title(stream)
                }
            },
            r.spec_artist() == spec_opt_artist(container),
            ({
                let cc = spec_opt_cover(container);
                if cc is Some {
                    spec_cover_like(r.spec_cover(), cc)
                } else {
                    spec_cover_like(r.spec_cover(), spec_opt_cover(stream))
                }
            }),
            r.spec_duration() == spec_params_duration(track_params),
    {
        let mut details = match container {
            Some(m) => Self::read_metadata(m),
            None => TrackDetails { duration: None, title: None, artist: None, cover: None },
        };
        if let Some(m) = stream {
            let from_stream = Self::read_metadata(m);
            if details.cover.is_none() {
                details.cover = from_stream.cover;
            }
            if details.title.is_none() {
                details.title = from_stream.title;
            }
        }
        details.duration = match track_params {
            Some(p) => {
                match (p.time_base, p.n_frames) {
                    (Some(tb), Some(n_frames)) => Some(tb.calc_time(n_frames)),
                    _ => None,
                }
            },
            None => None,
        };
        details
    }

    pub fn duration(&self) -> (r: Option<&Timestamp>)
        ensures
            self.spec_duration() matches Some(d) ==> (r matches Some(t) && *t == d),
            self.spec_duration() is None ==> r is None,
    {
        self.duration.as_ref()
    }

    pub fn title(&self) -> (r: Option<&String>)
        ensures
            self.spec_title() matches Some(t) ==> (r matches Some(s) && s@ == t),
            self.spec_title() is None ==> r is None,
    {
        self.title.as_ref()
    }

    pub fn artist(&self) -> (r: Option<&String>)
        ensures
            self.spec_artist() matches Some(t) ==> (r matches Some(s) && s@ == t),
            self.spec_artist() is None ==> r is None,
    {
        self.artist.as_ref()
    }

    pub fn cover(&self) -> (r: Option<&VisualInfo>)
        ensures
            self.spec_cover() matches Some(v) ==> (r matches Some(c) && *c == v),
            self.spec_cover() is None ==> r is None,
    {
        self.cover.as_ref()
    }
}

/// The title selected from an optional metadata revision.
pub open spec fn spec_opt_title(m: Option<&MetadataSnapshot>) -> Option<Seq<char>> {
    match m {
        Some(s) => spec_tag_scan(s.tags@, TagKind::Title, None),
        None => None,
    }
}

/// The artist selected from an optional metadata revision.
pub open spec fn spec_opt_artist(m: Option<&MetadataSnapshot>) -> Option<Seq<char>> {
    match m {
        Some(s) => spec_tag_scan(s.tags@, TagKind::Artist, None),
        None => None,
    }
}

/// The cover selected from an optional metadata revision.
pub open spec fn spec_opt_cover(m: Option<&MetadataSnapshot>) -> Option<VisualInfo> {
    match m {
        Some(s) => spec_first_cover(s.visuals@),
        None => None,
    }
}

/// The duration derived from a track's codec parameters: the reported
/// frame count converted through the time base, when both are known.
pub open spec fn spec_params_duration(p: Option<&CodecParams>) -> Option<Timestamp> {
    match p {
        Some(cp) => match (cp.time_base, cp.n_frames) {
            (Some(tb), Some(n)) => Some(tb.spec_calc_time(n)),
            _ => None,
        },
        None => None,
    }
}

/// The playback-side bookkeeping of a decoding track: the codec
/// parameters, the current timestamp in codec ticks, and the
/// one-packet look-ahead kept across seeks so the reported position
/// reflects the packet about to play rather than the one just
/// consumed.  The demuxer and decoder live outside the library; the
/// front-end fetches and decodes packets and hands their plain values
/// to these transitions.
pub struct DecodedTrack {
    params: CodecParams,
    progress: u64,
    next_packet: Option<PacketData>,
}

impl DecodedTrack {
    pub closed spec fn spec_params(self) -> CodecParams {
        self.params
    }

    /// The current timestamp, in codec ticks.
    pub closed spec fn spec_progress(self) -> u64 {
        self.progress
    }

    /// The cached look-ahead packet, if a seek fetched one.
    pub closed spec fn spec_lookahead(self) -> Option<PacketData> {
        self.next_packet
    }

    pub open spec fn wf(self) -> bool {
        self.spec_params().wf()
    }

    /// Start tracking a freshly opened track: progress begins at the
    /// codec's reported start timestamp, with no look-ahead.
    pub fn new(params: CodecParams) -> (r: DecodedTrack)
        requires
            params.wf(),
        ensures
            r.wf(),
            r.spec_params() == params,
            r.spec_progress() == params.start_ts,
            r.spec_lookahead() is None,
    {
        let progress = params.start_ts;
        DecodedTrack { params, progress, next_packet: None }
    }

    pub fn codec_params(&self) -> (r: &CodecParams)
        ensures
            *r == self.spec_params(),
    {
        &self.params
    }

    /// The cache-take step of reading the next packet: when a seek left
    /// a look-ahead packet, it is the next packet — hand it out and
    /// move progress to it.  Otherwise nothing changes and the caller
    /// must fetch from the demuxer.
    pub fn take_lookahead(&mut self) -> (r: Option<PacketData>)
        ensures
            final(self).spec_params() == old(self).spec_params(),
            final(self).spec_lookahead() is None,
            old(self).spec_lookahead() matches Some(p) ==> (r matches Some(q) && q == p
                && final(self).spec_progress() == p.ts),
            old(self).spec_lookahead() is None ==> (r is None && *final(self) == *old(self)),
    {
        let taken = self.next_packet.take();
        match taken {
            Some(p) => {
                self.progress = p.ts;
                Some(p)
            },
            None => None,
        }
    }

    /// A fresh packet was fetched from the demuxer: progress moves to
    /// its starting timestamp.
    pub fn record_progress(&mut self, ts: u64)
        ensures
            final(self).spec_params() == old(self).spec_params(),
            final(self).spec_lookahead() == old(self).spec_lookahead(),
            final(self).spec_progress() == ts,
    {
        self.progress = ts;
    }

    /// The seek path's pre-fetch: cache the first packet read after the
    /// demuxer moved, so progress reflects the seek-adjusted position
    /// immediately and the next read returns this packet.
    pub fn cache_lookahead(&mut self, packet: PacketData)
        ensures
            final(self).spec_params() == old(self).spec_params(),
            final(self).spec_progress() == packet.ts,
            final(self).spec_lookahead() matches Some(p) && p == packet,
    {
        self.progress = packet.ts;
        self.next_packet = Some(packet);
    }

    /// The current position as wall-clock time, through the codec's
    /// time base; fails when the codec reports none.
    pub fn progress(&self) -> (r: Result<Timestamp, DecoderError>)
        requires
            self.wf(),
        ensures
            self.spec_params().time_base matches Some(tb)
                ==> r == Ok::<Timestamp, DecoderError>(tb.spec_calc_time(self.spec_progress())),
            self.spec_params().time_base is None
                ==> r == Err::<Timestamp, DecoderError>(DecoderError::ProgressUnavailable),
    {
        match self.params.time_base {
            Some(tb) => Ok(tb.calc_time(self.progress)),
            None => Err(DecoderError::ProgressUnavailable),
        }
    }
}

/// A track as handed to `queue`: the decoding-side bookkeeping plus
/// the metadata snapshot.
pub struct Track {
    pub decoded: DecodedTrack,
    pub details: TrackDetails,
}

impl Track {
    pub fn new(decoded: DecodedTrack, details: TrackDetails) -> (r: Track)
        ensures
            r.decoded == decoded,
            r.details == details,
    {
        Track { decoded, details }
    }

    pub fn details(&self) -> (r: &TrackDetails)
        ensures
            *r == self.details,
    {
        &self.details
    }
}

} // verus!

