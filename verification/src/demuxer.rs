//! The demuxer side: which streams of a container are opened, in which table
//! each is kept, where every demuxed packet goes, and how the streams are
//! wound down at the end of input.

use crate::err::CyanotypeError;
use std::collections::HashMap;
use vstd::std_specs::iter::IteratorSpec;
use vstd::prelude::*;

verus! {

broadcast use vstd::std_specs::hash::group_hash_axioms;

/// The kind of media that a stream of a container carries.
#[derive(Clone, Copy, Debug, PartialEq, Eq, Structural)]
pub enum MediaKind {
    Video,
    Audio,
    Subtitle,
    /// Any other kind: data, attachments, or a kind the backend does not know.
    Other,
}

/// The subtitle adapter that a subtitle stream is opened with.
#[derive(Clone, Copy, Debug, PartialEq, Eq, Structural)]
pub enum SubtitleCodec {
    /// SubStation Alpha, decoded by the `ssa` or `ass` decoder.
    Ssa,
    /// SubRip, decoded by the `srt` decoder.
    Srt,
    /// Any other decoder: the packets are passed through undecoded.
    Unknown,
}

/// Which table a stream is kept in, and for a subtitle stream its adapter.
#[derive(Clone, Copy, Debug, PartialEq, Eq, Structural)]
pub enum StreamRole {
    Video,
    Subtitle(SubtitleCodec),
    Data,
}

/// What the demuxer reports of one stream of the container.
#[derive(Clone, Debug)]
pub struct StreamDescriptor {
    pub media: MediaKind,
    /// The name of the decoder that can decode the stream, if there is one.
    pub decoder_name: Option<String>,
}

/// The adapter of a subtitle stream, by the name of its decoder.
pub open spec fn spec_subtitle_codec(name: Seq<char>) -> SubtitleCodec {
    if name == "ssa"@ || name == "ass"@ {
        SubtitleCodec::Ssa
    } else if name == "srt"@ {
        SubtitleCodec::Srt
    } else {
        SubtitleCodec::Unknown
    }
}

impl SubtitleCodec {
    /// The adapter for a subtitle stream whose decoder has the given name.
    pub fn from_decoder_name(name: &String) -> (codec: SubtitleCodec)
        ensures
            codec == spec_subtitle_codec(name@),
            codec == SubtitleCodec::Ssa <==> (name@ == "ssa"@ || name@ == "ass"@),
            codec == SubtitleCodec::Srt <==> name@ == "srt"@,
            codec == SubtitleCodec::Unknown <==> (name@ != "ssa"@ && name@ != "ass"@ && name@
                != "srt"@),
    {
        proof {
            law_subtitle_codec_by_name(name@);
        }
        if *name == "ssa".to_owned() || *name == "ass".to_owned() {
            SubtitleCodec::Ssa
        } else if *name == "srt".to_owned() {
            SubtitleCodec::Srt
        } else {
            SubtitleCodec::Unknown
        }
    }
}

/// The adapter of a subtitle stream is chosen by the exact name of its
/// decoder: SubStation Alpha for `ssa` and `ass`, SubRip for `srt`, and the
/// passthrough adapter for every other name.
pub proof fn law_subtitle_codec_by_name(name: Seq<char>)
    ensures
        spec_subtitle_codec(name) == SubtitleCodec::Ssa <==> (name == "ssa"@ || name == "ass"@),
        spec_subtitle_codec(name) == SubtitleCodec::Srt <==> name == "srt"@,
        spec_subtitle_codec(name) == SubtitleCodec::Unknown <==> (name != "ssa"@ && name != "ass"@
            && name != "srt"@),
{
    reveal_strlit("ssa");
    reveal_strlit("ass");
    reveal_strlit("srt");
    assert("ssa"@[1] != "srt"@[1]);
    assert("ass"@[1] != "srt"@[1]);
}

impl StreamDescriptor {
    /// The role of the stream: video streams are decoded, subtitle streams
    /// are opened with the adapter of their decoder (and not at all when no
    /// decoder is known), and every other stream is passed on as raw data.
    pub open spec fn role(&self) -> Option<StreamRole> {
        match self.media {
            MediaKind::Video => Some(StreamRole::Video),
            MediaKind::Subtitle => match self.decoder_name {
                Some(name) => Some(StreamRole::Subtitle(spec_subtitle_codec(name@))),
                None => None,
            },
            MediaKind::Audio | MediaKind::Other => Some(StreamRole::Data),
        }
    }

    /// Computes [`StreamDescriptor::role`].
    pub fn classify(&self) -> (role: Option<StreamRole>)
        ensures
            role == self.role(),
            self.media == MediaKind::Video ==> role == Some(StreamRole::Video),
            self.media == MediaKind::Audio ==> role == Some(StreamRole::Data),
            self.media == MediaKind::Other ==> role == Some(StreamRole::Data),
            self.media == MediaKind::Subtitle ==> (role is None <==> self.decoder_name is None),
            role matches Some(StreamRole::Subtitle(codec)) ==> self.media == MediaKind::Subtitle
                && (self.decoder_name matches Some(name) && (codec == SubtitleCodec::Srt
                <==> name@ == "srt"@) && (codec == SubtitleCodec::Ssa <==> (name@ == "ssa"@
                || name@ == "ass"@))),
    {
        proof {
            law_role_by_media(*self);
        }
        match self.media {
            MediaKind::Video => Some(StreamRole::Video),
            MediaKind::Subtitle => match &self.decoder_name {
                Some(name) => Some(StreamRole::Subtitle(SubtitleCodec::from_decoder_name(name))),
                None => None,
            },
            MediaKind::Audio | MediaKind::Other => Some(StreamRole::Data),
        }
    }
}

/// A stream's role follows from its media kind: every video stream is
/// decoded and every audio or other stream is raw data, whatever its decoder;
/// only a subtitle stream depends on its decoder, which must be known and
/// whose exact name picks the adapter.
pub proof fn law_role_by_media(d: StreamDescriptor)
    ensures
        d.media == MediaKind::Video ==> d.role() == Some(StreamRole::Video),
        d.media == MediaKind::Audio ==> d.role() == Some(StreamRole::Data),
        d.media == MediaKind::Other ==> d.role() == Some(StreamRole::Data),
        d.media == MediaKind::Subtitle ==> (d.role() is None <==> d.decoder_name is None),
        d.role() matches Some(StreamRole::Subtitle(codec)) ==> d.media == MediaKind::Subtitle && (
        d.decoder_name matches Some(name) && (codec == SubtitleCodec::Srt <==> name@ == "srt"@) && (
        codec == SubtitleCodec::Ssa <==> (name@ == "ssa"@ || name@ == "ass"@))),
{
    if let Some(name) = d.decoder_name {
        law_subtitle_codec_by_name(name@);
    }
}

/// The positions of the streams of `descs` that are opened as video streams.
pub open spec fn video_indices(descs: Seq<StreamDescriptor>) -> Set<usize> {
    Set::new(|i: usize| (i as int) < descs.len() && descs[i as int].role() == Some(StreamRole::Video))
}

/// The positions of the streams of `descs` that are opened as subtitle
/// streams.
pub open spec fn subtitle_indices(descs: Seq<StreamDescriptor>) -> Set<usize> {
    Set::new(
        |i: usize|
            (i as int) < descs.len() && descs[i as int].role() matches Some(StreamRole::Subtitle(_)),
    )
}

/// The positions of the streams of `descs` that are opened as data streams.
pub open spec fn data_indices(descs: Seq<StreamDescriptor>) -> Set<usize> {
    Set::new(|i: usize| (i as int) < descs.len() && descs[i as int].role() == Some(StreamRole::Data))
}

/// Adding one stream at the end of a container adds its position to the
/// positions of its role, and to no other.
proof fn lemma_indices_push(descs: Seq<StreamDescriptor>, d: StreamDescriptor)
    requires
        descs.len() < usize::MAX,
    ensures
        video_indices(descs.push(d)) == (if d.role() == Some(StreamRole::Video) {
            video_indices(descs).insert(descs.len() as usize)
        } else {
            video_indices(descs)
        }),
        subtitle_indices(descs.push(d)) == (if d.role() matches Some(StreamRole::Subtitle(_)) {
            subtitle_indices(descs).insert(descs.len() as usize)
        } else {
            subtitle_indices(descs)
        }),
        data_indices(descs.push(d)) == (if d.role() == Some(StreamRole::Data) {
            data_indices(descs).insert(descs.len() as usize)
        } else {
            data_indices(descs)
        }),
{
    let n = descs.len() as usize;
    let pushed = descs.push(d);
    assert forall|i: usize| (i as int) < descs.len() implies pushed[i as int] == descs[i as int] by {}
    assert(pushed[n as int] == d);
    if d.role() == Some(StreamRole::Video) {
        assert(video_indices(pushed) =~= video_indices(descs).insert(n));
    } else {
        assert(video_indices(pushed) =~= video_indices(descs));
    }
    if d.role() matches Some(StreamRole::Subtitle(_)) {
        assert(subtitle_indices(pushed) =~= subtitle_indices(descs).insert(n));
    } else {
        assert(subtitle_indices(pushed) =~= subtitle_indices(descs));
    }
    if d.role() == Some(StreamRole::Data) {
        assert(data_indices(pushed) =~= data_indices(descs).insert(n));
    } else {
        assert(data_indices(pushed) =~= data_indices(descs));
    }
}

/// A stream that has been opened, tagged with the table it belongs in.
pub enum BuiltStream<V, S, D> {
    Video(V),
    Subtitle(S),
    Data(D),
}

/// The stream at `index`, of the given role, was opened into `t`: the
/// value that `t` keeps there is one that the opener of that role may return
/// for it (for a subtitle stream, when asked for the adapter of the role).
pub open spec fn opened_into<V, S, D, FV, FS, FD>(
    open_video: FV,
    open_subtitle: FS,
    open_data: FD,
    role: Option<StreamRole>,
    index: usize,
    t: StreamTable<V, S, D>,
) -> bool where
    FV: Fn(usize) -> Result<V, CyanotypeError>,
    FS: Fn(usize, SubtitleCodec) -> Result<S, CyanotypeError>,
    FD: Fn(usize) -> Result<D, CyanotypeError>,
 {
    match role {
        Some(StreamRole::Video) => open_video.ensures((index,), Ok(t.video_streams@[index])),
        Some(StreamRole::Subtitle(codec)) => open_subtitle.ensures(
            (index, codec),
            Ok(t.subtitle_streams@[index]),
        ),
        Some(StreamRole::Data) => open_data.ensures((index,), Ok(t.data_streams@[index])),
        None => true,
    }
}

/// Opening the stream at `index`, of the given role, may succeed: a stream
/// with no role is not opened, and one with a role has a value that its
/// opener may return.
pub open spec fn opening_succeeds<V, S, D, FV, FS, FD>(
    open_video: FV,
    open_subtitle: FS,
    open_data: FD,
    role: Option<StreamRole>,
    index: usize,
) -> bool where
    FV: Fn(usize) -> Result<V, CyanotypeError>,
    FS: Fn(usize, SubtitleCodec) -> Result<S, CyanotypeError>,
    FD: Fn(usize) -> Result<D, CyanotypeError>,
 {
    match role {
        Some(StreamRole::Video) => exists|v: V| open_video.ensures((index,), Ok(v)),
        Some(StreamRole::Subtitle(codec)) => exists|s: S| open_subtitle.ensures((index, codec), Ok(s)),
        Some(StreamRole::Data) => exists|d: D| open_data.ensures((index,), Ok(d)),
        None => true,
    }
}

/// Opening the stream at `index`, of the given role, may fail with `e`: the
/// opener of that role may return `e` for it. A stream with no role is not
/// opened and does not fail.
pub open spec fn opening_fails<V, S, D, FV, FS, FD>(
    open_video: FV,
    open_subtitle: FS,
    open_data: FD,
    role: Option<StreamRole>,
    index: usize,
    e: CyanotypeError,
) -> bool where
    FV: Fn(usize) -> Result<V, CyanotypeError>,
    FS: Fn(usize, SubtitleCodec) -> Result<S, CyanotypeError>,
    FD: Fn(usize) -> Result<D, CyanotypeError>,
 {
    match role {
        Some(StreamRole::Video) => open_video.ensures((index,), Err(e)),
        Some(StreamRole::Subtitle(codec)) => open_subtitle.ensures((index, codec), Err(e)),
        Some(StreamRole::Data) => open_data.ensures((index,), Err(e)),
        None => false,
    }
}

/// Where a demuxed packet goes.
#[derive(Clone, Copy, Debug, PartialEq, Eq, Structural)]
pub enum PacketRoute {
    /// To the video stream of the packet's index, which then decodes.
    Video,
    Subtitle,
    Data,
    /// Nowhere: no stream of the packet's index was opened.
    Discard,
}

/// One step of handling a demuxed packet.
#[derive(Clone, Copy, Debug, PartialEq, Eq, Structural)]
pub enum PacketStep {
    /// Push the packet to the decoder of the video stream at this position.
    PushVideo(usize),
    /// Hand on every frame the decoder of the video stream at this position
    /// can give now.
    RunVideo(usize),
    /// Push the packet to the subtitle stream at this position.
    PushSubtitle(usize),
    /// Push the packet to the data stream at this position.
    PushData(usize),
}

/// One step of winding down the streams at the end of input.
#[derive(Clone, Copy, Debug, PartialEq, Eq, Structural)]
pub enum ShutdownStep {
    /// Flush the decoder of the video stream at this position, hand on the
    /// frames it still holds, then close its channel.
    FinishVideo(usize),
    /// Close the channel of the subtitle stream at this position.
    CloseSubtitle(usize),
    /// Close the channel of the data stream at this position.
    CloseData(usize),
}

/// The positions that are keys of `m`, each once, in the order in which
/// the map hands them out.
fn listed_keys<V>(m: &HashMap<usize, V>) -> (keys: Vec<usize>)
    ensures
        keys@.to_set() == m@.dom(),
        keys@.no_duplicates(),
        keys@.len() == m@.dom().len(),
{
    let mut keys: Vec<usize> = Vec::new();
    let ghost listing = vstd::std_specs::hash::spec_keys_iter(m).remaining();
    for k in it: m.keys()
        invariant
            it.seq() == listing,
            keys@ == it.seq().take(it.index()).unref(),
    {
        keys.push(*k);
        proof {
            assert(it.seq().take(it.index() + 1).unref() =~= it.seq().take(it.index()).unref().push(*it.seq()[it.index()]));
        }
    }
    assert(keys@ =~= listing.unref());
    keys
}

/// One `FinishVideo` step per listed position, in order.
pub open spec fn video_steps(keys: Seq<usize>) -> Seq<ShutdownStep> {
    keys.map_values(|k: usize| ShutdownStep::FinishVideo(k))
}

/// One `CloseSubtitle` step per listed position, in order.
pub open spec fn subtitle_steps(keys: Seq<usize>) -> Seq<ShutdownStep> {
    keys.map_values(|k: usize| ShutdownStep::CloseSubtitle(k))
}

/// One `CloseData` step per listed position, in order.
pub open spec fn data_steps(keys: Seq<usize>) -> Seq<ShutdownStep> {
    keys.map_values(|k: usize| ShutdownStep::CloseData(k))
}

/// The opened streams of a container, each keyed by its position in the
/// container.
pub struct StreamTable<V, S, D> {
    /// The video streams.
    pub video_streams: HashMap<usize, V>,
    /// The subtitle streams.
    pub subtitle_streams: HashMap<usize, S>,
    /// The raw data streams.
    pub data_streams: HashMap<usize, D>,
}

impl<V, S, D> StreamTable<V, S, D> {
    /// The table holds exactly the streams that opening every stream of
    /// `descs` by its role gives.
    pub open spec fn is_built_from(&self, descs: Seq<StreamDescriptor>) -> bool {
        &&& self.video_streams@.dom() == video_indices(descs)
        &&& self.subtitle_streams@.dom() == subtitle_indices(descs)
        &&& self.data_streams@.dom() == data_indices(descs)
    }

    /// Where a packet of the stream at `index` goes: to a video stream of
    /// that index first, then to a subtitle stream, then to a data stream.
    pub open spec fn spec_route(&self, index: usize) -> PacketRoute {
        if self.video_streams@.contains_key(index) {
            PacketRoute::Video
        } else if self.subtitle_streams@.contains_key(index) {
            PacketRoute::Subtitle
        } else if self.data_streams@.contains_key(index) {
            PacketRoute::Data
        } else {
            PacketRoute::Discard
        }
    }

    /// A table with no stream.
    pub fn new() -> (t: Self)
        ensures
            t.video_streams@ == Map::<usize, V>::empty(),
            t.subtitle_streams@ == Map::<usize, S>::empty(),
            t.data_streams@ == Map::<usize, D>::empty(),
    {
        StreamTable {
            video_streams: HashMap::new(),
            subtitle_streams: HashMap::new(),
            data_streams: HashMap::new(),
        }
    }

    /// Keeps an opened stream at `index` in the table of its kind, in place
    /// of any stream of that kind that was there; the other tables stay as
    /// they were.
    pub fn insert(&mut self, index: usize, stream: BuiltStream<V, S, D>)
        ensures
            match stream {
                BuiltStream::Video(v) => {
                    &&& final(self).video_streams@ == old(self).video_streams@.insert(index, v)
                    &&& final(self).subtitle_streams@ == old(self).subtitle_streams@
                    &&& final(self).data_streams@ == old(self).data_streams@
                },
                BuiltStream::Subtitle(s) => {
                    &&& final(self).video_streams@ == old(self).video_streams@
                    &&& final(self).subtitle_streams@ == old(self).subtitle_streams@.insert(
                        index,
                        s,
                    )
                    &&& final(self).data_streams@ == old(self).data_streams@
                },
                BuiltStream::Data(d) => {
                    &&& final(self).video_streams@ == old(self).video_streams@
                    &&& final(self).subtitle_streams@ == old(self).subtitle_streams@
                    &&& final(self).data_streams@ == old(self).data_streams@.insert(index, d)
                },
            },
    {
        match stream {
            BuiltStream::Video(v) => {
                self.video_streams.insert(index, v);
            },
            BuiltStream::Subtitle(s) => {
                self.subtitle_streams.insert(index, s);
            },
            BuiltStream::Data(d) => {
                self.data_streams.insert(index, d);
            },
        }
    }

    /// The video stream at `index`, if one was opened there.
    pub fn video(&self, index: usize) -> (s: Option<&V>)
        ensures
            match s {
                Some(v) => self.video_streams@.contains_key(index) && *v == self.video_streams@[index],
                None => !self.video_streams@.contains_key(index),
            },
    {
        self.video_streams.get(&index)
    }

    /// The subtitle stream at `index`, if one was opened there.
    pub fn subtitle(&self, index: usize) -> (s: Option<&S>)
        ensures
            match s {
                Some(v) => self.subtitle_streams@.contains_key(index) && *v
                    == self.subtitle_streams@[index],
                None => !self.subtitle_streams@.contains_key(index),
            },
    {
        self.subtitle_streams.get(&index)
    }

    /// The data stream at `index`, if one was opened there.
    pub fn data(&self, index: usize) -> (s: Option<&D>)
        ensures
            match s {
                Some(v) => self.data_streams@.contains_key(index) && *v == self.data_streams@[index],
                None => !self.data_streams@.contains_key(index),
            },
    {
        self.data_streams.get(&index)
    }

    /// Opens every stream of `descs` that has a role, in the order of the
    /// container, and keeps each in the table of its role under its position:
    /// a video stream through `open_video`, a subtitle stream through
    /// `open_subtitle` with the adapter of its decoder, and any other stream
    /// through `open_data`.
    ///
    /// The first stream that fails to open ends the work with its error,
    /// unchanged; the table is returned when every opening succeeded.
    pub fn build<FV, FS, FD>(
        descs: &Vec<StreamDescriptor>,
        open_video: FV,
        open_subtitle: FS,
        open_data: FD,
    ) -> (r: Result<Self, CyanotypeError>) where
        FV: Fn(usize) -> Result<V, CyanotypeError>,
        FS: Fn(usize, SubtitleCodec) -> Result<S, CyanotypeError>,
        FD: Fn(usize) -> Result<D, CyanotypeError>,

        requires
            forall|i: usize| open_video.requires((i,)),
            forall|i: usize, c: SubtitleCodec| open_subtitle.requires((i, c)),
            forall|i: usize| open_data.requires((i,)),
        ensures
            r matches Ok(t) ==> {
                &&& t.is_built_from(descs@)
                &&& forall|j: usize|
                    (j as int) < descs@.len() ==> opened_into(
                        open_video,
                        open_subtitle,
                        open_data,
                        descs@[j as int].role(),
                        j,
                        t,
                    )
            },
            r matches Err(e) ==> exists|k: usize|
                {
                    &&& (k as int) < descs@.len()
                    &&& opening_fails(
                        open_video,
                        open_subtitle,
                        open_data,
                        #[trigger] descs@[k as int].role(),
                        k,
                        e,
                    )
                    &&& forall|j: usize|
                        j < k ==> opening_succeeds(
                            open_video,
                            open_subtitle,
                            open_data,
                            descs@[j as int].role(),
                            j,
                        )
                },
            (forall|j: usize, e: CyanotypeError|
                (j as int) < descs@.len() ==> !(#[trigger] opening_fails(
                    open_video,
                    open_subtitle,
                    open_data,
                    descs@[j as int].role(),
                    j,
                    e,
                ))) ==> r is Ok,
    {
        let mut table: Self = StreamTable::new();
        let mut i: usize = 0;
        assert(video_indices(descs@.take(0)) =~= Set::empty());
        assert(subtitle_indices(descs@.take(0)) =~= Set::empty());
        assert(data_indices(descs@.take(0)) =~= Set::empty());
        while i < descs.len()
            invariant
                i <= descs.len(),
                forall|i: usize| open_video.requires((i,)),
                forall|i: usize, c: SubtitleCodec| open_subtitle.requires((i, c)),
                forall|i: usize| open_data.requires((i,)),
                table.is_built_from(descs@.take(i as int)),
                forall|j: usize|
                    j < i ==> opened_into(
                        open_video,
                        open_subtitle,
                        open_data,
                        descs@[j as int].role(),
                        j,
                        table,
                    ),
            decreases descs.len() - i,
        {
            let ghost before = table;
            proof {
                assert forall|j: usize| j < i implies opening_succeeds(
                    open_video,
                    open_subtitle,
                    open_data,
                    descs@[j as int].role(),
                    j,
                ) by {
                    assert(opened_into(
                        open_video,
                        open_subtitle,
                        open_data,
                        descs@[j as int].role(),
                        j,
                        before,
                    ));
                    match descs@[j as int].role() {
                        Some(StreamRole::Video) => {
                            let v = before.video_streams@[j];
                            assert(open_video.ensures((j,), Ok(v)));
                        },
                        Some(StreamRole::Subtitle(codec)) => {
                            let s = before.subtitle_streams@[j];
                            assert(open_subtitle.ensures((j, codec), Ok(s)));
                        },
                        Some(StreamRole::Data) => {
                            let d = before.data_streams@[j];
                            assert(open_data.ensures((j,), Ok(d)));
                        },
                        None => {},
                    }
                }
            }
            let role = descs[i].classify();
            match role {
                Some(StreamRole::Video) => match open_video(i) {
                    Ok(v) => table.insert(i, BuiltStream::Video(v)),
                    Err(e) => {
                        assert(opening_fails(open_video, open_subtitle, open_data, descs@[i as int].role(), i, e));
                        return Err(e);
                    },
                },
                Some(StreamRole::Subtitle(codec)) => match open_subtitle(i, codec) {
                    Ok(s) => table.insert(i, BuiltStream::Subtitle(s)),
                    Err(e) => {
                        assert(opening_fails(open_video, open_subtitle, open_data, descs@[i as int].role(), i, e));
                        return Err(e);
                    },
                },
                Some(StreamRole::Data) => match open_data(i) {
                    Ok(d) => table.insert(i, BuiltStream::Data(d)),
                    Err(e) => {
                        assert(opening_fails(open_video, open_subtitle, open_data, descs@[i as int].role(), i, e));
                        return Err(e);
                    },
                },
                None => {},
            }
            proof {
                assert forall|j: usize| j < i + 1 implies opened_into(
                    open_video,
                    open_subtitle,
                    open_data,
                    descs@[j as int].role(),
                    j,
                    table,
                ) by {
                    if j < i {
                        assert(opened_into(
                            open_video,
                            open_subtitle,
                            open_data,
                            descs@[j as int].role(),
                            j,
                            before,
                        ));
                    }
                }
                assert(descs@.take(i + 1) =~= descs@.take(i as int).push(descs@[i as int]));
                lemma_indices_push(descs@.take(i as int), descs@[i as int]);
            }
            i = i + 1;
        }
        assert(descs@.take(descs.len() as int) =~= descs@);
        Ok(table)
    }

    /// `steps` winds down every stream of the table exactly once: first each
    /// video stream (flushed, drained and closed), then each subtitle stream,
    /// then each data stream. Within each kind the order is left open.
    pub open spec fn is_shutdown_plan(&self, steps: Seq<ShutdownStep>) -> bool {
        let nv = self.video_streams@.dom().len() as int;
        let ns = self.subtitle_streams@.dom().len() as int;
        let nd = self.data_streams@.dom().len() as int;
        &&& steps.len() == nv + ns + nd
        &&& forall|i: int|
            0 <= i < nv ==> (#[trigger] steps[i] matches ShutdownStep::FinishVideo(k)
                && self.video_streams@.contains_key(k))
        &&& forall|i: int|
            nv <= i < nv + ns ==> (#[trigger] steps[i] matches ShutdownStep::CloseSubtitle(k)
                && self.subtitle_streams@.contains_key(k))
        &&& forall|i: int|
            nv + ns <= i < steps.len() ==> (#[trigger] steps[i] matches ShutdownStep::CloseData(k)
                && self.data_streams@.contains_key(k))
        &&& forall|k: usize|
            #[trigger] self.video_streams@.contains_key(k) ==> steps.contains(
                ShutdownStep::FinishVideo(k),
            )
        &&& forall|k: usize|
            #[trigger] self.subtitle_streams@.contains_key(k) ==> steps.contains(
                ShutdownStep::CloseSubtitle(k),
            )
        &&& forall|k: usize|
            #[trigger] self.data_streams@.contains_key(k) ==> steps.contains(
                ShutdownStep::CloseData(k),
            )
        &&& steps.no_duplicates()
    }

    /// The steps that wind down the table's streams once the input has ended,
    /// as [`StreamTable::is_shutdown_plan`] says.
    pub fn shutdown_steps(&self) -> (steps: Vec<ShutdownStep>)
        ensures
            self.is_shutdown_plan(steps@),
    {
        let video_keys = listed_keys(&self.video_streams);
        let subtitle_keys = listed_keys(&self.subtitle_streams);
        let data_keys = listed_keys(&self.data_streams);
        let mut steps: Vec<ShutdownStep> = Vec::new();
        for i in 0..video_keys.len()
            invariant
                steps@ =~= video_steps(video_keys@.take(i as int)),
        {
            steps.push(ShutdownStep::FinishVideo(video_keys[i]));
            assert(video_keys@.take(i + 1) =~= video_keys@.take(i as int).push(video_keys@[i as int]));
        }
        assert(video_keys@.take(video_keys@.len() as int) =~= video_keys@);
        let ghost after_video = steps@;
        for i in 0..subtitle_keys.len()
            invariant
                steps@ =~= after_video + subtitle_steps(subtitle_keys@.take(i as int)),
        {
            steps.push(ShutdownStep::CloseSubtitle(subtitle_keys[i]));
            assert(subtitle_keys@.take(i + 1) =~= subtitle_keys@.take(i as int).push(
                subtitle_keys@[i as int],
            ));
        }
        assert(subtitle_keys@.take(subtitle_keys@.len() as int) =~= subtitle_keys@);
        let ghost after_subtitles = steps@;
        for i in 0..data_keys.len()
            invariant
                steps@ =~= after_subtitles + data_steps(data_keys@.take(i as int)),
        {
            steps.push(ShutdownStep::CloseData(data_keys[i]));
            assert(data_keys@.take(i + 1) =~= data_keys@.take(i as int).push(data_keys@[i as int]));
        }
        assert(data_keys@.take(data_keys@.len() as int) =~= data_keys@);
        proof {
            lemma_listed_steps(self, video_keys@, subtitle_keys@, data_keys@);
        }
        steps
    }

    /// The steps that handle a demuxed packet of the stream at `index`, in
    /// order: a video stream is pushed the packet and then decodes what it
    /// can; a subtitle or data stream is pushed the packet; a packet of no
    /// opened stream is dropped. The caller stops at the first step that
    /// fails.
    pub fn packet_steps(&self, index: usize) -> (steps: Vec<PacketStep>)
        ensures
            steps@ == match self.spec_route(index) {
                PacketRoute::Video => seq![PacketStep::PushVideo(index), PacketStep::RunVideo(index)],
                PacketRoute::Subtitle => seq![PacketStep::PushSubtitle(index)],
                PacketRoute::Data => seq![PacketStep::PushData(index)],
                PacketRoute::Discard => Seq::<PacketStep>::empty(),
            },
    {
        let mut steps: Vec<PacketStep> = Vec::new();
        match self.route(index) {
            PacketRoute::Video => {
                steps.push(PacketStep::PushVideo(index));
                steps.push(PacketStep::RunVideo(index));
            },
            PacketRoute::Subtitle => steps.push(PacketStep::PushSubtitle(index)),
            PacketRoute::Data => steps.push(PacketStep::PushData(index)),
            PacketRoute::Discard => {},
        }
        steps
    }

    /// Where a demuxed packet of the stream at `index` goes.
    pub fn route(&self, index: usize) -> (r: PacketRoute)
        ensures
            r == self.spec_route(index),
    {
        if self.video_streams.contains_key(&index) {
            PacketRoute::Video
        } else if self.subtitle_streams.contains_key(&index) {
            PacketRoute::Subtitle
        } else if self.data_streams.contains_key(&index) {
            PacketRoute::Data
        } else {
            PacketRoute::Discard
        }
    }
}

/// Listing the keys of each table, video first, then subtitle, then data,
/// gives a shutdown plan of the table.
proof fn lemma_listed_steps<V, S, D>(
    table: &StreamTable<V, S, D>,
    vk: Seq<usize>,
    sk: Seq<usize>,
    dk: Seq<usize>,
)
    requires
        vk.to_set() == table.video_streams@.dom(),
        vk.no_duplicates(),
        vk.len() == table.video_streams@.dom().len(),
        sk.to_set() == table.subtitle_streams@.dom(),
        sk.no_duplicates(),
        sk.len() == table.subtitle_streams@.dom().len(),
        dk.to_set() == table.data_streams@.dom(),
        dk.no_duplicates(),
        dk.len() == table.data_streams@.dom().len(),
    ensures
        table.is_shutdown_plan(video_steps(vk) + subtitle_steps(sk) + data_steps(dk)),
{
    let steps = video_steps(vk) + subtitle_steps(sk) + data_steps(dk);
    let nv = vk.len() as int;
    let ns = sk.len() as int;
    assert forall|i: int| 0 <= i < nv implies steps[i] == ShutdownStep::FinishVideo(vk[i]) by {}
    assert forall|i: int| nv <= i < nv + ns implies steps[i] == ShutdownStep::CloseSubtitle(
        sk[i - nv],
    ) by {}
    assert forall|i: int| nv + ns <= i < steps.len() implies steps[i] == ShutdownStep::CloseData(
        dk[i - nv - ns],
    ) by {}
    assert forall|i: int| 0 <= i < nv implies (#[trigger] steps[i] matches ShutdownStep::FinishVideo(
        k,
    ) && table.video_streams@.contains_key(k)) by {
        assert(vk.contains(vk[i]));
        assert(vk.to_set().contains(vk[i]));
    }
    assert forall|i: int| nv <= i < nv + ns implies (#[trigger] steps[i] matches ShutdownStep::CloseSubtitle(
        k,
    ) && table.subtitle_streams@.contains_key(k)) by {
        assert(sk.contains(sk[i - nv]));
        assert(sk.to_set().contains(sk[i - nv]));
    }
    assert forall|i: int| nv + ns <= i < steps.len() implies (#[trigger] steps[i] matches ShutdownStep::CloseData(
        k,
    ) && table.data_streams@.contains_key(k)) by {
        assert(dk.contains(dk[i - nv - ns]));
        assert(dk.to_set().contains(dk[i - nv - ns]));
    }
    assert forall|k: usize| #[trigger] table.video_streams@.contains_key(k) implies steps.contains(
        ShutdownStep::FinishVideo(k),
    ) by {
        assert(vk.to_set().contains(k));
        let j = choose|j: int| 0 <= j < vk.len() && vk[j] == k;
        assert(steps[j] == ShutdownStep::FinishVideo(k));
    }
    assert forall|k: usize| #[trigger] table.subtitle_streams@.contains_key(k) implies steps.contains(
        ShutdownStep::CloseSubtitle(k),
    ) by {
        assert(sk.to_set().contains(k));
        let j = choose|j: int| 0 <= j < sk.len() && sk[j] == k;
        assert(steps[nv + j] == ShutdownStep::CloseSubtitle(k));
    }
    assert forall|k: usize| #[trigger] table.data_streams@.contains_key(k) implies steps.contains(
        ShutdownStep::CloseData(k),
    ) by {
        assert(dk.to_set().contains(k));
        let j = choose|j: int| 0 <= j < dk.len() && dk[j] == k;
        assert(steps[nv + ns + j] == ShutdownStep::CloseData(k));
    }
    assert forall|i: int, j: int| 0 <= i < steps.len() && 0 <= j < steps.len() && i != j implies steps[i]
        != steps[j] by {
        if i < nv && j < nv {
            assert(vk[i] != vk[j]);
        } else if nv <= i < nv + ns && nv <= j < nv + ns {
            assert(sk[i - nv] != sk[j - nv]);
        } else if nv + ns <= i && nv + ns <= j {
            assert(dk[i - nv - ns] != dk[j - nv - ns]);
        }
    }
}

/// Where the packets of a stream of the given role go.
pub open spec fn route_of_role(role: Option<StreamRole>) -> PacketRoute {
    match role {
        Some(StreamRole::Video) => PacketRoute::Video,
        Some(StreamRole::Subtitle(_)) => PacketRoute::Subtitle,
        Some(StreamRole::Data) => PacketRoute::Data,
        None => PacketRoute::Discard,
    }
}

/// No stream of a container is opened in two tables: the positions of the
/// video, subtitle and data streams are pairwise disjoint.
pub proof fn law_roles_are_exclusive(descs: Seq<StreamDescriptor>)
    ensures
        video_indices(descs).disjoint(subtitle_indices(descs)),
        video_indices(descs).disjoint(data_indices(descs)),
        subtitle_indices(descs).disjoint(data_indices(descs)),
{
}

/// In a table built from a container, every packet goes to the stream of its
/// own position, in the table of that stream's role; packets of a subtitle
/// stream with no known decoder, and packets whose position is past the last
/// stream, go nowhere.
pub proof fn law_packets_follow_roles<V, S, D>(
    table: StreamTable<V, S, D>,
    descs: Seq<StreamDescriptor>,
    index: usize,
)
    requires
        table.is_built_from(descs),
    ensures
        table.spec_route(index) == (if (index as int) < descs.len() {
            route_of_role(descs[index as int].role())
        } else {
            PacketRoute::Discard
        }),
{
    assert(video_indices(descs).contains(index) == ((index as int) < descs.len()
        && descs[index as int].role() == Some(StreamRole::Video)));
    assert(subtitle_indices(descs).contains(index) == ((index as int) < descs.len()
        && descs[index as int].role() matches Some(StreamRole::Subtitle(_))));
    assert(data_indices(descs).contains(index) == ((index as int) < descs.len()
        && descs[index as int].role() == Some(StreamRole::Data)));
}

} // verus!
