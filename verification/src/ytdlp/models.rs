//! Media and stream metadata read from yt-dlp's JSON (`yt-dlp -J`).
use vstd::prelude::*;
use vstd::string::*;
use crate::json::{JsonNumber, JsonValue, as_array_opt, as_i64_opt, as_number_opt, as_str_opt, as_u64_opt, deref_opt, first_of, i64_in, json_get, number_in, or_else, str_in, u64_in};
use crate::text::{contains_seq, contains_str, decimal, i64_to_decimal, int_decimal, pad2, u64_to_decimal, u64_to_pad2};

verus! {

/// One thumbnail image offered for a media item.
#[derive(Debug, Clone, Default)]
pub struct ThumbnailInfo {
    pub id: String,
    pub url: String,
    pub width: Option<u32>,
    pub height: Option<u32>,
}

/// Mathematical view of a [`ThumbnailInfo`].
pub struct ThumbView {
    pub id: Seq<char>,
    pub url: Seq<char>,
    pub width: Option<u32>,
    pub height: Option<u32>,
}

impl View for ThumbnailInfo {
    type V = ThumbView;

    open spec fn view(&self) -> ThumbView {
        ThumbView { id: self.id@, url: self.url@, width: self.width, height: self.height }
    }
}

/// Views of a list of thumbnails.
pub open spec fn thumbs_view(v: Seq<ThumbnailInfo>) -> Seq<ThumbView> {
    v.map_values(|t: ThumbnailInfo| t@)
}

/// `WIDTHxHEIGHT` when both are known, `auto` otherwise.
pub open spec fn resolution_text(w: Option<u32>, h: Option<u32>) -> Seq<char> {
    match (w, h) {
        (Some(w), Some(h)) => decimal(w as nat) + "x"@ + decimal(h as nat),
        _ => "auto"@,
    }
}

/// The image format guessed from a URL: `webp`, then `png`, else `jpg`.
pub open spec fn ext_text(url: Seq<char>) -> Seq<char> {
    if contains_seq(url, ".webp"@) {
        "webp"@
    } else if contains_seq(url, ".png"@) {
        "png"@
    } else {
        "jpg"@
    }
}

/// `WxH` text of two dimensions.
fn dims_text(w: u32, h: u32) -> (r: String)
    ensures
        r@ == decimal(w as nat) + "x"@ + decimal(h as nat),
{
    let mut s = u64_to_decimal(w as u64);
    s.append("x");
    let hs = u64_to_decimal(h as u64);
    s.append(hs.as_str());
    s
}

impl ThumbnailInfo {
    /// Resolution label, e.g. `1920x1080`, or `auto`.
    pub fn resolution_str(&self) -> (r: String)
        ensures
            r@ == resolution_text(self.width, self.height),
    {
        match (self.width, self.height) {
            (Some(w), Some(h)) => dims_text(w, h),
            _ => String::from_str("auto"),
        }
    }

    /// File extension of the image.
    pub fn ext_str(&self) -> (r: &'static str)
        ensures
            r@ == ext_text(self.url@),
    {
        if contains_str(self.url.as_str(), ".webp") {
            "webp"
        } else if contains_str(self.url.as_str(), ".png") {
            "png"
        } else {
            "jpg"
        }
    }
}

/// A copy of a thumbnail.
pub fn copy_thumb(t: &ThumbnailInfo) -> (r: ThumbnailInfo)
    ensures
        r@ == t@,
{
    ThumbnailInfo { id: t.id.clone(), url: t.url.clone(), width: t.width, height: t.height }
}

/// One stream (format) that yt-dlp offers.
#[derive(Debug, Clone, Default)]
pub struct FormatInfo {
    pub format_id: String,
    pub ext: String,
    pub resolution: Option<String>,
    pub width: Option<u32>,
    pub height: Option<u32>,
    /// Frames per second, as the JSON number it was read from.
    pub fps: Option<JsonNumber>,
    pub vcodec: Option<String>,
    pub acodec: Option<String>,
    /// Total bitrate in kbit/s, as the JSON number it was read from.
    pub tbr: Option<JsonNumber>,
    /// Size in bytes, as the JSON number it was read from.
    pub filesize: Option<JsonNumber>,
    /// Estimated size in bytes, as the JSON number it was read from.
    pub filesize_approx: Option<JsonNumber>,
    pub format_note: Option<String>,
}

/// Mathematical view of a [`FormatInfo`].
pub struct FormatView {
    pub format_id: Seq<char>,
    pub ext: Seq<char>,
    pub resolution: Option<Seq<char>>,
    pub width: Option<u32>,
    pub height: Option<u32>,
    pub fps: Option<JsonNumber>,
    pub vcodec: Option<Seq<char>>,
    pub acodec: Option<Seq<char>>,
    pub tbr: Option<JsonNumber>,
    pub filesize: Option<JsonNumber>,
    pub filesize_approx: Option<JsonNumber>,
    pub format_note: Option<Seq<char>>,
}

impl View for FormatInfo {
    type V = FormatView;

    open spec fn view(&self) -> FormatView {
        FormatView {
            format_id: self.format_id@,
            ext: self.ext@,
            resolution: self.resolution.deep_view(),
            width: self.width,
            height: self.height,
            fps: self.fps,
            vcodec: self.vcodec.deep_view(),
            acodec: self.acodec.deep_view(),
            tbr: self.tbr,
            filesize: self.filesize,
            filesize_approx: self.filesize_approx,
            format_note: self.format_note.deep_view(),
        }
    }
}

/// Views of a list of formats.
pub open spec fn formats_view(v: Seq<FormatInfo>) -> Seq<FormatView> {
    v.map_values(|f: FormatInfo| f@)
}

/// An identifier field: its text, or the decimal text of an integer, or empty.
pub open spec fn id_text(v: Option<JsonValue>) -> Seq<char> {
    match as_str_opt(v) {
        Some(s) => s,
        None => match as_i64_opt(v) {
            Some(n) => int_decimal(n as int),
            None => Seq::empty(),
        },
    }
}

/// A dimension field: the non-negative integer cut to 32 bits.
pub open spec fn dim_of(v: Option<JsonValue>) -> Option<u32> {
    match as_u64_opt(v) {
        Some(n) => Some(n as u32),
        None => None,
    }
}

/// A count field: the non-negative integer as `usize`.
pub open spec fn count_of(v: Option<JsonValue>) -> Option<usize> {
    match as_u64_opt(v) {
        Some(n) => Some(n as usize),
        None => None,
    }
}

/// The format that a JSON entry describes, `None` when it has no usable `format_id`.
pub open spec fn format_of(v: JsonValue) -> Option<FormatView> {
    let id = id_text(json_get(v, "format_id"@));
    if id.len() == 0 {
        None
    } else {
        Some(
            FormatView {
                format_id: id,
                ext: match as_str_opt(json_get(v, "ext"@)) {
                    Some(e) => e,
                    None => "mp4"@,
                },
                resolution: as_str_opt(json_get(v, "resolution"@)),
                width: dim_of(json_get(v, "width"@)),
                height: dim_of(json_get(v, "height"@)),
                fps: as_number_opt(json_get(v, "fps"@)),
                vcodec: as_str_opt(json_get(v, "vcodec"@)),
                acodec: as_str_opt(json_get(v, "acodec"@)),
                tbr: as_number_opt(json_get(v, "tbr"@)),
                filesize: as_number_opt(json_get(v, "filesize"@)),
                filesize_approx: as_number_opt(json_get(v, "filesize_approx"@)),
                format_note: as_str_opt(json_get(v, "format_note"@)),
            },
        )
    }
}

/// The identifier text of an optional value (exec).
fn id_in(v: Option<&JsonValue>) -> (r: String)
    ensures
        r@ == id_text(deref_opt(v)),
{
    match str_in(v) {
        Some(s) => s,
        None => match i64_in(v) {
            Some(n) => i64_to_decimal(n),
            None => String::new(),
        },
    }
}

fn dim_in(v: Option<&JsonValue>) -> (r: Option<u32>)
    ensures
        r == dim_of(deref_opt(v)),
{
    match u64_in(v) {
        Some(n) => Some(n as u32),
        None => None,
    }
}

fn count_in(v: Option<&JsonValue>) -> (r: Option<usize>)
    ensures
        r == count_of(deref_opt(v)),
{
    match u64_in(v) {
        Some(n) => Some(n as usize),
        None => None,
    }
}

/// `None` when absent, `--` style fallbacks are left to the callers.
pub open spec fn codec_or_none(c: Option<Seq<char>>) -> Seq<char> {
    match c {
        Some(s) => s,
        None => "none"@,
    }
}

/// Video stream without audio.
pub open spec fn spec_is_video_only(f: FormatView) -> bool {
    codec_or_none(f.vcodec) != "none"@ && codec_or_none(f.acodec) == "none"@
}

/// Audio stream without video.
pub open spec fn spec_is_audio_only(f: FormatView) -> bool {
    codec_or_none(f.vcodec) == "none"@ && codec_or_none(f.acodec) != "none"@
}

/// Stream with both video and audio.
pub open spec fn spec_is_muxed(f: FormatView) -> bool {
    codec_or_none(f.vcodec) != "none"@ && codec_or_none(f.acodec) != "none"@
}

/// Resolution column of the format table.
pub open spec fn format_resolution_text(f: FormatView) -> Seq<char> {
    if spec_is_audio_only(f) {
        "audio only"@
    } else {
        match (f.width, f.height) {
            (Some(w), Some(h)) => decimal(w as nat) + "x"@ + decimal(h as nat),
            _ => match f.resolution {
                Some(r) => r,
                None => "unknown"@,
            },
        }
    }
}

fn codec_is_none(c: &Option<String>) -> (r: bool)
    ensures
        r == (codec_or_none(c.deep_view()) == "none"@),
{
    match c {
        Some(s) => crate::text::str_eq(s.as_str(), "none"),
        None => true,
    }
}

impl FormatInfo {
    /// Reads a format from its JSON entry; `None` when it has no usable `format_id`.
    pub fn from_value(val: &JsonValue) -> (r: Option<FormatInfo>)
        ensures
            match r {
                Some(f) => format_of(*val) == Some(f@),
                None => format_of(*val) is None,
            },
    {
        let format_id = id_in(val.get("format_id"));
        if format_id.as_str().is_empty() {
            return None;
        }
        let ext = match str_in(val.get("ext")) {
            Some(e) => e,
            None => String::from_str("mp4"),
        };
        Some(
            FormatInfo {
                format_id,
                ext,
                resolution: str_in(val.get("resolution")),
                width: dim_in(val.get("width")),
                height: dim_in(val.get("height")),
                fps: number_in(val.get("fps")),
                vcodec: str_in(val.get("vcodec")),
                acodec: str_in(val.get("acodec")),
                tbr: number_in(val.get("tbr")),
                filesize: number_in(val.get("filesize")),
                filesize_approx: number_in(val.get("filesize_approx")),
                format_note: str_in(val.get("format_note")),
            },
        )
    }

    /// Video stream without audio.
    pub fn is_video_only(&self) -> (r: bool)
        ensures
            r == spec_is_video_only(self@),
    {
        !codec_is_none(&self.vcodec) && codec_is_none(&self.acodec)
    }

    /// Audio stream without video.
    pub fn is_audio_only(&self) -> (r: bool)
        ensures
            r == spec_is_audio_only(self@),
    {
        codec_is_none(&self.vcodec) && !codec_is_none(&self.acodec)
    }

    /// Stream with both video and audio.
    pub fn is_muxed(&self) -> (r: bool)
        ensures
            r == spec_is_muxed(self@),
    {
        !codec_is_none(&self.vcodec) && !codec_is_none(&self.acodec)
    }

    /// Resolution label: `audio only`, `WxH`, the reported resolution, or `unknown`.
    pub fn resolution_str(&self) -> (r: String)
        ensures
            r@ == format_resolution_text(self@),
    {
        if self.is_audio_only() {
            String::from_str("audio only")
        } else {
            match (self.width, self.height) {
                (Some(w), Some(h)) => dims_text(w, h),
                _ => match &self.resolution {
                    Some(res) => res.clone(),
                    None => String::from_str("unknown"),
                },
            }
        }
    }
}

/// A stream is exactly one of: video only, audio only, muxed, or carries neither codec.
pub proof fn law_stream_kinds(f: FormatView)
    ensures
        spec_is_video_only(f) ==> !spec_is_audio_only(f) && !spec_is_muxed(f),
        spec_is_audio_only(f) ==> !spec_is_video_only(f) && !spec_is_muxed(f),
        spec_is_muxed(f) ==> !spec_is_video_only(f) && !spec_is_audio_only(f),
        !spec_is_video_only(f) && !spec_is_audio_only(f) && !spec_is_muxed(f) ==> codec_or_none(
            f.vcodec,
        ) == "none"@ && codec_or_none(f.acodec) == "none"@,
{
}

} // verus!

verus! {

/// Basic information on a media item (video, track, or playlist entry).
#[derive(Debug, Clone, Default)]
pub struct MediaInfo {
    pub id: String,
    pub title: String,
    pub uploader: Option<String>,
    pub channel: Option<String>,
    pub album: Option<String>,
    pub playlist_title: Option<String>,
    pub playlist_count: Option<usize>,
    pub playlist_index: Option<usize>,
    pub playlist_tracks: Vec<String>,
    /// Duration in seconds, as the JSON number it was read from.
    pub duration: Option<JsonNumber>,
    pub thumbnail: Option<String>,
    pub thumbnails: Vec<ThumbnailInfo>,
    pub upload_date: Option<String>,
    pub formats: Vec<FormatInfo>,
}

/// Mathematical view of a [`MediaInfo`].
pub struct MediaView {
    pub id: Seq<char>,
    pub title: Seq<char>,
    pub uploader: Option<Seq<char>>,
    pub channel: Option<Seq<char>>,
    pub album: Option<Seq<char>>,
    pub playlist_title: Option<Seq<char>>,
    pub playlist_count: Option<usize>,
    pub playlist_index: Option<usize>,
    pub playlist_tracks: Seq<Seq<char>>,
    pub duration: Option<JsonNumber>,
    pub thumbnail: Option<Seq<char>>,
    pub thumbnails: Seq<ThumbView>,
    pub upload_date: Option<Seq<char>>,
    pub formats: Seq<FormatView>,
}

impl View for MediaInfo {
    type V = MediaView;

    open spec fn view(&self) -> MediaView {
        MediaView {
            id: self.id@,
            title: self.title@,
            uploader: self.uploader.deep_view(),
            channel: self.channel.deep_view(),
            album: self.album.deep_view(),
            playlist_title: self.playlist_title.deep_view(),
            playlist_count: self.playlist_count,
            playlist_index: self.playlist_index,
            playlist_tracks: self.playlist_tracks.deep_view(),
            duration: self.duration,
            thumbnail: self.thumbnail.deep_view(),
            thumbnails: thumbs_view(self.thumbnails@),
            upload_date: self.upload_date.deep_view(),
            formats: formats_view(self.formats@),
        }
    }
}

/// The thumbnail that a JSON entry describes: entries without a textual `url` are skipped.
pub open spec fn thumb_of(t: JsonValue) -> Option<ThumbView> {
    match as_str_opt(json_get(t, "url"@)) {
        Some(url) => Some(
            ThumbView {
                id: match as_str_opt(json_get(t, "id"@)) {
                    Some(i) => i,
                    None => Seq::empty(),
                },
                url,
                width: dim_of(json_get(t, "width"@)),
                height: dim_of(json_get(t, "height"@)),
            },
        ),
        None => None,
    }
}

/// The thumbnails of a JSON array, in order.
pub open spec fn thumbs_of(a: Seq<JsonValue>) -> Seq<ThumbView>
    decreases a.len(),
{
    if a.len() == 0 {
        Seq::empty()
    } else {
        let rest = thumbs_of(a.drop_last());
        match thumb_of(a.last()) {
            Some(t) => rest.push(t),
            None => rest,
        }
    }
}

/// The formats of a JSON array, in order.
pub open spec fn formats_of(a: Seq<JsonValue>) -> Seq<FormatView>
    decreases a.len(),
{
    if a.len() == 0 {
        Seq::empty()
    } else {
        let rest = formats_of(a.drop_last());
        match format_of(a.last()) {
            Some(f) => rest.push(f),
            None => rest,
        }
    }
}

/// The media information that a yt-dlp JSON document describes. Every field is optional
/// in the document; a missing or mistyped field falls back to its default.
pub open spec fn media_of(v: JsonValue) -> MediaView {
    let g = |k: Seq<char>| json_get(v, k);
    MediaView {
        id: id_text(g("id"@)),
        title: match as_str_opt(g("title"@)) {
            Some(t) => t,
            None => "Untitled"@,
        },
        uploader: as_str_opt(or_else(g("uploader"@), or_else(g("uploader_id"@), g("creator"@)))),
        channel: as_str_opt(or_else(g("channel"@), g("channel_id"@))),
        album: as_str_opt(g("album"@)),
        playlist_title: as_str_opt(or_else(g("playlist_title"@), g("playlist"@))),
        playlist_count: count_of(or_else(g("playlist_count"@), g("n_entries"@))),
        playlist_index: count_of(or_else(g("playlist_index"@), g("playlist_autonumber"@))),
        playlist_tracks: Seq::empty(),
        duration: as_number_opt(g("duration"@)),
        thumbnail: as_str_opt(g("thumbnail"@)),
        thumbnails: match as_array_opt(g("thumbnails"@)) {
            Some(a) => thumbs_of(a),
            None => Seq::empty(),
        },
        upload_date: as_str_opt(g("upload_date"@)),
        formats: match as_array_opt(g("formats"@)) {
            Some(a) => formats_of(a),
            None => Seq::empty(),
        },
    }
}

fn thumbs_from_array(a: &Vec<JsonValue>) -> (r: Vec<ThumbnailInfo>)
    ensures
        thumbs_view(r@) == thumbs_of(a@),
{
    let mut out: Vec<ThumbnailInfo> = Vec::new();
    let mut i: usize = 0;
    while i < a.len()
        invariant
            i <= a.len(),
            thumbs_view(out@) == thumbs_of(a@.take(i as int)),
        decreases a.len() - i,
    {
        let t = &a[i];
        assert(a@.take(i + 1).drop_last() == a@.take(i as int));
        assert(a@.take(i + 1).last() == a@[i as int]);
        match str_in(t.get("url")) {
            Some(url) => {
                let id = match str_in(t.get("id")) {
                    Some(x) => x,
                    None => String::new(),
                };
                let th = ThumbnailInfo {
                    id,
                    url,
                    width: dim_in(t.get("width")),
                    height: dim_in(t.get("height")),
                };
                out.push(th);
                assert(thumbs_view(out@) == thumbs_view(out@.drop_last()).push(th@));
            },
            None => {},
        }
        i += 1;
    }
    assert(a@.take(a.len() as int) == a@);
    out
}

fn formats_from_array(a: &Vec<JsonValue>) -> (r: Vec<FormatInfo>)
    ensures
        formats_view(r@) == formats_of(a@),
{
    let mut out: Vec<FormatInfo> = Vec::new();
    let mut i: usize = 0;
    while i < a.len()
        invariant
            i <= a.len(),
            formats_view(out@) == formats_of(a@.take(i as int)),
        decreases a.len() - i,
    {
        assert(a@.take(i + 1).drop_last() == a@.take(i as int));
        assert(a@.take(i + 1).last() == a@[i as int]);
        match FormatInfo::from_value(&a[i]) {
            Some(f) => {
                out.push(f);
                assert(formats_view(out@) == formats_view(out@.drop_last()).push(f@));
            },
            None => {},
        }
        i += 1;
    }
    assert(a@.take(a.len() as int) == a@);
    out
}

impl MediaInfo {
    /// Reads media information from yt-dlp's JSON, whatever shape it has: missing or
    /// mistyped fields fall back to defaults (see [`media_of`]).
    pub fn from_value(val: &JsonValue) -> (r: MediaInfo)
        ensures
            r@ == media_of(*val),
    {
        let id = id_in(val.get("id"));
        let title = match str_in(val.get("title")) {
            Some(t) => t,
            None => String::from_str("Untitled"),
        };
        let uploader = str_in(
            first_of(val.get("uploader"), first_of(val.get("uploader_id"), val.get("creator"))),
        );
        let channel = str_in(first_of(val.get("channel"), val.get("channel_id")));
        let duration = number_in(val.get("duration"));
        let thumbnail = str_in(val.get("thumbnail"));
        let thumbnails = match val.get("thumbnails") {
            Some(t) => match t.as_array() {
                Some(a) => thumbs_from_array(a),
                None => Vec::new(),
            },
            None => Vec::new(),
        };
        let upload_date = str_in(val.get("upload_date"));
        let formats = match val.get("formats") {
            Some(t) => match t.as_array() {
                Some(a) => formats_from_array(a),
                None => Vec::new(),
            },
            None => Vec::new(),
        };
        let album = str_in(val.get("album"));
        let playlist_title = str_in(first_of(val.get("playlist_title"), val.get("playlist")));
        let playlist_count = count_in(first_of(val.get("playlist_count"), val.get("n_entries")));
        let playlist_index = count_in(
            first_of(val.get("playlist_index"), val.get("playlist_autonumber")),
        );
        let r = MediaInfo {
            id,
            title,
            uploader,
            channel,
            album,
            playlist_title,
            playlist_count,
            playlist_index,
            playlist_tracks: Vec::new(),
            duration,
            thumbnail,
            thumbnails,
            upload_date,
            formats,
        };
        assert(r.playlist_tracks.deep_view() == Seq::<Seq<char>>::empty());
        assert(thumbs_view(r.thumbnails@) == media_of(*val).thumbnails);
        assert(formats_view(r.formats@) == media_of(*val).formats);
        r
    }
}

} // verus!

verus! {

/// Pixel area of a thumbnail, missing dimensions counting as zero.
pub open spec fn area(t: ThumbView) -> nat {
    let w: nat = match t.width {
        Some(w) => w as nat,
        None => 0,
    };
    let h: nat = match t.height {
        Some(h) => h as nat,
        None => 0,
    };
    w * h
}

/// Every thumbnail's area fits in `u32`, so that it can be computed without overflow.
pub open spec fn areas_fit(ts: Seq<ThumbView>) -> bool {
    forall|i: int| 0 <= i < ts.len() ==> #[trigger] area(ts[i]) <= u32::MAX
}

/// Inserts `t` into a list ordered by decreasing area, after every entry whose area is at
/// least `t`'s.
pub open spec fn insert_by_area(sorted: Seq<ThumbView>, t: ThumbView) -> Seq<ThumbView>
    decreases sorted.len(),
{
    if sorted.len() == 0 {
        seq![t]
    } else if area(sorted[0]) < area(t) {
        seq![t] + sorted
    } else {
        seq![sorted[0]] + insert_by_area(sorted.drop_first(), t)
    }
}

/// The thumbnails ordered by decreasing area; thumbnails of equal area keep their order
/// (the stable sort that `sort_by_key` with `Reverse` gives).
pub open spec fn sort_by_area(s: Seq<ThumbView>) -> Seq<ThumbView>
    decreases s.len(),
{
    if s.len() == 0 {
        s
    } else {
        insert_by_area(sort_by_area(s.drop_last()), s.last())
    }
}

/// Area of a thumbnail (exec); the caller guarantees it fits.
fn area_exec(t: &ThumbnailInfo) -> (r: u32)
    requires
        area(t@) <= u32::MAX,
    ensures
        r == area(t@),
{
    let w = match t.width {
        Some(w) => w,
        None => 0,
    };
    let h = match t.height {
        Some(h) => h,
        None => 0,
    };
    assert(w * h == area(t@));
    w * h
}

/// Insertion at the first position whose area is smaller is [`insert_by_area`].
proof fn lemma_insert_by_area(s: Seq<ThumbView>, t: ThumbView, p: int)
    requires
        0 <= p <= s.len(),
        forall|j: int| 0 <= j < p ==> area(#[trigger] s[j]) >= area(t),
        p < s.len() ==> area(s[p]) < area(t),
    ensures
        insert_by_area(s, t) == s.take(p).push(t) + s.skip(p),
    decreases s.len(),
{
    if s.len() == 0 {
        assert(s.take(p).push(t) + s.skip(p) == seq![t]);
    } else if p == 0 {
        assert(s.take(0).push(t) + s.skip(0) == seq![t] + s);
    } else {
        let d = s.drop_first();
        assert forall|j: int| 0 <= j < p - 1 implies area(#[trigger] d[j]) >= area(t) by {
            assert(d[j] == s[j + 1]);
        }
        if p - 1 < d.len() {
            assert(d[p - 1] == s[p]);
        }
        assert(area(s[0]) >= area(t));
        lemma_insert_by_area(d, t, p - 1);
        assert(seq![s[0]] + (d.take(p - 1).push(t) + d.skip(p - 1)) == s.take(p).push(t)
            + s.skip(p));
    }
}

/// An ordered copy of thumbnails (see [`sort_by_area`]).
pub fn sorted_by_area(ts: &Vec<ThumbnailInfo>) -> (r: Vec<ThumbnailInfo>)
    requires
        areas_fit(thumbs_view(ts@)),
    ensures
        thumbs_view(r@) == sort_by_area(thumbs_view(ts@)),
{
    let ghost src = thumbs_view(ts@);
    let mut out: Vec<ThumbnailInfo> = Vec::new();
    let mut i: usize = 0;
    while i < ts.len()
        invariant
            i <= ts.len(),
            src == thumbs_view(ts@),
            areas_fit(src),
            thumbs_view(out@) == sort_by_area(src.take(i as int)),
            forall|j: int| 0 <= j < out.len() ==> area(#[trigger] out@[j]@) <= u32::MAX,
        decreases ts.len() - i,
    {
        let t = copy_thumb(&ts[i]);
        assert(src[i as int] == t@);
        let key = area_exec(&t);
        let mut p: usize = 0;
        while p < out.len() && area_exec(&out[p]) >= key
            invariant
                p <= out.len(),
                key == area(t@),
                forall|j: int| 0 <= j < out.len() ==> area(#[trigger] out@[j]@) <= u32::MAX,
                forall|j: int| 0 <= j < p ==> area(#[trigger] thumbs_view(out@)[j]) >= area(t@),
            decreases out.len() - p,
        {
            assert(thumbs_view(out@)[p as int] == out@[p as int]@);
            p += 1;
        }
        proof {
            if p < out.len() {
                assert(thumbs_view(out@)[p as int] == out@[p as int]@);
            }
            lemma_insert_by_area(thumbs_view(out@), t@, p as int);
            assert(src.take(i + 1).drop_last() == src.take(i as int));
            assert(src.take(i + 1).last() == t@);
        }
        let ghost before = out@;
        out.insert(p, t);
        proof {
            assert(out@ == before.take(p as int).push(t) + before.skip(p as int));
            assert(thumbs_view(out@) == thumbs_view(before).take(p as int).push(t@)
                + thumbs_view(before).skip(p as int));
            assert forall|j: int| 0 <= j < out.len() implies area(#[trigger] out@[j]@) <= u32::MAX by {
                if j < p {
                    assert(out@[j] == before[j]);
                } else if j > p {
                    assert(out@[j] == before[j - 1]);
                }
            }
        }
        i += 1;
    }
    assert(src.take(ts.len() as int) == src);
    out
}

} // verus!

verus! {

/// The thumbnail that `max_by_key` on area picks among those with a URL: the last one of
/// the largest area.
pub open spec fn largest_thumb(s: Seq<ThumbView>) -> Option<ThumbView>
    decreases s.len(),
{
    if s.len() == 0 {
        None
    } else {
        let best = largest_thumb(s.drop_last());
        let t = s.last();
        if t.url.len() == 0 {
            best
        } else {
            match best {
                None => Some(t),
                Some(b) => if area(t) >= area(b) {
                    Some(t)
                } else {
                    Some(b)
                },
            }
        }
    }
}

/// The preferred thumbnail URL: the largest thumbnail when its width is known and
/// positive, else the last listed thumbnail when it has a URL, else the single `thumbnail`
/// field when it is not empty.
pub open spec fn thumbnail_url_of(m: MediaView) -> Option<Seq<char>> {
    let ts = m.thumbnails;
    match largest_thumb(ts) {
        Some(b) if (match b.width {
            Some(w) => w > 0,
            None => false,
        }) => Some(b.url),
        _ => if ts.len() > 0 && ts.last().url.len() > 0 {
            Some(ts.last().url)
        } else {
            match m.thumbnail {
                Some(t) => if t.len() > 0 {
                    Some(t)
                } else {
                    None
                },
                None => None,
            }
        },
    }
}

/// Appends `u` unless it is already listed or empty.
pub open spec fn push_new(list: Seq<Seq<char>>, u: Seq<char>) -> Seq<Seq<char>> {
    if !list.contains(u) && u.len() > 0 {
        list.push(u)
    } else {
        list
    }
}

/// Appends the URLs of `s`, in order, skipping repeats and empty ones.
pub open spec fn push_new_urls(list: Seq<Seq<char>>, s: Seq<ThumbView>) -> Seq<Seq<char>>
    decreases s.len(),
{
    if s.len() == 0 {
        list
    } else {
        push_new(push_new_urls(list, s.drop_last()), s.last().url)
    }
}

/// Thumbnail URLs to try, in order of preference: the preferred URL, the single
/// `thumbnail` field, then every listed thumbnail by decreasing area; no URL twice and no
/// empty one.
pub open spec fn thumbnail_candidates_of(m: MediaView) -> Seq<Seq<char>> {
    let first: Seq<Seq<char>> = match thumbnail_url_of(m) {
        Some(u) => seq![u],
        None => Seq::empty(),
    };
    let second = match m.thumbnail {
        Some(t) => push_new(first, t),
        None => first,
    };
    push_new_urls(second, sort_by_area(m.thumbnails))
}

/// URLs of a list of thumbnails.
pub open spec fn urls(s: Seq<ThumbView>) -> Seq<Seq<char>> {
    s.map_values(|t: ThumbView| t.url)
}

/// Keeps, in order, the thumbnails with a URL not seen before; empty URLs are dropped.
pub open spec fn dedup_by_url(s: Seq<ThumbView>) -> Seq<ThumbView>
    decreases s.len(),
{
    if s.len() == 0 {
        s
    } else {
        let r = dedup_by_url(s.drop_last());
        let t = s.last();
        if t.url.len() > 0 && !urls(r).contains(t.url) {
            r.push(t)
        } else {
            r
        }
    }
}

/// The entry that stands for the single `thumbnail` field.
pub open spec fn default_thumb(u: Seq<char>) -> ThumbView {
    ThumbView { id: "default"@, url: u, width: None, height: None }
}

/// The distinct thumbnails by decreasing area, then the single `thumbnail` field when its
/// URL is new and not empty.
pub open spec fn unique_thumbnails_of(m: MediaView) -> Seq<ThumbView> {
    let r = dedup_by_url(sort_by_area(m.thumbnails));
    match m.thumbnail {
        Some(u) => if u.len() > 0 && !urls(r).contains(u) {
            r.push(default_thumb(u))
        } else {
            r
        },
        None => r,
    }
}

/// The name shown for the uploader: the channel, else the uploader, else `Unknown`.
pub open spec fn uploader_name_of(m: MediaView) -> Seq<char> {
    match m.channel {
        Some(c) => c,
        None => match m.uploader {
            Some(u) => u,
            None => "Unknown"@,
        },
    }
}

/// `MM:SS`, or `HH:MM:SS` from one hour on, of a number of whole seconds.
pub open spec fn duration_text(secs: nat) -> Seq<char> {
    let hours = secs / 3600;
    let mins = (secs % 3600) / 60;
    let s = secs % 60;
    if hours > 0 {
        pad2(hours) + ":"@ + pad2(mins) + ":"@ + pad2(s)
    } else {
        pad2(mins) + ":"@ + pad2(s)
    }
}

/// Formats a duration given in whole seconds (see [`duration_text`]).
pub fn format_duration(secs: u64) -> (r: String)
    ensures
        r@ == duration_text(secs as nat),
{
    let hours = secs / 3600;
    let mins = (secs % 3600) / 60;
    let s = secs % 60;
    let mut out = String::new();
    if hours > 0 {
        let h = u64_to_pad2(hours);
        out.append(h.as_str());
        out.append(":");
    }
    let m = u64_to_pad2(mins);
    out.append(m.as_str());
    out.append(":");
    let ss = u64_to_pad2(s);
    out.append(ss.as_str());
    out
}

fn push_new_exec(list: &mut Vec<String>, u: &String)
    ensures
        final(list).deep_view() == push_new(old(list).deep_view(), u@),
{
    if !crate::text::contains_string(list, u.as_str()) && !u.as_str().is_empty() {
        list.push(u.clone());
    }
}

/// Reading metadata takes each text field from its own key: a textual `channel` is the
/// channel, and `channel_id` only stands in when there is no `channel` member; likewise a
/// textual `uploader` is the uploader, a textual `title` the title (`Untitled` without
/// one) and a textual `album` the album. The name shown for the uploader is the channel
/// when there is one.
pub proof fn law_media_fields(v: JsonValue)
    ensures
        json_get(v, "channel"@) matches Some(JsonValue::Str(c)) ==> media_of(v).channel == Some(c@),
        json_get(v, "channel"@) is None ==> media_of(v).channel == as_str_opt(json_get(v, "channel_id"@)),
        json_get(v, "uploader"@) matches Some(JsonValue::Str(u)) ==> media_of(v).uploader == Some(u@),
        json_get(v, "title"@) matches Some(JsonValue::Str(t)) ==> media_of(v).title == t@,
        !(json_get(v, "title"@) matches Some(JsonValue::Str(_))) ==> media_of(v).title == "Untitled"@,
        json_get(v, "album"@) matches Some(JsonValue::Str(a)) ==> media_of(v).album == Some(a@),
        json_get(v, "channel"@) matches Some(JsonValue::Str(c)) ==> uploader_name_of(media_of(v)) == c@,
{
}

/// Whole seconds of a duration read as a JSON integer: a missing or negative duration
/// counts as 0 (as a cast to `u64` gives); `None` for a floating-point duration.
pub open spec fn whole_seconds(d: Option<JsonNumber>) -> Option<nat> {
    match d {
        None => Some(0),
        Some(JsonNumber::PosInt(u)) => Some(u as nat),
        Some(JsonNumber::NegInt(_)) => Some(0),
        Some(JsonNumber::Float(_)) => None,
    }
}

impl MediaInfo {
    /// The thumbnails' areas all fit in `u32` (computing them does not overflow).
    pub fn thumbnail_areas_fit(&self) -> (r: bool)
        ensures
            r == areas_fit(self@.thumbnails),
    {
        let mut i: usize = 0;
        while i < self.thumbnails.len()
            invariant
                i <= self.thumbnails.len(),
                forall|j: int| 0 <= j < i ==> area(#[trigger] thumbs_view(self.thumbnails@)[j]) <= u32::MAX,
            decreases self.thumbnails.len() - i,
        {
            let t = &self.thumbnails[i];
            let w: u64 = match t.width {
                Some(w) => w as u64,
                None => 0,
            };
            let h: u64 = match t.height {
                Some(h) => h as u64,
                None => 0,
            };
            assert(w * h <= u32::MAX * u32::MAX) by (nonlinear_arith)
                requires
                    w <= u32::MAX,
                    h <= u32::MAX,
            ;
            assert(w * h == area(thumbs_view(self.thumbnails@)[i as int]));
            if w * h > u32::MAX as u64 {
                return false;
            }
            i += 1;
        }
        true
    }

    /// The duration as `MM:SS` or `HH:MM:SS` (see [`duration_text`]) when it is a whole
    /// number of seconds or missing (see [`whole_seconds`]); `None` for a floating-point
    /// duration, whose seconds the caller takes with a float cast and formats with
    /// [`format_duration`].
    pub fn duration_formatted(&self) -> (r: Option<String>)
        ensures
            match whole_seconds(self@.duration) {
                Some(secs) => r matches Some(t) && t@ == duration_text(secs),
                None => r is None,
            },
    {
        match self.duration {
            None => Some(format_duration(0)),
            Some(JsonNumber::PosInt(u)) => Some(format_duration(u)),
            Some(JsonNumber::NegInt(_)) => Some(format_duration(0)),
            Some(JsonNumber::Float(_)) => None,
        }
    }

    /// The preferred thumbnail URL (see [`thumbnail_url_of`]).
    pub fn get_thumbnail_url(&self) -> (r: Option<String>)
        requires
            areas_fit(self@.thumbnails),
        ensures
            r.deep_view() == thumbnail_url_of(self@),
    {
        let ts = &self.thumbnails;
        let ghost tv = thumbs_view(ts@);
        let mut best: Option<usize> = None;
        let mut i: usize = 0;
        while i < ts.len()
            invariant
                i <= ts.len(),
                tv == thumbs_view(ts@),
                areas_fit(tv),
                match best {
                    Some(b) => b < i && largest_thumb(tv.take(i as int)) == Some(tv[b as int]),
                    None => largest_thumb(tv.take(i as int)) is None,
                },
            decreases ts.len() - i,
        {
            assert(tv.take(i + 1).drop_last() == tv.take(i as int));
            assert(tv.take(i + 1).last() == tv[i as int]);
            assert(tv[i as int] == ts@[i as int]@);
            if !ts[i].url.as_str().is_empty() {
                match best {
                    None => {
                        best = Some(i);
                    },
                    Some(b) => {
                        assert(tv[b as int] == ts@[b as int]@);
                        if area_exec(&ts[i]) >= area_exec(&ts[b]) {
                            best = Some(i);
                        }
                    },
                }
            }
            i += 1;
        }
        assert(tv.take(ts.len() as int) == tv);
        match best {
            Some(b) => {
                assert(tv[b as int] == ts@[b as int]@);
                match ts[b].width {
                    Some(w) => {
                        if w > 0 {
                            return Some(ts[b].url.clone());
                        }
                    },
                    None => {},
                }
            },
            None => {},
        }
        if ts.len() > 0 {
            let last = &ts[ts.len() - 1];
            assert(tv.last() == last@);
            if !last.url.as_str().is_empty() {
                return Some(last.url.clone());
            }
        }
        match &self.thumbnail {
            Some(t) => if !t.as_str().is_empty() {
                Some(t.clone())
            } else {
                None
            },
            None => None,
        }
    }

    /// Thumbnail URLs to try, in order of preference (see [`thumbnail_candidates_of`]).
    pub fn get_thumbnail_candidates(&self) -> (r: Vec<String>)
        requires
            areas_fit(self@.thumbnails),
        ensures
            r.deep_view() == thumbnail_candidates_of(self@),
    {
        let mut list: Vec<String> = Vec::new();
        match self.get_thumbnail_url() {
            Some(u) => list.push(u),
            None => {},
        }
        assert(list.deep_view() == match thumbnail_url_of(self@) {
            Some(u) => seq![u],
            None => Seq::<Seq<char>>::empty(),
        });
        match &self.thumbnail {
            Some(t) => push_new_exec(&mut list, t),
            None => {},
        }
        let sorted = sorted_by_area(&self.thumbnails);
        let ghost sv = thumbs_view(sorted@);
        let ghost base = list.deep_view();
        let mut i: usize = 0;
        while i < sorted.len()
            invariant
                i <= sorted.len(),
                sv == thumbs_view(sorted@),
                list.deep_view() == push_new_urls(base, sv.take(i as int)),
            decreases sorted.len() - i,
        {
            assert(sv.take(i + 1).drop_last() == sv.take(i as int));
            assert(sv.take(i + 1).last() == sorted@[i as int]@);
            push_new_exec(&mut list, &sorted[i].url);
            i += 1;
        }
        assert(sv.take(sorted.len() as int) == sv);
        list
    }

    /// Distinct thumbnails by decreasing area, then the single `thumbnail` field
    /// (see [`unique_thumbnails_of`]).
    pub fn get_unique_thumbnails(&self) -> (r: Vec<ThumbnailInfo>)
        requires
            areas_fit(self@.thumbnails),
        ensures
            thumbs_view(r@) == unique_thumbnails_of(self@),
    {
        let sorted = sorted_by_area(&self.thumbnails);
        let ghost sv = thumbs_view(sorted@);
        let mut list: Vec<ThumbnailInfo> = Vec::new();
        let mut seen: Vec<String> = Vec::new();
        let mut i: usize = 0;
        while i < sorted.len()
            invariant
                i <= sorted.len(),
                sv == thumbs_view(sorted@),
                thumbs_view(list@) == dedup_by_url(sv.take(i as int)),
                seen.deep_view() == urls(thumbs_view(list@)),
            decreases sorted.len() - i,
        {
            assert(sv.take(i + 1).drop_last() == sv.take(i as int));
            assert(sv.take(i + 1).last() == sorted@[i as int]@);
            let t = &sorted[i];
            if !t.url.as_str().is_empty() && !crate::text::contains_string(&seen, t.url.as_str()) {
                seen.push(t.url.clone());
                let c = copy_thumb(t);
                let ghost before = list@;
                list.push(c);
                assert(thumbs_view(list@) == thumbs_view(before).push(c@));
                assert(urls(thumbs_view(list@)) == urls(thumbs_view(before)).push(c@.url));
            }
            i += 1;
        }
        assert(sv.take(sorted.len() as int) == sv);
        match &self.thumbnail {
            Some(u) => {
                if !u.as_str().is_empty() && !crate::text::contains_string(&seen, u.as_str()) {
                    let d = ThumbnailInfo {
                        id: String::from_str("default"),
                        url: u.clone(),
                        width: None,
                        height: None,
                    };
                    let ghost before = list@;
                    list.push(d);
                    assert(thumbs_view(list@) == thumbs_view(before).push(d@));
                }
            },
            None => {},
        }
        list
    }

    /// The name shown for the uploader (see [`uploader_name_of`]).
    pub fn uploader_name(&self) -> (r: &str)
        ensures
            r@ == uploader_name_of(self@),
    {
        match &self.channel {
            Some(c) => c.as_str(),
            None => match &self.uploader {
                Some(u) => u.as_str(),
                None => "Unknown",
            },
        }
    }
}

} // verus!

verus! {

/// Ordered by non-increasing area.
pub open spec fn descending_area(s: Seq<ThumbView>) -> bool {
    forall|i: int, j: int| 0 <= i < j < s.len() ==> area(#[trigger] s[i]) >= area(#[trigger] s[j])
}

proof fn lemma_insert_keeps_order(s: Seq<ThumbView>, t: ThumbView)
    requires
        descending_area(s),
    ensures
        descending_area(insert_by_area(s, t)),
        insert_by_area(s, t).to_multiset() == s.to_multiset().insert(t),
        insert_by_area(s, t).len() == s.len() + 1,
        forall|k: int|
            0 <= k < insert_by_area(s, t).len() ==> #[trigger] insert_by_area(s, t)[k] == t || s.contains(
                insert_by_area(s, t)[k],
            ),
    decreases s.len(),
{
    broadcast use vstd::seq_lib::group_seq_properties;
    broadcast use vstd::multiset::group_multiset_axioms;
    if s.len() == 0 {
        assert(seq![t].to_multiset() == Seq::<ThumbView>::empty().to_multiset().insert(t));
    } else if area(s[0]) < area(t) {
        let r = seq![t] + s;
        assert forall|i: int, j: int| 0 <= i < j < r.len() implies area(#[trigger] r[i]) >= area(
            #[trigger] r[j],
        ) by {
            if i == 0 {
                assert(r[j] == s[j - 1]);
                if j - 1 > 0 {
                    assert(area(s[0]) >= area(s[j - 1]));
                }
            } else {
                assert(r[i] == s[i - 1] && r[j] == s[j - 1]);
            }
        }
        assert(r == s.insert(0, t));
        assert forall|k: int| 0 <= k < r.len() implies #[trigger] r[k] == t || s.contains(r[k]) by {
            if k > 0 {
                assert(r[k] == s[k - 1]);
            }
        }
    } else {
        let d = s.drop_first();
        assert forall|i: int, j: int| 0 <= i < j < d.len() implies area(#[trigger] d[i]) >= area(
            #[trigger] d[j],
        ) by {
            assert(d[i] == s[i + 1] && d[j] == s[j + 1]);
        }
        lemma_insert_keeps_order(d, t);
        let rest = insert_by_area(d, t);
        let r = seq![s[0]] + rest;
        assert(r == insert_by_area(s, t));
        assert forall|i: int, j: int| 0 <= i < j < r.len() implies area(#[trigger] r[i]) >= area(
            #[trigger] r[j],
        ) by {
            if i == 0 {
                assert(r[j] == rest[j - 1]);
                if rest[j - 1] == t {
                } else {
                    assert(d.contains(rest[j - 1]));
                    let k = choose|k: int| 0 <= k < d.len() && d[k] == rest[j - 1];
                    assert(d[k] == s[k + 1]);
                }
            } else {
                assert(r[i] == rest[i - 1] && r[j] == rest[j - 1]);
            }
        }
        assert(s == seq![s[0]] + d);
        assert(s.to_multiset() == d.to_multiset().insert(s[0])) by {
            assert(s == d.insert(0, s[0]));
        }
        assert(r == rest.insert(0, s[0]));
        assert forall|k: int| 0 <= k < r.len() implies #[trigger] r[k] == t || s.contains(r[k]) by {
            if k == 0 {
                assert(s[0] == r[0]);
            } else {
                assert(r[k] == rest[k - 1]);
                if rest[k - 1] != t {
                    let m = choose|m: int| 0 <= m < d.len() && d[m] == rest[k - 1];
                    assert(s[m + 1] == d[m]);
                }
            }
        }
    }
}

/// Sorting by area gives a list ordered by non-increasing area that holds exactly the same
/// thumbnails, each as often as before.
pub proof fn law_sort_by_area(s: Seq<ThumbView>)
    ensures
        descending_area(sort_by_area(s)),
        sort_by_area(s).to_multiset() == s.to_multiset(),
        sort_by_area(s).len() == s.len(),
    decreases s.len(),
{
    broadcast use vstd::seq_lib::group_seq_properties;
    broadcast use vstd::multiset::group_multiset_axioms;
    if s.len() > 0 {
        law_sort_by_area(s.drop_last());
        lemma_insert_keeps_order(sort_by_area(s.drop_last()), s.last());
        assert(s == s.drop_last().push(s.last()));
    }
}

} // verus!

verus! {

/// No text twice and no empty text.
pub open spec fn distinct_nonempty(s: Seq<Seq<char>>) -> bool {
    &&& forall|i: int, j: int| 0 <= i < j < s.len() ==> #[trigger] s[i] != #[trigger] s[j]
    &&& forall|i: int| 0 <= i < s.len() ==> (#[trigger] s[i]).len() > 0
}

proof fn lemma_push_new(list: Seq<Seq<char>>, u: Seq<char>)
    requires
        distinct_nonempty(list),
    ensures
        distinct_nonempty(push_new(list, u)),
        u.len() > 0 ==> push_new(list, u).contains(u),
        forall|x: Seq<char>| list.contains(x) ==> push_new(list, u).contains(x),
{
    if !list.contains(u) && u.len() > 0 {
        let r = list.push(u);
        assert forall|i: int, j: int| 0 <= i < j < r.len() implies #[trigger] r[i] != #[trigger] r[j] by {
            if j == list.len() {
                assert(r[i] == list[i]);
                assert(list.contains(list[i]));
            }
        }
        assert(r[list.len() as int] == u);
        assert forall|x: Seq<char>| list.contains(x) implies r.contains(x) by {
            let k = choose|k: int| 0 <= k < list.len() && list[k] == x;
            assert(r[k] == x);
        }
    }
}

proof fn lemma_push_new_urls(list: Seq<Seq<char>>, s: Seq<ThumbView>)
    requires
        distinct_nonempty(list),
    ensures
        distinct_nonempty(push_new_urls(list, s)),
        forall|x: Seq<char>| list.contains(x) ==> push_new_urls(list, s).contains(x),
        forall|i: int|
            0 <= i < s.len() && (#[trigger] s[i]).url.len() > 0 ==> push_new_urls(list, s).contains(
                s[i].url,
            ),
    decreases s.len(),
{
    if s.len() > 0 {
        let d = s.drop_last();
        lemma_push_new_urls(list, d);
        lemma_push_new(push_new_urls(list, d), s.last().url);
        assert forall|i: int| 0 <= i < s.len() && (#[trigger] s[i]).url.len() > 0 implies push_new_urls(
            list,
            s,
        ).contains(s[i].url) by {
            if i < s.len() - 1 {
                assert(d[i] == s[i]);
            }
        }
    }
}

proof fn lemma_largest_has_url(s: Seq<ThumbView>)
    ensures
        largest_thumb(s) matches Some(b) ==> b.url.len() > 0,
    decreases s.len(),
{
    if s.len() > 0 {
        lemma_largest_has_url(s.drop_last());
    }
}

/// What `largest_thumb` picks: a listed thumbnail with a URL, of the largest area among
/// those with a URL, and the last of them; none only when no thumbnail has a URL.
proof fn lemma_largest_is_last_max(s: Seq<ThumbView>)
    ensures
        (exists|j: int| 0 <= j < s.len() && (#[trigger] s[j]).url.len() > 0) ==> largest_thumb(s) is Some,
        largest_thumb(s) matches Some(b) ==> exists|i: int|
            0 <= i < s.len() && #[trigger] s[i] == b && b.url.len() > 0
                && (forall|j: int| 0 <= j < s.len() && (#[trigger] s[j]).url.len() > 0 ==> area(s[j]) <= area(b))
                && (forall|j: int| i < j < s.len() && (#[trigger] s[j]).url.len() > 0 ==> area(s[j]) < area(b)),
    decreases s.len(),
{
    if s.len() > 0 {
        let d = s.drop_last();
        lemma_largest_is_last_max(d);
        let t = s.last();
        let n = s.len() - 1;
        assert(s[n] == t);
        assert forall|j: int| 0 <= j < d.len() implies d[j] == s[j] by {}
        if exists|j: int| 0 <= j < s.len() && (#[trigger] s[j]).url.len() > 0 {
            if t.url.len() == 0 {
                let j = choose|j: int| 0 <= j < s.len() && (#[trigger] s[j]).url.len() > 0;
                assert(j < n);
                assert(d[j].url.len() > 0);
            }
        }
        match largest_thumb(s) {
            Some(b) => {
                if t.url.len() == 0 {
                    let i = choose|i: int|
                        0 <= i < d.len() && #[trigger] d[i] == b && b.url.len() > 0
                            && (forall|j: int| 0 <= j < d.len() && (#[trigger] d[j]).url.len() > 0 ==> area(d[j]) <= area(b))
                            && (forall|j: int| i < j < d.len() && (#[trigger] d[j]).url.len() > 0 ==> area(d[j]) < area(b));
                    assert(s[i] == b);
                    assert forall|j: int| 0 <= j < s.len() && (#[trigger] s[j]).url.len() > 0 implies area(s[j]) <= area(b) by {
                        if j < n {
                            assert(d[j] == s[j]);
                        }
                    }
                    assert forall|j: int| i < j < s.len() && (#[trigger] s[j]).url.len() > 0 implies area(s[j]) < area(b) by {
                        if j < n {
                            assert(d[j] == s[j]);
                        }
                    }
                } else {
                    match largest_thumb(d) {
                        None => {
                            assert(b == t);
                            assert forall|j: int| 0 <= j < s.len() && (#[trigger] s[j]).url.len() > 0 implies area(s[j]) <= area(b) by {
                                if j < n {
                                    assert(d[j] == s[j]);
                                    assert(d[j].url.len() > 0);
                                }
                            }
                            assert(s[n] == b);
                        },
                        Some(bd) => {
                            let i = choose|i: int|
                                0 <= i < d.len() && #[trigger] d[i] == bd && bd.url.len() > 0
                                    && (forall|j: int| 0 <= j < d.len() && (#[trigger] d[j]).url.len() > 0 ==> area(d[j]) <= area(bd))
                                    && (forall|j: int| i < j < d.len() && (#[trigger] d[j]).url.len() > 0 ==> area(d[j]) < area(bd));
                            if area(t) >= area(bd) {
                                assert(b == t);
                                assert(s[n] == b);
                                assert forall|j: int| 0 <= j < s.len() && (#[trigger] s[j]).url.len() > 0 implies area(s[j]) <= area(b) by {
                                    if j < n {
                                        assert(d[j] == s[j]);
                                    }
                                }
                            } else {
                                assert(b == bd);
                                assert(s[i] == b);
                                assert forall|j: int| 0 <= j < s.len() && (#[trigger] s[j]).url.len() > 0 implies area(s[j]) <= area(b) by {
                                    if j < n {
                                        assert(d[j] == s[j]);
                                    }
                                }
                                assert forall|j: int| i < j < s.len() && (#[trigger] s[j]).url.len() > 0 implies area(s[j]) < area(b) by {
                                    if j < n {
                                        assert(d[j] == s[j]);
                                    }
                                }
                            }
                        },
                    }
                }
            },
            None => {},
        }
    }
}

/// The preferred thumbnail is the largest one: when some listed thumbnail with a URL has
/// a positive area, the preferred URL is that of a listed thumbnail with a URL whose area
/// is at least that of every listed thumbnail with a URL, and no later one is as large.
pub proof fn law_preferred_is_largest(m: MediaView)
    requires
        exists|j: int| 0 <= j < m.thumbnails.len() && (#[trigger] m.thumbnails[j]).url.len() > 0 && area(m.thumbnails[j]) > 0,
    ensures
        thumbnail_url_of(m) matches Some(u) && exists|i: int|
            0 <= i < m.thumbnails.len() && (#[trigger] m.thumbnails[i]).url == u && u.len() > 0
                && (forall|j: int| 0 <= j < m.thumbnails.len() && (#[trigger] m.thumbnails[j]).url.len() > 0
                    ==> area(m.thumbnails[j]) <= area(m.thumbnails[i]))
                && (forall|j: int| i < j < m.thumbnails.len() && (#[trigger] m.thumbnails[j]).url.len() > 0
                    ==> area(m.thumbnails[j]) < area(m.thumbnails[i])),
{
    let ts = m.thumbnails;
    lemma_largest_is_last_max(ts);
    let j0 = choose|j: int| 0 <= j < ts.len() && (#[trigger] ts[j]).url.len() > 0 && area(ts[j]) > 0;
    let b = largest_thumb(ts)->0;
    let i = choose|i: int|
        0 <= i < ts.len() && #[trigger] ts[i] == b && b.url.len() > 0
            && (forall|j: int| 0 <= j < ts.len() && (#[trigger] ts[j]).url.len() > 0 ==> area(ts[j]) <= area(b))
            && (forall|j: int| i < j < ts.len() && (#[trigger] ts[j]).url.len() > 0 ==> area(ts[j]) < area(b));
    assert(area(ts[j0]) <= area(b));
    let w: nat = match b.width { Some(w) => w as nat, None => 0 };
    let h: nat = match b.height { Some(h) => h as nat, None => 0 };
    assert(area(b) == w * h);
    assert(w > 0) by (nonlinear_arith)
        requires
            w * h > 0,
    ;
    assert(b.width matches Some(x) && x > 0);
}

/// The thumbnail URLs to try never repeat a URL and never hold an empty one; the preferred
/// URL comes first, and every listed thumbnail with a URL is among them.
pub proof fn law_thumbnail_candidates(m: MediaView)
    ensures
        distinct_nonempty(thumbnail_candidates_of(m)),
        thumbnail_url_of(m) matches Some(u) ==> thumbnail_candidates_of(m).len() > 0
            && thumbnail_candidates_of(m)[0] == u,
        forall|i: int|
            0 <= i < m.thumbnails.len() && (#[trigger] m.thumbnails[i]).url.len() > 0
                ==> thumbnail_candidates_of(m).contains(m.thumbnails[i].url),
{
    broadcast use vstd::multiset::group_multiset_axioms;
    lemma_largest_has_url(m.thumbnails);
    let first: Seq<Seq<char>> = match thumbnail_url_of(m) {
        Some(u) => seq![u],
        None => Seq::empty(),
    };
    let second = match m.thumbnail {
        Some(t) => push_new(first, t),
        None => first,
    };
    if let Some(t) = m.thumbnail {
        lemma_push_new(first, t);
    }
    let sorted = sort_by_area(m.thumbnails);
    lemma_push_new_urls(second, sorted);
    law_sort_by_area(m.thumbnails);
    if let Some(u) = thumbnail_url_of(m) {
        assert(first.contains(u)) by {
            assert(first[0] == u);
        }
        assert(second.contains(u));
        // the first element never moves: lists only grow at the end
        lemma_prefix_kept(first, m.thumbnail, sorted);
    }
    assert forall|i: int|
        0 <= i < m.thumbnails.len() && (#[trigger] m.thumbnails[i]).url.len() > 0 implies thumbnail_candidates_of(
        m,
    ).contains(m.thumbnails[i].url) by {
        let t = m.thumbnails[i];
        broadcast use vstd::seq_lib::group_to_multiset_ensures;
        assert(m.thumbnails.contains(t));
        assert(m.thumbnails.to_multiset().count(t) > 0);
        assert(sorted.to_multiset().count(t) > 0);
        assert(sorted.contains(t));
        let k = choose|k: int| 0 <= k < sorted.len() && sorted[k] == t;
        assert(sorted[k].url.len() > 0);
    }
}

/// A URL that the media lists: a listed thumbnail's URL or the single `thumbnail` field.
pub open spec fn listed_url(m: MediaView, x: Seq<char>) -> bool {
    (exists|i: int| 0 <= i < m.thumbnails.len() && (#[trigger] m.thumbnails[i]).url == x)
        || m.thumbnail == Some(x)
}

proof fn lemma_largest_in(s: Seq<ThumbView>)
    ensures
        largest_thumb(s) matches Some(b) ==> s.contains(b),
    decreases s.len(),
{
    if s.len() > 0 {
        lemma_largest_in(s.drop_last());
        if let Some(b) = largest_thumb(s.drop_last()) {
            let k = choose|k: int| 0 <= k < s.drop_last().len() && s.drop_last()[k] == b;
            assert(s[k] == b);
        }
        assert(s[s.len() - 1] == s.last());
    }
}

proof fn lemma_push_new_urls_subset(list: Seq<Seq<char>>, s: Seq<ThumbView>)
    ensures
        forall|x: Seq<char>|
            #[trigger] push_new_urls(list, s).contains(x) ==> list.contains(x) || exists|i: int|
                0 <= i < s.len() && (#[trigger] s[i]).url == x,
    decreases s.len(),
{
    if s.len() > 0 {
        let d = s.drop_last();
        lemma_push_new_urls_subset(list, d);
        let r = push_new_urls(list, d);
        assert forall|x: Seq<char>| #[trigger] push_new_urls(list, s).contains(x) implies list.contains(x)
            || exists|i: int| 0 <= i < s.len() && (#[trigger] s[i]).url == x by {
            if x == s.last().url {
                assert(s[s.len() - 1].url == x);
            } else {
                assert(push_new(r, s.last().url) == r || push_new(r, s.last().url) == r.push(s.last().url));
                if push_new(r, s.last().url) != r {
                    let k = choose|k: int| 0 <= k < r.push(s.last().url).len() && r.push(s.last().url)[k] == x;
                    assert(r[k] == x);
                }
                assert(r.contains(x));
                if !list.contains(x) {
                    let i = choose|i: int| 0 <= i < d.len() && (#[trigger] d[i]).url == x;
                    assert(s[i] == d[i]);
                }
            }
        }
    }
}

/// Every URL to try is one the media lists, and a non-empty single `thumbnail` field is
/// among them.
pub proof fn law_thumbnail_candidates_complete(m: MediaView)
    ensures
        m.thumbnail matches Some(t) ==> (t.len() > 0 ==> thumbnail_candidates_of(m).contains(t)),
        forall|x: Seq<char>| #[trigger] thumbnail_candidates_of(m).contains(x) ==> listed_url(m, x),
{
    broadcast use vstd::multiset::group_multiset_axioms;
    broadcast use vstd::seq_lib::group_to_multiset_ensures;
    let first: Seq<Seq<char>> = match thumbnail_url_of(m) {
        Some(u) => seq![u],
        None => Seq::empty(),
    };
    let second = match m.thumbnail {
        Some(t) => push_new(first, t),
        None => first,
    };
    let sorted = sort_by_area(m.thumbnails);
    law_sort_by_area(m.thumbnails);
    lemma_largest_has_url(m.thumbnails);
    lemma_largest_in(m.thumbnails);
    assert(distinct_nonempty(first));
    if let Some(t) = m.thumbnail {
        lemma_push_new(first, t);
    }
    lemma_push_new_urls(second, sorted);
    lemma_push_new_urls_subset(second, sorted);
    assert forall|x: Seq<char>| #[trigger] first.contains(x) implies listed_url(m, x) by {
        assert(first[0] == x);
        let ts = m.thumbnails;
        match largest_thumb(ts) {
            Some(b) => {
                if b.width matches Some(w) && w > 0 {
                    let k = choose|k: int| 0 <= k < ts.len() && ts[k] == b;
                    assert(ts[k].url == x);
                } else if ts.len() > 0 && ts.last().url.len() > 0 {
                    assert(ts[ts.len() - 1].url == x);
                }
            },
            None => {
                if ts.len() > 0 && ts.last().url.len() > 0 {
                    assert(ts[ts.len() - 1].url == x);
                }
            },
        }
    }
    assert forall|x: Seq<char>| #[trigger] second.contains(x) implies listed_url(m, x) by {
        if let Some(t) = m.thumbnail {
            if x != t && push_new(first, t) != first {
                let k = choose|k: int| 0 <= k < first.push(t).len() && first.push(t)[k] == x;
                assert(first[k] == x);
                assert(first.contains(x));
            }
        }
    }
    assert forall|x: Seq<char>| #[trigger] thumbnail_candidates_of(m).contains(x) implies listed_url(m, x) by {
        if !second.contains(x) {
            let i = choose|i: int| 0 <= i < sorted.len() && (#[trigger] sorted[i]).url == x;
            let t = sorted[i];
            assert(sorted.contains(t));
            assert(sorted.to_multiset().count(t) > 0);
            assert(m.thumbnails.to_multiset().count(t) > 0);
            assert(m.thumbnails.contains(t));
            let k = choose|k: int| 0 <= k < m.thumbnails.len() && m.thumbnails[k] == t;
            assert(m.thumbnails[k].url == x);
        }
    }
}

proof fn lemma_push_new_urls_prefix(list: Seq<Seq<char>>, s: Seq<ThumbView>)
    ensures
        push_new_urls(list, s).len() >= list.len(),
        forall|i: int| 0 <= i < list.len() ==> push_new_urls(list, s)[i] == list[i],
    decreases s.len(),
{
    if s.len() > 0 {
        lemma_push_new_urls_prefix(list, s.drop_last());
    }
}

proof fn lemma_prefix_kept(first: Seq<Seq<char>>, thumb: Option<Seq<char>>, sorted: Seq<ThumbView>)
    requires
        first.len() == 1,
    ensures
        ({
            let second = match thumb {
                Some(t) => push_new(first, t),
                None => first,
            };
            push_new_urls(second, sorted).len() > 0 && push_new_urls(second, sorted)[0] == first[0]
        }),
{
    let second = match thumb {
        Some(t) => push_new(first, t),
        None => first,
    };
    assert(second.len() >= 1 && second[0] == first[0]);
    lemma_push_new_urls_prefix(second, sorted);
}

proof fn lemma_dedup(s: Seq<ThumbView>)
    ensures
        distinct_nonempty(urls(dedup_by_url(s))),
        forall|i: int|
            0 <= i < s.len() && (#[trigger] s[i]).url.len() > 0 ==> urls(dedup_by_url(s)).contains(
                s[i].url,
            ),
    decreases s.len(),
{
    if s.len() > 0 {
        let d = s.drop_last();
        lemma_dedup(d);
        let r = dedup_by_url(d);
        let t = s.last();
        assert(urls(r.push(t)) == urls(r).push(t.url));
        if t.url.len() > 0 && !urls(r).contains(t.url) {
            lemma_push_new(urls(r), t.url);
        }
        assert forall|i: int| 0 <= i < s.len() && (#[trigger] s[i]).url.len() > 0 implies urls(
            dedup_by_url(s),
        ).contains(s[i].url) by {
            if i < s.len() - 1 {
                assert(d[i] == s[i]);
                if t.url.len() > 0 && !urls(r).contains(t.url) {
                    lemma_push_new(urls(r), t.url);
                }
            }
        }
    }
}

/// The selectable thumbnails never repeat a URL and never have an empty one, and every
/// listed thumbnail with a URL, as well as a non-empty single `thumbnail` field, is
/// represented.
pub proof fn law_unique_thumbnails(m: MediaView)
    ensures
        distinct_nonempty(urls(unique_thumbnails_of(m))),
        forall|i: int|
            0 <= i < m.thumbnails.len() && (#[trigger] m.thumbnails[i]).url.len() > 0
                ==> urls(unique_thumbnails_of(m)).contains(m.thumbnails[i].url),
        (m.thumbnail matches Some(u) && u.len() > 0) ==> urls(unique_thumbnails_of(m)).contains(
            m.thumbnail->0,
        ),
{
    broadcast use vstd::multiset::group_multiset_axioms;
    let sorted = sort_by_area(m.thumbnails);
    law_sort_by_area(m.thumbnails);
    lemma_dedup(sorted);
    let r = dedup_by_url(sorted);
    if let Some(u) = m.thumbnail {
        if u.len() > 0 && !urls(r).contains(u) {
            lemma_push_new(urls(r), u);
            assert(urls(r.push(default_thumb(u))) == urls(r).push(u));
        }
    }
    assert forall|i: int|
        0 <= i < m.thumbnails.len() && (#[trigger] m.thumbnails[i]).url.len() > 0 implies urls(
        unique_thumbnails_of(m),
    ).contains(m.thumbnails[i].url) by {
        let t = m.thumbnails[i];
        broadcast use vstd::seq_lib::group_to_multiset_ensures;
        assert(m.thumbnails.contains(t));
        assert(m.thumbnails.to_multiset().count(t) > 0);
        assert(sorted.to_multiset().count(t) > 0);
        assert(sorted.contains(t));
        let k = choose|k: int| 0 <= k < sorted.len() && sorted[k] == t;
        assert(sorted[k].url.len() > 0);
        assert(urls(r).contains(t.url));
        if let Some(u) = m.thumbnail {
            if u.len() > 0 && !urls(r).contains(u) {
                lemma_push_new(urls(r), u);
                assert(urls(r.push(default_thumb(u))) == urls(r).push(u));
            }
        }
    }
}

} // verus!
