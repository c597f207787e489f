//! Texts and layout of the main screen.
use vstd::prelude::*;
use vstd::string::*;
use crate::text::{chars_of, concat2, concat3, decimal, string_from_chars, u64_to_decimal};
use crate::ytdlp::download::{AudioFormat, DownloadMode};
use crate::ytdlp::models::MediaInfo;

verus! {

/// Columns a character takes in the track list: two for anything beyond ASCII, else one.
pub open spec fn char_width(c: char) -> nat {
    if (c as u32) > 0x7f {
        2
    } else {
        1
    }
}

/// Columns a text takes (see [`char_width`]).
pub open spec fn display_width(s: Seq<char>) -> nat
    decreases s.len(),
{
    if s.len() == 0 {
        0
    } else {
        display_width(s.drop_last()) + char_width(s.last())
    }
}

/// The length of the longest prefix of `s` that fits in `max` columns.
pub open spec fn fit_len(s: Seq<char>, max: int) -> nat
    decreases s.len(),
{
    if s.len() == 0 || display_width(s) <= max {
        s.len()
    } else {
        fit_len(s.drop_last(), max)
    }
}

/// A longer prefix is at least as wide.
pub proof fn lemma_width_monotone(s: Seq<char>, i: int, j: int)
    requires
        0 <= i <= j <= s.len(),
    ensures
        display_width(s.take(i)) <= display_width(s.take(j)),
    decreases j - i,
{
    if i < j {
        lemma_width_monotone(s, i, j - 1);
        assert(s.take(j).drop_last() == s.take(j - 1));
    }
}

/// The prefix that fits, characterised: it fits and the next character would not.
proof fn lemma_fit_len(s: Seq<char>, max: int, k: int)
    requires
        0 <= k <= s.len(),
        display_width(s.take(k)) <= max,
        k < s.len() ==> display_width(s.take(k + 1)) > max,
    ensures
        fit_len(s, max) == k,
    decreases s.len(),
{
    if s.len() == 0 {
    } else if k == s.len() {
        assert(s.take(k) == s);
    } else {
        lemma_width_monotone(s, k + 1, s.len() as int);
        assert(s.take(s.len() as int) == s);
        assert(s.drop_last().take(k) == s.take(k));
        if k + 1 <= s.len() - 1 {
            assert(s.drop_last().take(k + 1) == s.take(k + 1));
        }
        lemma_fit_len(s.drop_last(), max, k);
    }
}

/// The columns of one character.
fn char_width_exec(c: char) -> (r: usize)
    ensures
        r == char_width(c),
{
    if (c as u32) > 0x7f {
        2
    } else {
        1
    }
}

/// The columns a text takes (see [`display_width`]).
pub fn str_display_width(s: &str) -> (r: usize)
    requires
        display_width(s@) <= usize::MAX,
    ensures
        r == display_width(s@),
{
    let v = chars_of(s);
    let mut w: usize = 0;
    let mut i: usize = 0;
    while i < v.len()
        invariant
            i <= v.len(),
            v@ == s@,
            w == display_width(v@.take(i as int)),
            display_width(v@) <= usize::MAX,
        decreases v.len() - i,
    {
        assert(v@.take(i + 1).drop_last() == v@.take(i as int));
        proof {
            lemma_width_monotone(v@, i + 1, v.len() as int);
            assert(v@.take(v.len() as int) == v@);
        }
        w = w + char_width_exec(v[i]);
        i += 1;
    }
    assert(v@.take(v.len() as int) == v@);
    w
}

/// Whether a text fits in `max` columns, without adding up more than `max`.
pub fn fits_width(s: &str, max: usize) -> (r: bool)
    ensures
        r == (display_width(s@) <= max),
{
    let v = chars_of(s);
    let mut w: usize = 0;
    let mut i: usize = 0;
    while i < v.len()
        invariant
            i <= v.len(),
            v@ == s@,
            w == display_width(v@.take(i as int)),
            w <= max,
        decreases v.len() - i,
    {
        assert(v@.take(i + 1).drop_last() == v@.take(i as int));
        let cw = char_width_exec(v[i]);
        if cw > max - w {
            proof {
                lemma_width_monotone(v@, i + 1, v.len() as int);
                assert(v@.take(v.len() as int) == v@);
            }
            return false;
        }
        w = w + cw;
        i += 1;
    }
    assert(v@.take(v.len() as int) == v@);
    true
}

/// The longest prefix of a text that fits in `max_width` columns.
pub fn truncate_to_display_width(s: &str, max_width: usize) -> (r: String)
    ensures
        r@ == s@.take(fit_len(s@, max_width as int) as int),
        display_width(r@) <= max_width,
        r@.len() < s@.len() ==> display_width(s@.take(r@.len() + 1 as int)) > max_width,
{
    let v = chars_of(s);
    let mut w: usize = 0;
    let mut i: usize = 0;
    while i < v.len()
        invariant
            i <= v.len(),
            v@ == s@,
            w == display_width(v@.take(i as int)),
            w <= max_width,
        ensures
            i <= v.len(),
            v@ == s@,
            display_width(v@.take(i as int)) <= max_width,
            i < v.len() ==> display_width(v@.take(i + 1)) > max_width,
        decreases v.len() - i,
    {
        assert(v@.take(i + 1).drop_last() == v@.take(i as int));
        let cw = char_width_exec(v[i]);
        if cw > max_width - w {
            break;
        }
        w = w + cw;
        i += 1;
    }
    let out = slice_prefix(&v, i);
    proof {
        lemma_fit_len(s@, max_width as int, i as int);
    }
    string_from_chars(&out)
}

/// The first `n` characters.
fn slice_prefix(v: &Vec<char>, n: usize) -> (r: Vec<char>)
    requires
        n <= v.len(),
    ensures
        r@ == v@.take(n as int),
{
    let mut out: Vec<char> = Vec::new();
    let mut i: usize = 0;
    while i < n
        invariant
            i <= n <= v.len(),
            out@ == v@.take(i as int),
        decreases n - i,
    {
        out.push(v[i]);
        assert(v@.take(i as int).push(v@[i as int]) == v@.take(i + 1));
        i += 1;
    }
    out
}


/// `a - b`, or 0 when `b` is larger (`usize::saturating_sub`).
pub open spec fn sat_sub(a: int, b: int) -> int {
    if a > b {
        a - b
    } else {
        0
    }
}

/// A track number padded to two places, as `{:2}` prints it.
pub open spec fn num_label(n: nat) -> Seq<char> {
    if n < 10 {
        " "@ + decimal(n)
    } else {
        decimal(n)
    }
}

/// A title in at most `max_w` columns: unchanged when it fits, else cut to `max_w - 2`
/// columns and followed by `..`.
pub open spec fn fitted_title(t: Seq<char>, max_w: int) -> Seq<char> {
    if display_width(t) > max_w {
        t.take(fit_len(t, sat_sub(max_w, 2)) as int) + ".."@
    } else {
        t
    }
}

/// One entry of the track list: its number, its (possibly shortened) title, and the blanks
/// that follow it to fill its column.
#[derive(Debug, Clone)]
pub struct TrackCell {
    pub number: String,
    pub title: String,
    pub pad: usize,
}

/// Mathematical view of a [`TrackCell`].
pub struct CellView {
    pub number: Seq<char>,
    pub title: Seq<char>,
    pub pad: nat,
}

impl View for TrackCell {
    type V = CellView;

    open spec fn view(&self) -> CellView {
        CellView { number: self.number@, title: self.title@, pad: self.pad as nat }
    }
}

/// Views of the cells of a row.
pub open spec fn cells_view(v: Seq<TrackCell>) -> Seq<CellView> {
    v.map_values(|c: TrackCell| c@)
}

/// Views of the rows of a track list.
pub open spec fn rows_view(v: Seq<Vec<TrackCell>>) -> Seq<Seq<CellView>> {
    v.map_values(|r: Vec<TrackCell>| cells_view(r@))
}

/// A cell of the two-column list for track `idx` (from 0) in a column `col` wide; the left
/// column is padded to its width.
pub open spec fn two_col_cell(idx: nat, title: Seq<char>, col: int, padded: bool) -> CellView {
    let number = " "@ + num_label(idx + 1) + ". "@;
    let t = fitted_title(title, sat_sub(col, (number.len() + 1) as int));
    CellView {
        number,
        title: t,
        pad: if padded {
            sat_sub(col, (number.len() + display_width(t)) as int) as nat
        } else {
            0
        },
    }
}

/// A cell of the one-column list for track `idx` (from 0) in `width` columns.
pub open spec fn one_col_cell(idx: nat, title: Seq<char>, width: int) -> CellView {
    let number = "   "@ + num_label(idx + 1) + ". "@;
    CellView { number, title: fitted_title(title, sat_sub(width, (number.len() + 2) as int)), pad: 0 }
}

/// The lines left for tracks: those under the lines already used, at least 6.
pub open spec fn avail_lines(height: nat, used: nat) -> nat {
    let left = sat_sub(height as int, used as int);
    if left > 6 {
        left as nat
    } else {
        6
    }
}

/// Two columns when the area is at least 52 wide and there are more than 5 tracks.
pub open spec fn two_columns(width: nat, total: nat) -> bool {
    width >= 52 && total > 5
}

/// The rows of the track list. In two columns, track `r` is on row `r` at the left and
/// track `r + ⌈n/2⌉` at its right; as many rows are shown as fit.
pub open spec fn track_rows(tracks: Seq<Seq<char>>, width: nat, avail: nat) -> Seq<Seq<CellView>> {
    let total = tracks.len();
    if two_columns(width, total) {
        let col = sat_sub(width as int, 2) / 2;
        let needed = (total + 1) / 2;
        let shown = if needed < avail { needed } else { avail };
        Seq::new(
            shown,
            |r: int|
                if r + needed < total {
                    seq![
                        two_col_cell(r as nat, tracks[r], col, true),
                        two_col_cell((r + needed) as nat, tracks[r + needed], col, false),
                    ]
                } else {
                    seq![two_col_cell(r as nat, tracks[r], col, true)]
                },
        )
    } else {
        let shown = if avail < total { avail } else { total };
        Seq::new(shown, |r: int| seq![one_col_cell(r as nat, tracks[r], width as int)])
    }
}

/// The number of tracks named in the closing `... and N more tracks` line (0: no line).
pub open spec fn tracks_more(total: nat, width: nat, avail: nat) -> nat {
    if two_columns(width, total) {
        let needed = (total + 1) / 2;
        let shown = if needed < avail { needed } else { avail };
        sat_sub(total as int, (shown * 2) as int) as nat
    } else {
        let shown = if avail < total { avail } else { total };
        (total - shown) as nat
    }
}

/// The layout of a track list.
pub struct TrackListLayout {
    pub rows: Vec<Vec<TrackCell>>,
    /// How many tracks the closing line names; 0 when there is no closing line.
    pub more: usize,
}

/// `{:2}` of a track number.
fn num_label_exec(n: usize) -> (r: String)
    ensures
        r@ == num_label(n as nat),
{
    let d = u64_to_decimal(n as u64);
    if n < 10 {
        concat2(" ", d.as_str())
    } else {
        d
    }
}

/// A title fitted in `max_w` columns (see [`fitted_title`]), with its width.
fn fit_title(title: &str, max_w: usize) -> (r: (String, usize))
    ensures
        r.0@ == fitted_title(title@, max_w as int),
        r.1 == display_width(r.0@),
{
    if fits_width(title, max_w) {
        let w = str_display_width(title);
        (String::from_str(title), w)
    } else {
        let cut = if max_w >= 2 { max_w - 2 } else { 0 };
        let t = truncate_to_display_width(title, cut);
        let tw = str_display_width(t.as_str());
        let out = concat2(t.as_str(), "..");
        proof {
            lemma_width_append_dots(t@);
        }
        (out, tw + 2)
    }
}

/// Two dots add two columns.
proof fn lemma_width_append_dots(t: Seq<char>)
    ensures
        display_width(t + ".."@) == display_width(t) + 2,
{
    reveal_strlit("..");
    let a = t.push('.');
    let b = a.push('.');
    assert(".."@ =~= seq!['.', '.']);
    assert(t + ".."@ =~= b);
    assert(b.drop_last() =~= a);
    assert(a.drop_last() =~= t);
    assert(('.' as u32) == 46u32);
    assert(display_width(a) == display_width(t) + char_width('.'));
    assert(display_width(b) == display_width(a) + char_width('.'));
}

/// A cell of the two-column list (see [`two_col_cell`]).
fn two_col_cell_exec(idx: usize, title: &str, col: usize, padded: bool) -> (r: TrackCell)
    requires
        idx < usize::MAX,
    ensures
        r@ == two_col_cell(idx as nat, title@, col as int, padded),
{
    let lbl = num_label_exec(idx + 1);
    let number = concat3(" ", lbl.as_str(), ". ");
    let nw = number.as_str().unicode_len();
    let max_w = if nw < col && col - nw > 1 { col - nw - 1 } else { 0 };
    let (t, tw) = fit_title(title, max_w);
    let pad = if padded {
        if nw < col && col - nw > tw { col - nw - tw } else { 0 }
    } else {
        0
    };
    TrackCell { number, title: t, pad }
}


/// A cell of the one-column list (see [`one_col_cell`]).
fn one_col_cell_exec(idx: usize, title: &str, width: usize) -> (r: TrackCell)
    requires
        idx < usize::MAX,
    ensures
        r@ == one_col_cell(idx as nat, title@, width as int),
{
    let lbl = num_label_exec(idx + 1);
    let number = concat3("   ", lbl.as_str(), ". ");
    let nw = number.as_str().unicode_len();
    let max_w = if nw < width && width - nw > 2 { width - nw - 2 } else { 0 };
    let (t, _tw) = fit_title(title, max_w);
    TrackCell { number, title: t, pad: 0 }
}

/// Lays out a track list in an area `width` columns wide and `height` lines high of which
/// `used` lines are taken (see [`track_rows`] and [`tracks_more`]).
pub fn track_list_layout(tracks: &Vec<String>, width: usize, height: usize, used: usize) -> (r: TrackListLayout)
    ensures
        rows_view(r.rows@) == track_rows(
            tracks.deep_view(),
            width as nat,
            avail_lines(height as nat, used as nat),
        ),
        r.more == tracks_more(tracks.len() as nat, width as nat, avail_lines(height as nat, used as nat)),
{
    let ghost ts = tracks.deep_view();
    let total = tracks.len();
    let left = if height > used { height - used } else { 0 };
    let avail = if left > 6 { left } else { 6 };
    let ghost want = track_rows(ts, width as nat, avail as nat);
    assert(avail as nat == avail_lines(height as nat, used as nat));
    let mut rows: Vec<Vec<TrackCell>> = Vec::new();
    let more: usize;
    if width >= 52 && total > 5 {
        let col = (width - 2) / 2;
        let needed = total / 2 + total % 2;
        assert(needed == (total + 1) / 2);
        let shown = if needed < avail { needed } else { avail };
        let mut r: usize = 0;
        while r < shown
            invariant
                ts == tracks.deep_view(),
                total == tracks.len(),
                width >= 52 && total > 5,
                col == (width - 2) / 2,
                needed == (total + 1) / 2,
                shown <= needed,
                needed <= total,
                want == track_rows(ts, width as nat, avail as nat),
                want.len() == shown,
                r <= shown,
                rows@.len() == r,
                forall|k: int| 0 <= k < r ==> cells_view(#[trigger] rows@[k]@) == want[k],
            decreases shown - r,
        {
            let mut row: Vec<TrackCell> = Vec::new();
            let a = two_col_cell_exec(r, tracks[r].as_str(), col, true);
            row.push(a);
            if needed < total - r {
                let b = two_col_cell_exec(r + needed, tracks[r + needed].as_str(), col, false);
                row.push(b);
                assert(cells_view(row@) =~= seq![a@, b@]);
            } else {
                assert(cells_view(row@) =~= seq![a@]);
            }
            rows.push(row);
            r += 1;
        }
        more = if total - shown > shown { total - shown - shown } else { 0 };
    } else {
        let shown = if avail < total { avail } else { total };
        let mut r: usize = 0;
        while r < shown
            invariant
                ts == tracks.deep_view(),
                total == tracks.len(),
                !(width >= 52 && total > 5),
                shown <= total,
                want == track_rows(ts, width as nat, avail as nat),
                want.len() == shown,
                r <= shown,
                rows@.len() == r,
                forall|k: int| 0 <= k < r ==> cells_view(#[trigger] rows@[k]@) == want[k],
            decreases shown - r,
        {
            let mut row: Vec<TrackCell> = Vec::new();
            let a = one_col_cell_exec(r, tracks[r].as_str(), width);
            row.push(a);
            assert(cells_view(row@) =~= seq![a@]);
            rows.push(row);
            r += 1;
        }
        more = total - shown;
    }
    assert(rows_view(rows@) =~= want);
    TrackListLayout { rows, more }
}


/// The spinner's frames.
pub open spec fn spinner_frames() -> Seq<Seq<char>> {
    seq!["⠋"@, "⠙"@, "⠹"@, "⠸"@, "⠼"@, "⠴"@, "⠦"@, "⠧"@, "⠇"@, "⠏"@]
}

/// The spinner's frame for a frame counter (cycling through ten frames).
pub fn spinner_char(frame: usize) -> (r: &'static str)
    ensures
        r@ == spinner_frames()[(frame % 10) as int],
{
    let i = frame % 10;
    if i == 0 { "⠋" } else if i == 1 { "⠙" } else if i == 2 { "⠹" } else if i == 3 { "⠸" }
    else if i == 4 { "⠼" } else if i == 5 { "⠴" } else if i == 6 { "⠦" } else if i == 7 { "⠧" }
    else if i == 8 { "⠇" } else { "⠏" }
}

/// The title of the URL bar.
pub fn url_bar_title(editing: bool) -> (r: &'static str)
    ensures
        r@ == if editing {
            " [URL Input Mode: Type URL and press Enter to inspect, Esc to cancel] "@
        } else {
            " URL (Press 'u' or '/' to edit, 'v' to paste from clipboard) "@
        },
{
    if editing {
        " [URL Input Mode: Type URL and press Enter to inspect, Esc to cancel] "
    } else {
        " URL (Press 'u' or '/' to edit, 'v' to paste from clipboard) "
    }
}

/// The text of the URL bar: a hint when no URL is typed, else the URL, with a block cursor
/// while editing.
pub fn url_bar_text(url: &str, editing: bool) -> (r: String)
    ensures
        r@ == if url@.len() == 0 {
            " https://www.youtube.com/watch?v=... (Press 'v' to paste)"@
        } else if editing {
            " "@ + url@ + "█"@
        } else {
            " "@ + url@
        },
{
    if url.unicode_len() == 0 {
        String::from_str(" https://www.youtube.com/watch?v=... (Press 'v' to paste)")
    } else if editing {
        concat3(" ", url, "█")
    } else {
        concat2(" ", url)
    }
}

/// The title of the information panel: it names albums and playlists.
pub fn info_title(media: &Option<MediaInfo>) -> (r: &'static str)
    ensures
        r@ == if media matches Some(m) && m.playlist_count is Some {
            " ℹ️ Media Information (Album / Playlist) "@
        } else {
            " ℹ️ Media Information "@
        },
{
    match media {
        Some(m) => if m.playlist_count.is_some() {
            " ℹ️ Media Information (Album / Playlist) "
        } else {
            " ℹ️ Media Information "
        },
        None => " ℹ️ Media Information ",
    }
}

/// The album line of an album or playlist: its name (album, else playlist title, else a
/// generic word) and its number of tracks. None for a single item.
pub fn album_text(info: &MediaInfo) -> (r: Option<String>)
    ensures
        match info.playlist_count {
            Some(n) => r matches Some(t) && t@ == match info.album {
                Some(a) => a@,
                None => match info.playlist_title {
                    Some(p) => p@,
                    None => "Album/Playlist"@,
                },
            } + " ("@ + decimal(n as nat) + " Tracks)"@,
            None => r is None,
        },
{
    match info.playlist_count {
        Some(n) => {
            let name: &str = match &info.album {
                Some(a) => a.as_str(),
                None => match &info.playlist_title {
                    Some(p) => p.as_str(),
                    None => "Album/Playlist",
                },
            };
            let count = u64_to_decimal(n as u64);
            let mut t = concat3(name, " (", count.as_str());
            t.append(" Tracks)");
            Some(t)
        },
        None => None,
    }
}

/// The duration line: the formatted duration and the upload date (or `Unknown`).
pub fn duration_line(duration: &str, upload_date: &Option<String>) -> (r: String)
    ensures
        r@ == duration@ + "  (Uploaded: "@ + match upload_date {
            Some(d) => d@,
            None => "Unknown"@,
        } + ")"@,
{
    let d: &str = match upload_date {
        Some(d) => d.as_str(),
        None => "Unknown",
    };
    let mut t = concat3(duration, "  (Uploaded: ", d);
    t.append(")");
    t
}

/// The artwork count: `N candidates `.
pub fn artwork_text(count: usize) -> (r: String)
    ensures
        r@ == decimal(count as nat) + " candidates "@,
{
    let n = u64_to_decimal(count as u64);
    concat2(n.as_str(), " candidates ")
}

/// The stream count: `N available (Press 'F' to pick)`.
pub fn streams_text(count: usize) -> (r: String)
    ensures
        r@ == decimal(count as nat) + " available (Press 'F' to pick)"@,
{
    let n = u64_to_decimal(count as u64);
    concat2(n.as_str(), " available (Press 'F' to pick)")
}

/// What a download will fetch: the picked streams (`None` for a side not picked), or the
/// automatic best quality when none was picked.
pub fn download_choice_text(video: &Option<String>, audio: &Option<String>) -> (r: String)
    ensures
        r@ == if video is None && audio is None {
            "Automatic Best Quality (Press Enter to start)"@
        } else {
            "Custom [Video: "@ + match video {
                Some(v) => v@,
                None => "None"@,
            } + ", Audio: "@ + match audio {
                Some(a) => a@,
                None => "None"@,
            } + "]"@
        },
{
    if video.is_none() && audio.is_none() {
        return String::from_str("Automatic Best Quality (Press Enter to start)");
    }
    let v: &str = match video {
        Some(v) => v.as_str(),
        None => "None",
    };
    let a: &str = match audio {
        Some(a) => a.as_str(),
        None => "None",
    };
    let mut t = concat3("Custom [Video: ", v, ", Audio: ");
    t.append(a);
    t.append("]");
    t
}

/// The header of the track list: `(Total N tracks)`.
pub fn track_total_text(total: usize) -> (r: String)
    ensures
        r@ == "(Total "@ + decimal(total as nat) + " tracks)"@,
{
    let n = u64_to_decimal(total as u64);
    concat3("(Total ", n.as_str(), " tracks)")
}

/// The closing line of a shortened track list.
pub fn more_tracks_text(more: usize) -> (r: String)
    ensures
        r@ == "   ... and "@ + decimal(more as nat) + " more tracks"@,
{
    let n = u64_to_decimal(more as u64);
    concat3("   ... and ", n.as_str(), " more tracks")
}

/// The label of a download mode in the mode selector.
pub open spec fn mode_label_of(m: DownloadMode) -> Seq<char> {
    match m {
        DownloadMode::Video => "🎬 Video (Max Res)"@,
        DownloadMode::Audio => "🎵 Audio (Picard Tagging)"@,
        DownloadMode::ThumbnailOnly => "🖼️ Thumbnail Only"@,
        DownloadMode::CustomFormats { .. } => "🔍 Custom Streams (-F)"@,
    }
}

/// The label of a download mode (see [`mode_label_of`]).
pub fn mode_label(m: &DownloadMode) -> (r: &'static str)
    ensures
        r@ == mode_label_of(*m),
{
    match m {
        DownloadMode::Video => "🎬 Video (Max Res)",
        DownloadMode::Audio => "🎵 Audio (Picard Tagging)",
        DownloadMode::ThumbnailOnly => "🖼️ Thumbnail Only",
        DownloadMode::CustomFormats { .. } => "🔍 Custom Streams (-F)",
    }
}

/// The audio selector's text: the format's name in capitals and the quality.
pub fn audio_format_text(f: AudioFormat) -> (r: &'static str)
    ensures
        r@ == match f {
            AudioFormat::Mp3 => " MP3 (320k/Best + Metadata)"@,
            AudioFormat::Flac => " FLAC (320k/Best + Metadata)"@,
            AudioFormat::Opus => " OPUS (320k/Best + Metadata)"@,
            AudioFormat::M4a => " M4A (320k/Best + Metadata)"@,
        },
{
    match f {
        AudioFormat::Mp3 => " MP3 (320k/Best + Metadata)",
        AudioFormat::Flac => " FLAC (320k/Best + Metadata)",
        AudioFormat::Opus => " OPUS (320k/Best + Metadata)",
        AudioFormat::M4a => " M4A (320k/Best + Metadata)",
    }
}

/// The destination's bookmark label: its number (from 1) and name (`Custom` when the index
/// is past the bookmarks).
pub fn bookmark_label(index: usize, name: Option<&str>) -> (r: String)
    requires
        index < usize::MAX,
    ensures
        r@ == " ["@ + decimal(index as nat + 1) + "] 📂 "@ + match name {
            Some(n) => n@,
            None => "Custom"@,
        } + " "@,
{
    let n = u64_to_decimal((index + 1) as u64);
    let nm: &str = match name {
        Some(s) => s,
        None => "Custom",
    };
    let mut t = concat3(" [", n.as_str(), "] 📂 ");
    t.append(nm);
    t.append(" ");
    t
}

/// The value of a run of ASCII digits.
pub open spec fn digits_value(d: Seq<char>) -> nat
    decreases d.len(),
{
    if d.len() == 0 {
        0
    } else {
        digits_value(d.drop_last()) * 10 + ((d.last() as u32) - ('0' as u32)) as nat
    }
}

/// The number of ASCII digits at the start of a text.
pub open spec fn lead_digits(s: Seq<char>) -> nat
    decreases s.len(),
{
    if s.len() == 0 || !('0' <= s[0] && s[0] <= '9') {
        0
    } else {
        1 + lead_digits(s.drop_first())
    }
}

/// The whole percent shown by the gauge: the integer part of the percentage text, at most
/// 100 (what clamping the number to 0..=100 and truncating gives for decimal text).
pub open spec fn gauge_value(percent: Seq<char>) -> nat {
    let v = digits_value(percent.take(lead_digits(percent) as int));
    if v > 100 {
        100
    } else {
        v
    }
}

proof fn lemma_lead_digits_stop(s: Seq<char>, i: int)
    requires
        0 <= i <= s.len(),
        forall|j: int| 0 <= j < i ==> '0' <= #[trigger] s[j] && s[j] <= '9',
        i == s.len() || !('0' <= s[i] && s[i] <= '9'),
    ensures
        lead_digits(s) == i,
    decreases s.len(),
{
    if s.len() > 0 && i > 0 {
        assert forall|j: int| 0 <= j < i - 1 implies '0' <= #[trigger] s.drop_first()[j] && s.drop_first()[j] <= '9' by {
            assert(s.drop_first()[j] == s[j + 1]);
        }
        lemma_lead_digits_stop(s.drop_first(), i - 1);
    }
}

/// The whole percent shown by the gauge (see [`gauge_value`]).
pub fn gauge_percent(percent: &str) -> (r: u16)
    ensures
        r as nat == gauge_value(percent@),
{
    let v = chars_of(percent);
    let mut i: usize = 0;
    let mut val: u64 = 0;
    while i < v.len() && '0' <= v[i] && v[i] <= '9'
        invariant
            i <= v.len(),
            v@ == percent@,
            forall|j: int| 0 <= j < i ==> '0' <= #[trigger] v@[j] && v@[j] <= '9',
            val == if digits_value(v@.take(i as int)) > 101 { 101 } else { digits_value(v@.take(i as int)) },
        decreases v.len() - i,
    {
        let d = (v[i] as u32 - '0' as u32) as u64;
        assert(v@.take(i + 1).drop_last() == v@.take(i as int));
        val = val * 10 + d;
        if val > 101 {
            val = 101;
        }
        i += 1;
    }
    proof {
        lemma_lead_digits_stop(v@, i as int);
    }
    if val > 100 {
        100
    } else {
        val as u16
    }
}

/// The title of the progress gauge: speed and ETA while downloading, a completion note at
/// 100%, else a waiting note.
pub fn progress_title(downloading: bool, percent: u16, speed: &str, eta: &str) -> (r: String)
    ensures
        r@ == if downloading {
            " Downloading: "@ + decimal(percent as nat) + "% (Speed: "@ + speed@ + ", ETA: "@ + eta@
                + ") "@
        } else if percent >= 100 {
            " Completed! "@
        } else {
            " Ready (Waiting for download trigger) "@
        },
{
    if downloading {
        let p = u64_to_decimal(percent as u64);
        let mut t = concat3(" Downloading: ", p.as_str(), "% (Speed: ");
        t.append(speed);
        t.append(", ETA: ");
        t.append(eta);
        t.append(") ");
        t
    } else if percent >= 100 {
        String::from_str(" Completed! ")
    } else {
        String::from_str(" Ready (Waiting for download trigger) ")
    }
}


/// The prefix that [`fit_len`] picks fits.
proof fn lemma_fit_len_fits(s: Seq<char>, max: int)
    requires
        max >= 0,
    ensures
        fit_len(s, max) <= s.len(),
        display_width(s.take(fit_len(s, max) as int)) <= max,
    decreases s.len(),
{
    if s.len() == 0 {
        assert(s.take(0) =~= Seq::<char>::empty());
    } else if display_width(s) <= max {
        assert(s.take(s.len() as int) == s);
    } else {
        lemma_fit_len_fits(s.drop_last(), max);
        assert(s.drop_last().take(fit_len(s.drop_last(), max) as int) == s.take(
            fit_len(s.drop_last(), max) as int,
        ));
    }
}

/// A fitted title never takes more than the columns it was fitted in (given room for the
/// two dots).
pub proof fn law_fitted_title_fits(t: Seq<char>, max_w: int)
    requires
        max_w >= 2,
    ensures
        display_width(fitted_title(t, max_w)) <= max_w,
        display_width(t) <= max_w ==> fitted_title(t, max_w) == t,
{
    if display_width(t) > max_w {
        lemma_fit_len_fits(t, max_w - 2);
        lemma_width_append_dots(t.take(fit_len(t, sat_sub(max_w, 2)) as int));
    }
}

/// In the two-column track list, a left cell whose column leaves room for a title spans
/// exactly the column: number, title and padding add up to its width.
pub proof fn law_left_cell_spans_column(idx: nat, title: Seq<char>, col: int)
    requires
        sat_sub(col, (two_col_cell(idx, title, col, true).number.len() + 1) as int) >= 2,
    ensures
        ({
            let c = two_col_cell(idx, title, col, true);
            c.number.len() + display_width(c.title) + c.pad == col
        }),
{
    let number = " "@ + num_label(idx + 1) + ". "@;
    law_fitted_title_fits(title, sat_sub(col, (number.len() + 1) as int));
}

/// In the one-column track list, number and title leave two columns free when the area
/// leaves room for a title.
pub proof fn law_single_cell_fits(idx: nat, title: Seq<char>, width: int)
    requires
        sat_sub(width, (one_col_cell(idx, title, width).number.len() + 2) as int) >= 2,
    ensures
        ({
            let c = one_col_cell(idx, title, width);
            c.number.len() + display_width(c.title) + 2 <= width
        }),
{
    let number = "   "@ + num_label(idx + 1) + ". "@;
    law_fitted_title_fits(title, sat_sub(width, (number.len() + 2) as int));
}


/// The number of cells in a list of rows.
pub open spec fn cells_count(rows: Seq<Seq<CellView>>) -> nat
    decreases rows.len(),
{
    if rows.len() == 0 {
        0
    } else {
        cells_count(rows.drop_last()) + rows.last().len()
    }
}

proof fn lemma_cells_prefix(rows: Seq<Seq<CellView>>, k: int, split: int)
    requires
        0 <= k <= rows.len(),
        split >= 0,
        forall|r: int| 0 <= r < rows.len() ==> (#[trigger] rows[r]).len() == if r < split { 2int } else { 1int },
    ensures
        cells_count(rows.take(k)) == k + if k < split { k } else { split },
    decreases k,
{
    if k > 0 {
        lemma_cells_prefix(rows, k - 1, split);
        assert(rows.take(k).drop_last() == rows.take(k - 1));
        assert(rows.take(k).last() == rows[k - 1]);
    }
}

/// Every track is accounted for: the cells of the track list and the number in its
/// closing line add up to the number of tracks.
pub proof fn law_tracks_accounted(tracks: Seq<Seq<char>>, width: nat, avail: nat)
    ensures
        cells_count(track_rows(tracks, width, avail)) + tracks_more(tracks.len(), width, avail)
            == tracks.len(),
{
    let rows = track_rows(tracks, width, avail);
    let total = tracks.len();
    if two_columns(width, total) {
        let needed = (total + 1) / 2;
        let shown = if needed < avail { needed } else { avail };
        let split = total - needed;
        assert forall|r: int| 0 <= r < rows.len() implies (#[trigger] rows[r]).len() == if r < split {
            2int
        } else {
            1int
        } by {}
        lemma_cells_prefix(rows, shown as int, split);
        assert(rows.take(shown as int) == rows);
    } else {
        let shown = if avail < total { avail } else { total };
        assert forall|r: int| 0 <= r < rows.len() implies (#[trigger] rows[r]).len() == if r < 0 {
            2int
        } else {
            1int
        } by {}
        lemma_cells_prefix(rows, shown as int, 0);
        assert(rows.take(shown as int) == rows);
    }
}

} // verus!
