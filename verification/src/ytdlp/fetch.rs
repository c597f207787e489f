//! Choosing the media entry out of yt-dlp's JSON output.
use vstd::prelude::*;
use vstd::string::*;
use crate::json::{JsonValue, json_parsed, parse_json};
use crate::ytdlp::models::{MediaInfo, MediaView, media_of};
use crate::text::{str_eq, trim, trim_chars, chars_of, find_seq, first_occurrence, index_of_char, index_of_char_exec, lemma_first_occurrence, slice_chars, string_from_chars};

verus! {

/// The value of the `v=` parameter of a URL: the text after the first `v=` up to the next
/// `&` (or the end), when it is not empty.
pub open spec fn video_id_of(url: Seq<char>) -> Option<Seq<char>> {
    match first_occurrence(url, "v="@) {
        Some(i) => {
            let after = url.skip(i + 2);
            let id = after.take(index_of_char(after, '&') as int);
            if id.len() > 0 {
                Some(id)
            } else {
                None
            }
        },
        None => None,
    }
}

/// Extracts the video id (`v=...`) from a URL, so that the matching entry of a playlist can
/// be picked.
pub fn extract_video_id_from_url(url: &str) -> (r: Option<String>)
    ensures
        r.deep_view() == video_id_of(url@),
{
    let u = chars_of(url);
    let pat = chars_of("v=");
    match find_seq(&u, &pat) {
        Some(pos) => {
            proof {
                lemma_first_occurrence(u@, pat@, pos as int);
                reveal_strlit("v=");
                assert(pat@.len() == 2);
            }
            let n = u.len();
            let after = slice_chars(&u, pos + 2, n);
            assert(after@ == u@.skip(pos + 2));
            let end = index_of_char_exec(&after, '&');
            let id = slice_chars(&after, 0, end);
            assert(id@ == after@.take(end as int));
            if id.len() > 0 {
                Some(string_from_chars(&id))
            } else {
                None
            }
        },
        None => None,
    }
}

} // verus!

verus! {

/// The pieces of `s` between `\n` characters (`str::split('\n')`).
pub open spec fn split_newlines(s: Seq<char>) -> Seq<Seq<char>>
    decreases s.len(),
{
    if s.len() == 0 {
        seq![Seq::empty()]
    } else {
        let rest = split_newlines(s.drop_last());
        if s.last() == '\n' {
            rest.push(Seq::empty())
        } else {
            rest.update(rest.len() - 1, rest.last().push(s.last()))
        }
    }
}

proof fn lemma_split_nonempty(s: Seq<char>)
    ensures
        split_newlines(s).len() > 0,
    decreases s.len(),
{
    if s.len() > 0 {
        lemma_split_nonempty(s.drop_last());
    }
}

/// Trimmed, non-blank pieces of a list, in order.
pub open spec fn nonblank_trimmed(pieces: Seq<Seq<char>>) -> Seq<Seq<char>>
    decreases pieces.len(),
{
    if pieces.len() == 0 {
        Seq::empty()
    } else {
        let rest = nonblank_trimmed(pieces.drop_last());
        let t = trim(pieces.last());
        if t.len() == 0 {
            rest
        } else {
            rest.push(t)
        }
    }
}

/// The lines of yt-dlp's output that hold something: each line trimmed, blank lines left
/// out (a line break `\r\n` counts as `\n`, the `\r` being trimmed).
pub open spec fn output_lines_of(s: Seq<char>) -> Seq<Seq<char>> {
    nonblank_trimmed(split_newlines(s))
}

/// The trimmed non-blank lines of an output text (see [`output_lines_of`]).
pub fn output_lines(stdout: &str) -> (r: Vec<String>)
    ensures
        r.deep_view() == output_lines_of(stdout@),
{
    let chars = chars_of(stdout);
    let mut out: Vec<String> = Vec::new();
    let mut cur: Vec<char> = Vec::new();
    let mut i: usize = 0;
    while i < chars.len()
        invariant
            i <= chars.len(),
            ({
                let pieces = split_newlines(chars@.take(i as int));
                &&& pieces.len() > 0
                &&& cur@ == pieces.last()
                &&& out.deep_view() == nonblank_trimmed(pieces.drop_last())
            }),
        decreases chars.len() - i,
    {
        proof {
            lemma_split_nonempty(chars@.take(i as int));
        }
        let ghost prev = split_newlines(chars@.take(i as int));
        assert(chars@.take(i + 1).drop_last() == chars@.take(i as int));
        assert(chars@.take(i + 1).last() == chars@[i as int]);
        let c = chars[i];
        if c == '\n' {
            let t = trim_chars(&cur);
            let ghost before = out.deep_view();
            if t.len() > 0 {
                out.push(string_from_chars(&t));
                assert(out.deep_view() == before.push(t@));
            }
            cur = Vec::new();
            proof {
                let next = split_newlines(chars@.take(i + 1));
                assert(next == prev.push(Seq::empty()));
                assert(next.drop_last() == prev);
                assert(prev.drop_last().push(prev.last()) == prev);
            }
        } else {
            cur.push(c);
            proof {
                let next = split_newlines(chars@.take(i + 1));
                assert(next.drop_last() == prev.drop_last());
            }
        }
        i += 1;
    }
    proof {
        lemma_split_nonempty(chars@);
        assert(chars@.take(chars.len() as int) == chars@);
    }
    let ghost pieces = split_newlines(chars@);
    let t = trim_chars(&cur);
    let ghost before = out.deep_view();
    if t.len() > 0 {
        out.push(string_from_chars(&t));
        assert(out.deep_view() == before.push(t@));
    }
    assert(pieces.drop_last().push(pieces.last()) == pieces);
    out
}

/// An entry is usable when it has an id or a title other than the default.
pub open spec fn usable(m: MediaView) -> bool {
    m.id.len() > 0 || m.title != "Untitled"@
}

/// The usable entries among the parsed lines, in order.
pub open spec fn usable_entries(lines: Seq<Option<JsonValue>>) -> Seq<MediaView>
    decreases lines.len(),
{
    if lines.len() == 0 {
        Seq::empty()
    } else {
        let rest = usable_entries(lines.drop_last());
        match lines.last() {
            Some(v) => if usable(media_of(v)) {
                rest.push(media_of(v))
            } else {
                rest
            },
            None => rest,
        }
    }
}

/// Index of the first entry with the given id, when there is one.
pub open spec fn index_with_id(entries: Seq<MediaView>, id: Seq<char>) -> Option<int>
    decreases entries.len(),
{
    if entries.len() == 0 {
        None
    } else {
        match index_with_id(entries.drop_last(), id) {
            Some(i) => Some(i),
            None => if entries.last().id == id {
                Some(entries.len() - 1)
            } else {
                None
            },
        }
    }
}

/// Titles of the entries, in order.
pub open spec fn titles(entries: Seq<MediaView>) -> Seq<Seq<char>> {
    entries.map_values(|m: MediaView| m.title)
}

/// The media information chosen from yt-dlp's output. When the whole output is one usable
/// JSON document, it is that document. Otherwise the output is read as one JSON document
/// per line: the entry whose id is the URL's `v=` parameter is chosen, else the first
/// usable entry; when there are several entries, the chosen one lists all their titles
/// and counts them. `None` when no entry is usable.
pub open spec fn select_media_of(
    whole: Option<JsonValue>,
    lines: Seq<Option<JsonValue>>,
    url: Seq<char>,
) -> Option<MediaView> {
    if whole is Some && usable(media_of(whole->0)) {
        Some(media_of(whole->0))
    } else {
        let entries = usable_entries(lines);
        let chosen: Option<int> = match video_id_of(url) {
            Some(tid) => match index_with_id(entries, tid) {
                Some(i) => Some(i),
                None => if entries.len() > 0 {
                    Some(0)
                } else {
                    None
                },
            },
            None => if entries.len() > 0 {
                Some(0)
            } else {
                None
            },
        };
        match chosen {
            Some(i) => {
                let m = entries[i];
                if entries.len() > 1 {
                    Some(
                        MediaView {
                            playlist_count: Some(entries.len() as usize),
                            playlist_tracks: titles(entries),
                            ..m
                        },
                    )
                } else {
                    Some(m)
                }
            },
            None => None,
        }
    }
}

fn is_usable(m: &MediaInfo) -> (r: bool)
    ensures
        r == usable(m@),
{
    !m.id.as_str().is_empty() || !str_eq(m.title.as_str(), "Untitled")
}

/// Chooses the media entry out of yt-dlp's output, given the output parsed as a whole and
/// each non-blank line parsed on its own (`None` where parsing failed); see
/// [`select_media_of`].
#[verifier::spinoff_prover]
pub fn select_media_info(whole: Option<&JsonValue>, lines: &Vec<Option<JsonValue>>, url: &str) -> (r: Option<MediaInfo>)
    ensures
        match r {
            Some(m) => select_media_of(crate::json::deref_opt(whole), lines@, url@) == Some(m@),
            None => select_media_of(crate::json::deref_opt(whole), lines@, url@) is None,
        },
{
    match whole {
        Some(val) => {
            let info = MediaInfo::from_value(val);
            if is_usable(&info) {
                return Some(info);
            }
        },
        None => {},
    }
    let mut entries: Vec<MediaInfo> = Vec::new();
    let mut i: usize = 0;
    while i < lines.len()
        invariant
            i <= lines.len(),
            media_views(entries@) == usable_entries(lines@.take(i as int)),
        decreases lines.len() - i,
    {
        assert(lines@.take(i + 1).drop_last() == lines@.take(i as int));
        assert(lines@.take(i + 1).last() == lines@[i as int]);
        match &lines[i] {
            Some(v) => {
                let info = MediaInfo::from_value(v);
                if is_usable(&info) {
                    let ghost before = entries@;
                    entries.push(info);
                    assert(media_views(entries@) == media_views(before).push(info@));
                }
            },
            None => {},
        }
        i += 1;
    }
    assert(lines@.take(lines.len() as int) == lines@);
    let ghost ev = media_views(entries@);
    let mut titles_vec: Vec<String> = Vec::new();
    let mut k: usize = 0;
    while k < entries.len()
        invariant
            k <= entries.len(),
            ev == media_views(entries@),
            titles_vec.deep_view() == titles(ev.take(k as int)),
        decreases entries.len() - k,
    {
        assert(titles(ev.take(k + 1)) == titles(ev.take(k as int)).push(entries@[k as int]@.title));
        titles_vec.push(entries[k].title.clone());
        k += 1;
    }
    assert(ev.take(entries.len() as int) == ev);
    let total = entries.len();
    let target = extract_video_id_from_url(url);
    let mut chosen: Option<usize> = match &target {
        Some(tid) => find_by_id(&entries, tid.as_str()),
        None => None,
    };
    if chosen.is_none() && total > 0 {
        chosen = Some(0);
    }
    match chosen {
        Some(c) => {
            assert(ev[c as int] == entries@[c as int]@);
            let mut info = entries.remove(c);
            if total > 1 {
                info.playlist_count = Some(total);
                info.playlist_tracks = titles_vec;
            }
            Some(info)
        },
        None => None,
    }
}

/// Index of the first entry with the given id.
fn find_by_id(entries: &Vec<MediaInfo>, tid: &str) -> (r: Option<usize>)
    ensures
        match r {
            Some(j) => j < entries.len() && index_with_id(media_views(entries@), tid@) == Some(j as int),
            None => index_with_id(media_views(entries@), tid@) is None,
        },
{
    let ghost ev = media_views(entries@);
    let mut j: usize = 0;
    while j < entries.len()
        invariant
            j <= entries.len(),
            ev == media_views(entries@),
            index_with_id(ev.take(j as int), tid@) is None,
        decreases entries.len() - j,
    {
        assert(ev.take(j + 1).drop_last() == ev.take(j as int));
        assert(ev.take(j + 1).last() == entries@[j as int]@);
        if str_eq(entries[j].id.as_str(), tid) {
            proof {
                lemma_index_with_id_extends(ev, tid@, j as int);
            }
            return Some(j);
        }
        j += 1;
    }
    assert(ev.take(entries.len() as int) == ev);
    None
}

/// Views of a list of media entries.
pub open spec fn media_views(v: Seq<MediaInfo>) -> Seq<MediaView> {
    v.map_values(|m: MediaInfo| m@)
}

proof fn lemma_index_with_id_extends(ev: Seq<MediaView>, id: Seq<char>, j: int)
    requires
        0 <= j < ev.len(),
        index_with_id(ev.take(j), id) is None,
        ev[j].id == id,
    ensures
        index_with_id(ev, id) == Some(j),
    decreases ev.len() - j,
{
    assert(ev.take(j + 1).drop_last() == ev.take(j));
    assert(index_with_id(ev.take(j + 1), id) == Some(j));
    lemma_index_prefix(ev, id, j + 1);
}

proof fn lemma_index_prefix(ev: Seq<MediaView>, id: Seq<char>, n: int)
    requires
        0 <= n <= ev.len(),
        index_with_id(ev.take(n), id) is Some,
    ensures
        index_with_id(ev, id) == index_with_id(ev.take(n), id),
    decreases ev.len() - n,
{
    if n < ev.len() {
        assert(ev.take(n + 1).drop_last() == ev.take(n));
        lemma_index_prefix(ev, id, n + 1);
    } else {
        assert(ev.take(n) == ev);
    }
}


/// The media information in yt-dlp's `--dump-json` output for a URL: the output parsed as
/// one JSON document, and each of its non-blank lines parsed on its own (see
/// [`select_media_of`]); `None` when no entry is usable.
pub fn media_info_from_output(stdout: &str, url: &str) -> (r: Option<MediaInfo>)
    ensures
        match r {
            Some(m) => select_media_of(
                json_parsed(stdout@),
                output_lines_of(stdout@).map_values(|l: Seq<char>| json_parsed(l)),
                url@,
            ) == Some(m@),
            None => select_media_of(
                json_parsed(stdout@),
                output_lines_of(stdout@).map_values(|l: Seq<char>| json_parsed(l)),
                url@,
            ) is None,
        },
{
    let whole = parse_json(stdout);
    let lines = output_lines(stdout);
    let ghost ls = lines.deep_view();
    let mut parsed: Vec<Option<JsonValue>> = Vec::new();
    let mut i: usize = 0;
    while i < lines.len()
        invariant
            i <= lines.len(),
            ls == lines.deep_view(),
            parsed@ == ls.take(i as int).map_values(|l: Seq<char>| json_parsed(l)),
        decreases lines.len() - i,
    {
        let p = parse_json(lines[i].as_str());
        parsed.push(p);
        assert(ls.take(i + 1).map_values(|l: Seq<char>| json_parsed(l)) =~= ls.take(i as int).map_values(
            |l: Seq<char>| json_parsed(l),
        ).push(json_parsed(ls[i as int])));
        i += 1;
    }
    assert(ls.take(lines.len() as int) == ls);
    let w = whole.as_ref();
    assert(crate::json::deref_opt(w) == json_parsed(stdout@));
    select_media_info(w, &parsed, url)
}


/// A line that parsed to a usable entry.
pub open spec fn usable_line(l: Option<JsonValue>) -> bool {
    l is Some && usable(media_of(l->0))
}

proof fn lemma_none_usable(lines: Seq<Option<JsonValue>>)
    requires
        forall|j: int| 0 <= j < lines.len() ==> !usable_line(#[trigger] lines[j]),
    ensures
        usable_entries(lines).len() == 0,
    decreases lines.len(),
{
    if lines.len() > 0 {
        assert(lines.last() == lines[lines.len() - 1]);
        lemma_none_usable(lines.drop_last());
    }
}

/// Every usable entry comes from a usable line.
proof fn lemma_entries_from_lines(lines: Seq<Option<JsonValue>>)
    ensures
        forall|i: int| 0 <= i < usable_entries(lines).len() ==> exists|j: int|
            0 <= j < lines.len() && usable_line(lines[j]) && #[trigger] usable_entries(lines)[i]
                == media_of(lines[j]->0),
    decreases lines.len(),
{
    if lines.len() > 0 {
        let rest = lines.drop_last();
        lemma_entries_from_lines(rest);
        let ue = usable_entries(lines);
        assert forall|i: int| 0 <= i < ue.len() implies exists|j: int|
            0 <= j < lines.len() && usable_line(lines[j]) && #[trigger] ue[i] == media_of(lines[j]->0) by {
            if i < usable_entries(rest).len() {
                let j = choose|j: int|
                    0 <= j < rest.len() && usable_line(rest[j]) && usable_entries(rest)[i] == media_of(rest[j]->0);
                assert(lines[j] == rest[j]);
            } else {
                assert(lines[lines.len() - 1] == lines.last());
            }
        }
    }
}

proof fn lemma_no_index(e: Seq<MediaView>, id: Seq<char>)
    requires
        forall|i: int| 0 <= i < e.len() ==> (#[trigger] e[i]).id != id,
    ensures
        index_with_id(e, id) is None,
    decreases e.len(),
{
    if e.len() > 0 {
        lemma_no_index(e.drop_last(), id);
        assert(e.last() == e[e.len() - 1]);
    }
}

/// The first usable line is the first usable entry.
proof fn lemma_first_usable(lines: Seq<Option<JsonValue>>, k: int)
    requires
        0 <= k < lines.len(),
        usable_line(lines[k]),
        forall|j: int| 0 <= j < k ==> !usable_line(#[trigger] lines[j]),
    ensures
        usable_entries(lines).len() > 0,
        usable_entries(lines)[0] == media_of(lines[k]->0),
    decreases lines.len(),
{
    let rest = lines.drop_last();
    assert(lines.last() == lines[lines.len() - 1]);
    if k == lines.len() - 1 {
        assert forall|j: int| 0 <= j < rest.len() implies !usable_line(#[trigger] rest[j]) by {
            assert(rest[j] == lines[j]);
        }
        lemma_none_usable(rest);
    } else {
        assert(rest[k] == lines[k]);
        assert forall|j: int| 0 <= j < k implies !usable_line(#[trigger] rest[j]) by {
            assert(rest[j] == lines[j]);
        }
        lemma_first_usable(rest, k);
    }
}

/// The first usable line with an id is where the search by that id lands.
proof fn lemma_first_with_id(lines: Seq<Option<JsonValue>>, k: int, id: Seq<char>)
    requires
        0 <= k < lines.len(),
        usable_line(lines[k]),
        media_of(lines[k]->0).id == id,
        forall|j: int| 0 <= j < k && usable_line(#[trigger] lines[j]) ==> media_of(lines[j]->0).id != id,
    ensures
        index_with_id(usable_entries(lines), id) matches Some(i) && 0 <= i < usable_entries(lines).len()
            && usable_entries(lines)[i] == media_of(lines[k]->0),
    decreases lines.len(),
{
    let rest = lines.drop_last();
    let ue = usable_entries(lines);
    assert(lines.last() == lines[lines.len() - 1]);
    if k == lines.len() - 1 {
        lemma_entries_from_lines(rest);
        let re = usable_entries(rest);
        assert forall|i: int| 0 <= i < re.len() implies (#[trigger] re[i]).id != id by {
            let j = choose|j: int| 0 <= j < rest.len() && usable_line(rest[j]) && re[i] == media_of(rest[j]->0);
            assert(rest[j] == lines[j]);
        }
        lemma_no_index(re, id);
        assert(ue.drop_last() == re);
    } else {
        assert(rest[k] == lines[k]);
        assert forall|j: int| 0 <= j < k && usable_line(#[trigger] rest[j]) implies media_of(rest[j]->0).id != id by {
            assert(rest[j] == lines[j]);
        }
        lemma_first_with_id(rest, k, id);
        let re = usable_entries(rest);
        if ue != re {
            assert(ue.drop_last() == re);
        }
    }
}

/// The chosen entry when neither the whole output is a usable document nor the URL's `v=`
/// id names a usable entry: the first usable line, with the count and the titles of all
/// usable entries added when there are several.
pub proof fn law_first_usable_when_no_id_match(
    whole: Option<JsonValue>,
    lines: Seq<Option<JsonValue>>,
    url: Seq<char>,
    k: int,
)
    requires
        whole is None || !usable(media_of(whole->0)),
        0 <= k < lines.len(),
        usable_line(lines[k]),
        forall|j: int| 0 <= j < k ==> !usable_line(#[trigger] lines[j]),
        video_id_of(url) is None || forall|j: int|
            0 <= j < lines.len() && usable_line(#[trigger] lines[j]) ==> media_of(lines[j]->0).id
                != video_id_of(url)->0,
    ensures
        ({
            let m = media_of(lines[k]->0);
            let ue = usable_entries(lines);
            &&& select_media_of(whole, lines, url) matches Some(r)
            &&& r.id == m.id
            &&& r.title == m.title
            &&& ue.len() > 1 ==> r == (MediaView {
                playlist_count: Some(ue.len() as usize),
                playlist_tracks: titles(ue),
                ..m
            })
            &&& ue.len() <= 1 ==> r == m
        }),
{
    lemma_first_usable(lines, k);
    if video_id_of(url) is Some {
        let tid = video_id_of(url)->0;
        let ue = usable_entries(lines);
        lemma_entries_from_lines(lines);
        assert forall|i: int| 0 <= i < ue.len() implies (#[trigger] ue[i]).id != tid by {
            let j = choose|j: int| 0 <= j < lines.len() && usable_line(lines[j]) && ue[i] == media_of(lines[j]->0);
        }
        lemma_no_index(ue, tid);
    }
}

/// The chosen entry when the whole output is not a usable document and the URL's `v=` id
/// names a usable entry: the first usable line with that id, with the count and the titles
/// of all usable entries added when there are several.
pub proof fn law_entry_of_url_id(
    whole: Option<JsonValue>,
    lines: Seq<Option<JsonValue>>,
    url: Seq<char>,
    k: int,
)
    requires
        whole is None || !usable(media_of(whole->0)),
        video_id_of(url) is Some,
        0 <= k < lines.len(),
        usable_line(lines[k]),
        media_of(lines[k]->0).id == video_id_of(url)->0,
        forall|j: int| 0 <= j < k && usable_line(#[trigger] lines[j]) ==> media_of(lines[j]->0).id
            != video_id_of(url)->0,
    ensures
        ({
            let m = media_of(lines[k]->0);
            let ue = usable_entries(lines);
            &&& select_media_of(whole, lines, url) matches Some(r)
            &&& r.id == video_id_of(url)->0
            &&& r.title == m.title
            &&& ue.len() > 1 ==> r == (MediaView {
                playlist_count: Some(ue.len() as usize),
                playlist_tracks: titles(ue),
                ..m
            })
            &&& ue.len() <= 1 ==> r == m
        }),
{
    lemma_first_with_id(lines, k, video_id_of(url)->0);
}

/// A whole output that is one usable JSON document is taken as it is, whatever the lines
/// and the URL.
pub proof fn law_whole_document_first(whole: JsonValue, lines: Seq<Option<JsonValue>>, url: Seq<char>)
    requires
        usable(media_of(whole)),
    ensures
        select_media_of(Some(whole), lines, url) == Some(media_of(whole)),
{
}

/// Nothing is chosen when neither the whole output nor any line is a usable entry.
pub proof fn law_nothing_usable(whole: Option<JsonValue>, lines: Seq<Option<JsonValue>>, url: Seq<char>)
    requires
        whole is None || !usable(media_of(whole->0)),
        forall|j: int| 0 <= j < lines.len() ==> !usable_line(#[trigger] lines[j]),
    ensures
        select_media_of(whole, lines, url) is None,
{
    lemma_none_usable(lines);
}

} // verus!
