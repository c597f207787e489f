//! Texts of the stream list.
use vstd::prelude::*;
use vstd::string::*;
use crate::text::{concat3, str_eq};

verus! {

/// Whether a stream is the picked one.
pub open spec fn is_picked(choice: Option<String>, id: Seq<char>) -> bool {
    choice matches Some(c) && c@ == id
}

/// Whether the stream `id` is the picked one.
pub fn is_picked_exec(choice: &Option<String>, id: &str) -> (r: bool)
    ensures
        r == is_picked(*choice, id@),
{
    match choice {
        Some(c) => str_eq(c.as_str(), id),
        None => false,
    }
}

/// The mark of a stream row: picked as both video and audio, as video, as audio, or none.
pub fn selection_marker(video: bool, audio: bool) -> (r: &'static str)
    ensures
        r@ == if video && audio {
            "★ [V+A]"@
        } else if video {
            "🎬 [V]"@
        } else if audio {
            "🎵 [A]"@
        } else {
            ""@
        },
{
    if video && audio {
        "★ [V+A]"
    } else if video {
        "🎬 [V]"
    } else if audio {
        "🎵 [A]"
    } else {
        ""
    }
}

/// A picked stream's id, or `Auto / Best`.
pub open spec fn choice_text(c: Option<String>) -> Seq<char> {
    match c {
        Some(s) => s@,
        None => "Auto / Best"@,
    }
}

/// The line above the stream list naming the picked streams.
pub fn selected_streams_text(video: &Option<String>, audio: &Option<String>) -> (r: String)
    ensures
        r@ == "Selected Video: ["@ + choice_text(*video) + "]   Selected Audio: ["@ + choice_text(
            *audio,
        ) + "]"@,
{
    let v: &str = match video {
        Some(s) => s.as_str(),
        None => "Auto / Best",
    };
    let a: &str = match audio {
        Some(s) => s.as_str(),
        None => "Auto / Best",
    };
    let mut t = concat3("Selected Video: [", v, "]   Selected Audio: [");
    t.append(a);
    t.append("]");
    t
}

/// A codec's name, or `--` when unknown.
pub fn codec_text(c: &Option<String>) -> (r: &str)
    ensures
        r@ == match c {
            Some(s) => s@,
            None => "--"@,
        },
{
    match c {
        Some(s) => s.as_str(),
        None => "--",
    }
}

} // verus!
