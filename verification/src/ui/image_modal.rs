//! Texts of the image list.
use vstd::prelude::*;
use vstd::string::*;
use crate::text::{chars_of, concat2, decimal, string_from_chars, u64_to_decimal};
use crate::ytdlp::models::{ThumbnailInfo, ext_text};

verus! {

/// The bytes a character takes in UTF-8.
pub open spec fn utf8_len(c: char) -> nat {
    let u = c as u32;
    if u < 0x80 {
        1
    } else if u < 0x800 {
        2
    } else if u < 0x10000 {
        3
    } else {
        4
    }
}

/// The bytes a text takes in UTF-8.
pub open spec fn byte_len(s: Seq<char>) -> nat
    decreases s.len(),
{
    if s.len() == 0 {
        0
    } else {
        byte_len(s.drop_last()) + utf8_len(s.last())
    }
}

/// The number of whole characters in the first `n` bytes of a text.
pub open spec fn chars_within(s: Seq<char>, n: int) -> nat
    decreases s.len(),
{
    if s.len() == 0 || byte_len(s) <= n {
        s.len()
    } else {
        chars_within(s.drop_last(), n)
    }
}

proof fn lemma_bytes_monotone(s: Seq<char>, i: int, j: int)
    requires
        0 <= i <= j <= s.len(),
    ensures
        byte_len(s.take(i)) <= byte_len(s.take(j)),
    decreases j - i,
{
    if i < j {
        lemma_bytes_monotone(s, i, j - 1);
        assert(s.take(j).drop_last() == s.take(j - 1));
    }
}

proof fn lemma_chars_within(s: Seq<char>, n: int, k: int)
    requires
        0 <= k <= s.len(),
        byte_len(s.take(k)) <= n,
        k < s.len() ==> byte_len(s.take(k + 1)) > n,
    ensures
        chars_within(s, n) == k,
    decreases s.len(),
{
    if s.len() == 0 {
    } else if k == s.len() {
        assert(s.take(k) == s);
    } else {
        lemma_bytes_monotone(s, k + 1, s.len() as int);
        assert(s.take(s.len() as int) == s);
        assert(s.drop_last().take(k) == s.take(k));
        if k + 1 <= s.len() - 1 {
            assert(s.drop_last().take(k + 1) == s.take(k + 1));
        }
        lemma_chars_within(s.drop_last(), n, k);
    }
}

fn utf8_len_exec(c: char) -> (r: usize)
    ensures
        r == utf8_len(c),
{
    let u = c as u32;
    if u < 0x80 {
        1
    } else if u < 0x800 {
        2
    } else if u < 0x10000 {
        3
    } else {
        4
    }
}

/// The media title in the image list's header: titles over 40 bytes are cut after 37 bytes
/// and followed by `...`. Cutting needs a character boundary at byte 37.
pub fn media_title_display(title: &str) -> (r: String)
    requires
        byte_len(title@) > 40 ==> byte_len(title@.take(chars_within(title@, 37) as int)) == 37,
    ensures
        r@ == if byte_len(title@) > 40 {
            title@.take(chars_within(title@, 37) as int) + "..."@
        } else {
            title@
        },
{
    let v = chars_of(title);
    // bytes of the first i characters, counted until they pass 40
    let mut i: usize = 0;
    let mut b: usize = 0;
    let mut cut: usize = 0;
    let mut cut_bytes: usize = 0;
    while i < v.len()
        invariant
            i <= v.len(),
            v@ == title@,
            b == byte_len(v@.take(i as int)),
            b <= 40,
            cut <= i,
            cut_bytes == byte_len(v@.take(cut as int)),
            cut_bytes <= 37,
            cut < i ==> byte_len(v@.take(cut + 1)) > 37,
        ensures
            i <= v.len(),
            cut <= i,
            cut_bytes == byte_len(v@.take(cut as int)),
            cut_bytes <= 37,
            cut < i ==> byte_len(v@.take(cut + 1)) > 37,
            b == byte_len(v@.take(i as int)),
            i < v.len() ==> byte_len(v@.take(i + 1)) > 40,
            i == v.len() ==> b <= 40,
        decreases v.len() - i,
    {
        assert(v@.take(i + 1).drop_last() == v@.take(i as int));
        let w = utf8_len_exec(v[i]);
        if b + w > 40 {
            break;
        }
        if cut == i && cut_bytes + w <= 37 {
            cut = cut + 1;
            cut_bytes = cut_bytes + w;
        }
        b = b + w;
        i += 1;
    }
    if i == v.len() {
        assert(v@.take(v.len() as int) == v@);
        return String::from_str(title);
    }
    proof {
        lemma_bytes_monotone(v@, i + 1, v.len() as int);
        assert(v@.take(v.len() as int) == v@);
        lemma_chars_within(v@, 37, cut as int);
    }
    let mut out: Vec<char> = Vec::new();
    let mut j: usize = 0;
    while j < cut
        invariant
            j <= cut <= v.len(),
            out@ == v@.take(j as int),
        decreases cut - j,
    {
        out.push(v[j]);
        assert(v@.take(j as int).push(v@[j as int]) == v@.take(j + 1));
        j += 1;
    }
    let head = string_from_chars(&out);
    concat2(head.as_str(), "...")
}

/// The tag of an image row: the first row is the automatic choice; a square image (equal
/// known width and height) is marked as a cover.
pub fn image_tag(index: usize, t: &ThumbnailInfo) -> (r: &'static str)
    ensures
        r@ == if index == 0 {
            "★ Best (Auto)"@
        } else if t.width is Some && t.height is Some && t.width == t.height {
            "🔲 Square (Cover)"@
        } else {
            ""@
        },
{
    if index == 0 {
        return "★ Best (Auto)";
    }
    match (t.width, t.height) {
        (Some(w), Some(h)) => if w == h {
            "🔲 Square (Cover)"
        } else {
            ""
        },
        _ => "",
    }
}

/// The number of an image row: `#` and its position from 1.
pub fn image_number(index: usize) -> (r: String)
    requires
        index < usize::MAX,
    ensures
        r@ == "#"@ + decimal(index as nat + 1),
{
    let n = u64_to_decimal((index + 1) as u64);
    concat2("#", n.as_str())
}

/// The id column of an image row: the thumbnail's id, or `auto` when it has none.
pub fn thumb_id_text(t: &ThumbnailInfo) -> (r: &str)
    ensures
        r@ == if t.id@.len() == 0 {
            "auto"@
        } else {
            t.id@
        },
{
    if t.id.as_str().unicode_len() == 0 {
        "auto"
    } else {
        t.id.as_str()
    }
}

/// The format column of an image row: the image format in capitals.
pub fn ext_label(t: &ThumbnailInfo) -> (r: &'static str)
    ensures
        r@ == if ext_text(t.url@) == "webp"@ {
            "WEBP"@
        } else if ext_text(t.url@) == "png"@ {
            "PNG"@
        } else {
            "JPG"@
        },
{
    let e = t.ext_str();
    proof {
        reveal_strlit("webp");
        reveal_strlit("png");
        reveal_strlit("jpg");
    }
    if crate::text::str_eq(e, "webp") {
        "WEBP"
    } else if crate::text::str_eq(e, "png") {
        "PNG"
    } else {
        "JPG"
    }
}

} // verus!
