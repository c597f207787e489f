//! Artwork images: decoding them, naming the protocol that draws them, and where a
//! downloaded image is written.
use vstd::prelude::*;
use vstd::string::*;
use crate::paths::{join, join_path};
use crate::text::{chars_of, concat3, string_from_chars, trim, trim_chars};
use crate::ytdlp::models::ext_text;

verus! {

/// Characters that file names avoid (`/ \ : * ? " < > |`) become `_`.
pub open spec fn safe_char(c: char) -> char {
    if c == '/' || c == '\\' || c == ':' || c == '*' || c == '?' || c == '"' || c == '<' || c
        == '>' || c == '|' {
        '_'
    } else {
        c
    }
}

/// The file name an image is saved under: the suggested name made safe and trimmed
/// (`thumbnail` when nothing is left), a dot and the image format guessed from the URL.
pub open spec fn image_file_name(url: Seq<char>, suggested: Seq<char>) -> Seq<char> {
    let safe = trim(suggested.map_values(|c: char| safe_char(c)));
    let base = if safe.len() == 0 {
        "thumbnail"@
    } else {
        safe
    };
    base + "."@ + ext_text(url)
}

fn safe_char_exec(c: char) -> (r: char)
    ensures
        r == safe_char(c),
{
    if c == '/' || c == '\\' || c == ':' || c == '*' || c == '?' || c == '"' || c == '<' || c
        == '>' || c == '|' {
        '_'
    } else {
        c
    }
}

/// The path an image from `url` is saved at in `dest_dir` (see [`image_file_name`]).
pub fn image_file_path(url: &str, dest_dir: &str, suggested_name: &str) -> (r: String)
    ensures
        r@ == join_path(dest_dir@, image_file_name(url@, suggested_name@)),
{
    let v = chars_of(suggested_name);
    let mut safe: Vec<char> = Vec::new();
    let mut i: usize = 0;
    while i < v.len()
        invariant
            i <= v.len(),
            v@ == suggested_name@,
            safe@ == v@.take(i as int).map_values(|c: char| safe_char(c)),
        decreases v.len() - i,
    {
        safe.push(safe_char_exec(v[i]));
        assert(v@.take(i + 1).map_values(|c: char| safe_char(c)) =~= v@.take(i as int).map_values(
            |c: char| safe_char(c),
        ).push(safe_char(v@[i as int])));
        i += 1;
    }
    assert(v@.take(v.len() as int) == v@);
    let t = trim_chars(&safe);
    let base = if t.len() == 0 {
        String::from_str("thumbnail")
    } else {
        string_from_chars(&t)
    };
    let ext: &str = if crate::text::contains_str(url, ".webp") {
        "webp"
    } else if crate::text::contains_str(url, ".png") {
        "png"
    } else {
        "jpg"
    };
    let name = concat3(base.as_str(), ".", ext);
    join(dest_dir, name.as_str())
}


/// A decoded image, carried through unread.
#[verifier::external_type_specification]
#[verifier::external_body]
pub struct ExDynamicImage(image::DynamicImage);

/// Whether `image::load_from_memory` decodes the bytes (a format it recognises, read
/// without error).
pub uninterp spec fn image_decodes(bytes: Seq<u8>) -> bool;

/// Decodes an image with `image::load_from_memory`; `None` when the bytes are not an image
/// in a supported format. Which bytes decode is not restated; it is named
/// (`image_decodes`).
#[verifier::external_body]
pub(crate) fn decode_image(bytes: &[u8]) -> (r: Option<image::DynamicImage>)
    ensures
        r is Some == image_decodes(bytes@),
{
    image::load_from_memory(bytes).ok()
}

/// The image in a fetched body: the decoded image, or the error shown when the bytes are
/// not an image.
pub fn image_from_bytes(bytes: &[u8]) -> (r: Result<image::DynamicImage, String>)
    ensures
        r is Ok == image_decodes(bytes@),
        r matches Err(e) ==> e@ == "Failed to decode image from bytes"@,
{
    match decode_image(bytes) {
        Some(img) => Ok(img),
        None => Err(String::from_str("Failed to decode image from bytes")),
    }
}

/// The terminal image protocols a preview can be drawn with.
#[derive(Debug, Clone, Copy, PartialEq, Eq, Structural)]
pub enum ImageProtocol {
    Halfblocks,
    Sixel,
    Kitty,
    Iterm2,
}

/// The name shown for an image protocol in the preview's title.
pub fn protocol_name(p: ImageProtocol) -> (r: &'static str)
    ensures
        r@ == match p {
            ImageProtocol::Kitty => "Kitty Protocol (Native GPU)"@,
            ImageProtocol::Sixel => "Sixel"@,
            ImageProtocol::Iterm2 => "iTerm2"@,
            ImageProtocol::Halfblocks => "Unicode Half-Blocks"@,
        },
{
    match p {
        ImageProtocol::Kitty => "Kitty Protocol (Native GPU)",
        ImageProtocol::Sixel => "Sixel",
        ImageProtocol::Iterm2 => "iTerm2",
        ImageProtocol::Halfblocks => "Unicode Half-Blocks",
    }
}

} // verus!
