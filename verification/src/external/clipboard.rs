//! Recognizing a URL in the clipboard.
use vstd::prelude::*;
use vstd::string::*;
use crate::text::{ascii_lower_seq, ascii_lowercase, chars_of, starts_with_chars, starts_with_seq, trim, trim_str};

verus! {

/// A text counts as a URL when, ignoring ASCII case, it starts with `http://` or
/// `https://`.
pub open spec fn spec_is_valid_url(s: Seq<char>) -> bool {
    let lower = ascii_lower_seq(s);
    starts_with_seq(lower, "http://"@) || starts_with_seq(lower, "https://"@)
}

/// Simple check that a text is a web URL.
pub fn is_valid_url(s: &str) -> (r: bool)
    ensures
        r == spec_is_valid_url(s@),
{
    let v = chars_of(s);
    let lower = ascii_lowercase(&v);
    let http = chars_of("http://");
    let https = chars_of("https://");
    starts_with_chars(&lower, &http) || starts_with_chars(&lower, &https)
}

/// The URL that a clipboard text gives: the trimmed text when it is a URL.
pub fn url_from_clipboard_text(text: &str) -> (r: Option<String>)
    ensures
        spec_is_valid_url(trim(text@)) ==> (r matches Some(u) && u@ == trim(text@)),
        !spec_is_valid_url(trim(text@)) ==> r is None,
{
    let t = trim_str(text);
    if is_valid_url(t.as_str()) {
        Some(t)
    } else {
        None
    }
}

} // verus!
