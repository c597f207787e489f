//! Parsing of yt-dlp progress lines.
use vstd::prelude::*;
use vstd::string::*;
use crate::text::{chars_of, lemma_trim_idempotent, str_eq, trim, trim_str};

verus! {

/// Pattern of the pipe-separated progress template printed with `--progress-template`.
pub const PROGRESS_PIPE_PATTERN: &'static str = r"^\s*([\d.]+)%\s*\|\s*([^|]*)\|\s*([^|]*)\|\s*(.*)$";

/// Pattern of the percentage in yt-dlp's standard `[download]` line.
pub const FALLBACK_PERCENT_PATTERN: &'static str = r"\[download\]\s+([\d.]+)%";

/// Pattern of the speed in yt-dlp's standard `[download]` line.
pub const FALLBACK_SPEED_PATTERN: &'static str = r"at\s+([~0-9.]+[kKMGT]?i?B/s)";

/// Pattern of the ETA in yt-dlp's standard `[download]` line.
pub const FALLBACK_ETA_PATTERN: &'static str = r"ETA\s+([\d:]+)";

/// The groups that `regex::Regex::captures` reports when `pattern` is compiled and run on
/// `haystack`: `None` when the pattern does not compile or does not match, otherwise one
/// entry per capture group (group 0 first), `None` for a group that did not participate.
pub uninterp spec fn regex_captures(pattern: Seq<char>, haystack: Seq<char>) -> Option<
    Seq<Option<Seq<char>>>,
>;

/// Compiles `pattern` with `regex::Regex::new` and runs `regex::Regex::captures` on
/// `haystack`, turning each group into an owned string. The contract only names the
/// result (`regex_captures`); what the regex engine matches is not restated here.
#[verifier::external_body]
fn captures(pattern: &str, haystack: &str) -> (r: Option<Vec<Option<String>>>)
    ensures
        r.deep_view() == regex_captures(pattern@, haystack@),
{
    match regex::Regex::new(pattern) {
        Ok(re) => re.captures(haystack).map(
            |c| c.iter().map(|m| m.map(|m| m.as_str().to_string())).collect(),
        ),
        Err(_) => None,
    }
}

/// Download progress as shown in the progress gauge.
#[derive(Debug, Clone, PartialEq)]
pub struct DownloadProgress {
    /// Percentage as decimal text (`"75.4"`); `"0"` when the line carried no usable number.
    pub percent: String,
    pub speed: String,
    pub eta: String,
    pub total_size: String,
    pub raw_status: String,
}

/// Mathematical view of a [`DownloadProgress`].
pub struct ProgressView {
    pub percent: Seq<char>,
    pub speed: Seq<char>,
    pub eta: Seq<char>,
    pub total_size: Seq<char>,
    pub raw_status: Seq<char>,
}

impl View for DownloadProgress {
    type V = ProgressView;

    open spec fn view(&self) -> ProgressView {
        ProgressView {
            percent: self.percent@,
            speed: self.speed@,
            eta: self.eta@,
            total_size: self.total_size@,
            raw_status: self.raw_status@,
        }
    }
}

impl DownloadProgress {
    /// The state before any progress was reported: zero percent, empty texts.
    pub fn initial() -> (r: DownloadProgress)
        ensures
            r@.percent == "0"@,
            r@.speed.len() == 0,
            r@.eta.len() == 0,
            r@.total_size.len() == 0,
            r@.raw_status.len() == 0,
    {
        DownloadProgress {
            percent: String::from_str("0"),
            speed: String::new(),
            eta: String::new(),
            total_size: String::new(),
            raw_status: String::new(),
        }
    }
}

/// Text that `f64::from_str` accepts among texts made of digits and dots: ASCII digits
/// and at most one dot, with at least one digit.
pub open spec fn is_plain_decimal(s: Seq<char>) -> bool {
    &&& forall|i: int| 0 <= i < s.len() ==> ('0' <= #[trigger] s[i] <= '9' || s[i] == '.')
    &&& exists|i: int| 0 <= i < s.len() && '0' <= #[trigger] s[i] <= '9'
    &&& forall|i: int, j: int|
        #![trigger s[i], s[j]]
        0 <= i < j < s.len() && s[i] == '.' ==> s[j] != '.'
}

/// The percentage that a captured number stands for: the text itself when it parses as a
/// number, `"0"` otherwise.
pub open spec fn percent_text(g: Option<Seq<char>>) -> Seq<char> {
    match g {
        Some(t) => if is_plain_decimal(t) {
            t
        } else {
            "0"@
        },
        None => "0"@,
    }
}

/// Group `i` of a capture list, `None` when there is no such group.
pub open spec fn group(c: Seq<Option<Seq<char>>>, i: int) -> Option<Seq<char>> {
    if 0 <= i < c.len() {
        c[i]
    } else {
        None
    }
}

/// A missing value (empty or `NA`) is shown as `--`.
pub open spec fn or_dashes(s: Seq<char>) -> Seq<char> {
    if s.len() == 0 || s == "NA"@ {
        "--"@
    } else {
        s
    }
}

/// A trimmed template field, empty when the group is absent.
pub open spec fn field(c: Seq<Option<Seq<char>>>, i: int) -> Seq<char> {
    match group(c, i) {
        Some(t) => or_dashes(trim(t)),
        None => "--"@,
    }
}

/// Group 1 of an optional capture list, `--` when absent.
pub open spec fn first_group_or_dashes(c: Option<Seq<Option<Seq<char>>>>) -> Seq<char> {
    match c {
        Some(caps) => match group(caps, 1) {
            Some(t) => t,
            None => "--"@,
        },
        None => "--"@,
    }
}

/// The progress that a trimmed line stands for, given what the pipe pattern and the
/// fallback patterns capture on it.
pub open spec fn progress_of(
    trimmed: Seq<char>,
    pipe: Option<Seq<Option<Seq<char>>>>,
    percent: Option<Seq<Option<Seq<char>>>>,
    speed: Option<Seq<Option<Seq<char>>>>,
    eta: Option<Seq<Option<Seq<char>>>>,
) -> Option<ProgressView> {
    match pipe {
        Some(c) => Some(
            ProgressView {
                percent: percent_text(group(c, 1)),
                speed: field(c, 2),
                eta: field(c, 3),
                total_size: field(c, 4),
                raw_status: trimmed,
            },
        ),
        None => match percent {
            Some(c) => Some(
                ProgressView {
                    percent: percent_text(group(c, 1)),
                    speed: first_group_or_dashes(speed),
                    eta: first_group_or_dashes(eta),
                    total_size: "--"@,
                    raw_status: trimmed,
                },
            ),
            None => None,
        },
    }
}


/// Whether a text is a plain decimal number (see [`is_plain_decimal`]).
pub fn plain_decimal(s: &Vec<char>) -> (r: bool)
    ensures
        r == is_plain_decimal(s@),
{
    let mut seen_digit = false;
    let mut seen_dot = false;
    let mut dot_at: usize = 0;
    let mut i: usize = 0;
    while i < s.len()
        invariant
            i <= s.len(),
            forall|k: int| 0 <= k < i ==> ('0' <= #[trigger] s@[k] <= '9' || s@[k] == '.'),
            seen_digit == exists|k: int| 0 <= k < i && '0' <= #[trigger] s@[k] <= '9',
            seen_dot ==> dot_at < i && s@[dot_at as int] == '.',
            !seen_dot ==> forall|k: int| 0 <= k < i ==> #[trigger] s@[k] != '.',
            seen_dot ==> forall|k: int| 0 <= k < i && k != dot_at ==> #[trigger] s@[k] != '.',
        decreases s.len() - i,
    {
        let c = s[i];
        if '0' <= c && c <= '9' {
            seen_digit = true;
        } else if c == '.' {
            if seen_dot {
                assert(s@[dot_at as int] == '.' && s@[i as int] == '.');
                return false;
            }
            seen_dot = true;
            dot_at = i;
        } else {
            return false;
        }
        i += 1;
    }
    if !seen_digit {
        return false;
    }
    proof {
        assert forall|a: int, b: int|
            #![trigger s@[a], s@[b]]
            0 <= a < b < s@.len() && s@[a] == '.' implies s@[b] != '.' by {
            if seen_dot {
                assert(a == dot_at);
            }
        }
    }
    true
}

/// Group `i` of an exec capture list.
fn group_exec(c: &Vec<Option<String>>, i: usize) -> (r: Option<String>)
    ensures
        r.deep_view() == group(c.deep_view(), i as int),
{
    if i < c.len() {
        match &c[i] {
            Some(t) => Some(t.clone()),
            None => None,
        }
    } else {
        None
    }
}

fn percent_text_exec(g: Option<String>) -> (r: String)
    ensures
        r@ == percent_text(g.deep_view()),
{
    match g {
        Some(t) => {
            let v = chars_of(t.as_str());
            if plain_decimal(&v) {
                t
            } else {
                String::from_str("0")
            }
        },
        None => String::from_str("0"),
    }
}

fn or_dashes_exec(s: String) -> (r: String)
    ensures
        r@ == or_dashes(s@),
{
    if s.as_str().is_empty() || str_eq(s.as_str(), "NA") {
        String::from_str("--")
    } else {
        s
    }
}

fn field_exec(c: &Vec<Option<String>>, i: usize) -> (r: String)
    ensures
        r@ == field(c.deep_view(), i as int),
{
    match group_exec(c, i) {
        Some(t) => or_dashes_exec(trim_str(t.as_str())),
        None => String::from_str("--"),
    }
}

fn first_group_or_dashes_exec(c: Option<Vec<Option<String>>>) -> (r: String)
    ensures
        r@ == first_group_or_dashes(c.deep_view()),
{
    match c {
        Some(caps) => match group_exec(&caps, 1) {
            Some(t) => t,
            None => String::from_str("--"),
        },
        None => String::from_str("--"),
    }
}

/// The progress for a trimmed line, given what each pattern captured on it
/// (see [`progress_of`]).
pub fn progress_from_captures(
    trimmed: &str,
    pipe: Option<Vec<Option<String>>>,
    percent: Option<Vec<Option<String>>>,
    speed: Option<Vec<Option<String>>>,
    eta: Option<Vec<Option<String>>>,
) -> (r: Option<DownloadProgress>)
    ensures
        r matches Some(p) ==> Some(p@) == progress_of(
            trimmed@,
            pipe.deep_view(),
            percent.deep_view(),
            speed.deep_view(),
            eta.deep_view(),
        ),
        r is None <==> progress_of(
            trimmed@,
            pipe.deep_view(),
            percent.deep_view(),
            speed.deep_view(),
            eta.deep_view(),
        ) is None,
{
    match pipe {
        Some(c) => {
            let percent = percent_text_exec(group_exec(&c, 1));
            let speed = field_exec(&c, 2);
            let eta = field_exec(&c, 3);
            let total_size = field_exec(&c, 4);
            Some(
                DownloadProgress {
                    percent,
                    speed,
                    eta,
                    total_size,
                    raw_status: String::from_str(trimmed),
                },
            )
        },
        None => match percent {
            Some(c) => {
                let percent = percent_text_exec(group_exec(&c, 1));
                Some(
                    DownloadProgress {
                        percent,
                        speed: first_group_or_dashes_exec(speed),
                        eta: first_group_or_dashes_exec(eta),
                        total_size: String::from_str("--"),
                        raw_status: String::from_str(trimmed),
                    },
                )
            },
            None => None,
        },
    }
}

/// Parses one line of yt-dlp output into download progress: first as the pipe-separated
/// progress template, then as yt-dlp's standard `[download]` line; `None` for any other
/// line.
pub fn parse_progress_line(line: &str) -> (r: Option<DownloadProgress>)
    ensures
        ({
            let t = trim(line@);
            let pipe = regex_captures(PROGRESS_PIPE_PATTERN@, t);
            let pct = regex_captures(FALLBACK_PERCENT_PATTERN@, t);
            let spd = regex_captures(FALLBACK_SPEED_PATTERN@, t);
            let eta = regex_captures(FALLBACK_ETA_PATTERN@, t);
            &&& r matches Some(p) ==> Some(p@) == progress_of(t, pipe, pct, spd, eta)
            &&& r is None <==> progress_of(t, pipe, pct, spd, eta) is None
        }),
{
    let trimmed = trim_str(line);
    let t = trimmed.as_str();
    let pipe = captures(PROGRESS_PIPE_PATTERN, t);
    if pipe.is_some() {
        return progress_from_captures(t, pipe, None, None, None);
    }
    let pct = captures(FALLBACK_PERCENT_PATTERN, t);
    if pct.is_none() {
        return progress_from_captures(t, pipe, pct, None, None);
    }
    let spd = captures(FALLBACK_SPEED_PATTERN, t);
    let eta = captures(FALLBACK_ETA_PATTERN, t);
    progress_from_captures(t, pipe, pct, spd, eta)
}


/// A progress line's percentage is always a number: a plain decimal as printed, or `0`.
pub proof fn law_percent_is_number(
    trimmed: Seq<char>,
    pipe: Option<Seq<Option<Seq<char>>>>,
    percent: Option<Seq<Option<Seq<char>>>>,
    speed: Option<Seq<Option<Seq<char>>>>,
    eta: Option<Seq<Option<Seq<char>>>>,
)
    ensures
        progress_of(trimmed, pipe, percent, speed, eta) matches Some(p) ==> (is_plain_decimal(p.percent)
            || p.percent == "0"@),
{
}


/// The progress that a line of yt-dlp's output stands for (what [`parse_progress_line`]
/// returns, by view).
pub open spec fn line_progress(line: Seq<char>) -> Option<ProgressView> {
    let t = trim(line);
    progress_of(
        t,
        regex_captures(PROGRESS_PIPE_PATTERN@, t),
        regex_captures(FALLBACK_PERCENT_PATTERN@, t),
        regex_captures(FALLBACK_SPEED_PATTERN@, t),
        regex_captures(FALLBACK_ETA_PATTERN@, t),
    )
}

/// Surrounding whitespace does not matter to a progress line; a parsed line keeps its
/// trimmed text, its percentage is a number and its size is never empty; when the
/// template matched, speed and ETA are never empty either (a missing value shows `--`).
pub proof fn law_progress_line(line: Seq<char>)
    ensures
        line_progress(trim(line)) == line_progress(line),
        line_progress(line) matches Some(p) ==> {
            &&& p.raw_status == trim(line)
            &&& is_plain_decimal(p.percent) || p.percent == "0"@
            &&& p.total_size.len() > 0
            &&& regex_captures(PROGRESS_PIPE_PATTERN@, trim(line)) is Some ==> p.speed.len() > 0
                && p.eta.len() > 0
        },
{
    lemma_trim_idempotent(line);
    reveal_strlit("--");
}

} // verus!
