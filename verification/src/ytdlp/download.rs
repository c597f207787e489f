//! Download options, the yt-dlp argument list and the events of a download.
use vstd::prelude::*;
use vstd::string::*;
use crate::text::{decimal, join_seq, join_strings, trim, trim_str, u64_to_decimal};
use crate::ytdlp::parser::{DownloadProgress, ProgressView, parse_progress_line, progress_of, regex_captures, PROGRESS_PIPE_PATTERN, FALLBACK_PERCENT_PATTERN, FALLBACK_SPEED_PATTERN, FALLBACK_ETA_PATTERN};

verus! {

/// What is downloaded.
#[derive(Debug, Clone, PartialEq, Eq)]
pub enum DownloadMode {
    Video,
    Audio,
    ThumbnailOnly,
    CustomFormats { video_id: Option<String>, audio_id: Option<String> },
}

/// Upper bound on the video height that is requested.
#[derive(Debug, Clone, Copy, PartialEq, Eq, Structural)]
pub enum MaxResolution {
    Unlimited,
    Res2160p,
    Res1440p,
    Res1080p,
    Res720p,
    Res480p,
}

impl MaxResolution {
    /// Label shown in the resolution selector.
    pub open spec fn spec_label(self) -> Seq<char> {
        match self {
            MaxResolution::Unlimited => "Unlimited (Best)"@,
            MaxResolution::Res2160p => "2160p (4K)"@,
            MaxResolution::Res1440p => "1440p (2K)"@,
            MaxResolution::Res1080p => "1080p"@,
            MaxResolution::Res720p => "720p"@,
            MaxResolution::Res480p => "480p"@,
        }
    }

    pub fn label(&self) -> (r: &'static str)
        ensures
            r@ == self.spec_label(),
    {
        match self {
            MaxResolution::Unlimited => "Unlimited (Best)",
            MaxResolution::Res2160p => "2160p (4K)",
            MaxResolution::Res1440p => "1440p (2K)",
            MaxResolution::Res1080p => "1080p",
            MaxResolution::Res720p => "720p",
            MaxResolution::Res480p => "480p",
        }
    }

    /// The height limit in pixels, `None` when unlimited.
    pub open spec fn spec_height_limit(self) -> Option<u32> {
        match self {
            MaxResolution::Unlimited => None,
            MaxResolution::Res2160p => Some(2160),
            MaxResolution::Res1440p => Some(1440),
            MaxResolution::Res1080p => Some(1080),
            MaxResolution::Res720p => Some(720),
            MaxResolution::Res480p => Some(480),
        }
    }

    pub fn height_limit(&self) -> (r: Option<u32>)
        ensures
            r == self.spec_height_limit(),
    {
        match self {
            MaxResolution::Unlimited => None,
            MaxResolution::Res2160p => Some(2160),
            MaxResolution::Res1440p => Some(1440),
            MaxResolution::Res1080p => Some(1080),
            MaxResolution::Res720p => Some(720),
            MaxResolution::Res480p => Some(480),
        }
    }

    /// The next setting in the selector's cycle
    /// Unlimited, 1080p, 720p, 480p, 2160p, 1440p, Unlimited, ...
    pub open spec fn spec_next(self) -> MaxResolution {
        match self {
            MaxResolution::Unlimited => MaxResolution::Res1080p,
            MaxResolution::Res1080p => MaxResolution::Res720p,
            MaxResolution::Res720p => MaxResolution::Res480p,
            MaxResolution::Res480p => MaxResolution::Res2160p,
            MaxResolution::Res2160p => MaxResolution::Res1440p,
            MaxResolution::Res1440p => MaxResolution::Unlimited,
        }
    }

    pub fn next(&self) -> (r: Self)
        ensures
            r == self.spec_next(),
    {
        match self {
            MaxResolution::Unlimited => MaxResolution::Res1080p,
            MaxResolution::Res1080p => MaxResolution::Res720p,
            MaxResolution::Res720p => MaxResolution::Res480p,
            MaxResolution::Res480p => MaxResolution::Res2160p,
            MaxResolution::Res2160p => MaxResolution::Res1440p,
            MaxResolution::Res1440p => MaxResolution::Unlimited,
        }
    }
}

/// Stepping the resolution selector six times comes back to the starting setting, and
/// every setting is reached on the way.
pub proof fn law_resolution_cycle(r: MaxResolution)
    ensures
        r.spec_next().spec_next().spec_next().spec_next().spec_next().spec_next() == r,
        forall|x: MaxResolution|
            #![trigger x.spec_label()]
            x == r || x == r.spec_next() || x == r.spec_next().spec_next() || x
                == r.spec_next().spec_next().spec_next() || x
                == r.spec_next().spec_next().spec_next().spec_next() || x
                == r.spec_next().spec_next().spec_next().spec_next().spec_next(),
{
}

/// Audio format requested from yt-dlp when extracting audio.
#[derive(Debug, Clone, Copy, PartialEq, Eq, Structural)]
pub enum AudioFormat {
    Mp3,
    Flac,
    Opus,
    M4a,
}

impl AudioFormat {
    /// The format name as yt-dlp's `--audio-format` takes it.
    pub open spec fn spec_as_str(self) -> Seq<char> {
        match self {
            AudioFormat::Mp3 => "mp3"@,
            AudioFormat::Flac => "flac"@,
            AudioFormat::Opus => "opus"@,
            AudioFormat::M4a => "m4a"@,
        }
    }

    pub fn as_str(&self) -> (r: &'static str)
        ensures
            r@ == self.spec_as_str(),
    {
        match self {
            AudioFormat::Mp3 => "mp3",
            AudioFormat::Flac => "flac",
            AudioFormat::Opus => "opus",
            AudioFormat::M4a => "m4a",
        }
    }

    /// The next format in the selector's cycle mp3, flac, opus, m4a, mp3, ...
    pub open spec fn spec_next(self) -> AudioFormat {
        match self {
            AudioFormat::Mp3 => AudioFormat::Flac,
            AudioFormat::Flac => AudioFormat::Opus,
            AudioFormat::Opus => AudioFormat::M4a,
            AudioFormat::M4a => AudioFormat::Mp3,
        }
    }

    pub fn next(&self) -> (r: Self)
        ensures
            r == self.spec_next(),
    {
        match self {
            AudioFormat::Mp3 => AudioFormat::Flac,
            AudioFormat::Flac => AudioFormat::Opus,
            AudioFormat::Opus => AudioFormat::M4a,
            AudioFormat::M4a => AudioFormat::Mp3,
        }
    }
}

/// Stepping the audio format selector four times comes back to the starting format, and
/// every format is reached on the way.
pub proof fn law_audio_format_cycle(f: AudioFormat)
    ensures
        f.spec_next().spec_next().spec_next().spec_next() == f,
        forall|x: AudioFormat|
            #![trigger x.spec_as_str()]
            x == f || x == f.spec_next() || x == f.spec_next().spec_next() || x
                == f.spec_next().spec_next().spec_next(),
{
}

/// Parameters of one download job.
#[derive(Debug, Clone)]
pub struct DownloadOptions {
    pub url: String,
    /// Destination directory, as text.
    pub dest_dir: String,
    pub mode: DownloadMode,
    pub max_resolution: MaxResolution,
    pub audio_format: AudioFormat,
}

/// What a running download reports.
#[derive(Debug, Clone)]
pub enum DownloadEvent {
    Started,
    Progress(DownloadProgress),
    StatusMessage(String),
    Finished { success: bool, output_path: Option<String> },
    Error(String),
}

/// The `--progress-template` handed to yt-dlp: percent, speed, ETA and size separated by
/// `|`.
pub const PROGRESS_TEMPLATE: &'static str = "%(progress._percent_str)s|%(progress._speed_str)s|%(progress._eta_str)s|%(progress._total_bytes_estimate_str)s";

/// Output template for video, custom and audio-less downloads.
pub const VIDEO_OUTPUT_TEMPLATE: &'static str = "%(title)s [%(id)s].%(ext)s";

/// Output template for audio downloads.
pub const AUDIO_OUTPUT_TEMPLATE: &'static str = "%(artist,uploader)s - %(title)s [%(id)s].%(ext)s";

/// Output template for thumbnail-only downloads.
pub const THUMBNAIL_OUTPUT_TEMPLATE: &'static str = "%(title)s [%(id)s]_thumbnail.%(ext)s";

/// The `-f` selector for a video download under a height limit.
pub open spec fn video_format_selector(limit: Option<u32>) -> Seq<char> {
    match limit {
        Some(h) => "bv*[height<="@ + decimal(h as nat) + "]+ba/b"@,
        None => "bv*+ba/b"@,
    }
}

/// The `-f` selector for explicitly chosen streams.
pub open spec fn custom_format_selector(video_id: Option<Seq<char>>, audio_id: Option<Seq<char>>) -> Seq<char> {
    match (video_id, audio_id) {
        (Some(v), Some(a)) => v + "+"@ + a,
        (Some(v), None) => v,
        (None, Some(a)) => a,
        (None, None) => "best"@,
    }
}

/// The mode-dependent part of the argument list.
pub open spec fn mode_args(opts: DownloadOptions) -> Seq<Seq<char>> {
    match opts.mode {
        DownloadMode::Video => seq![
            "-f"@,
            video_format_selector(opts.max_resolution.spec_height_limit()),
            "--no-write-thumbnail"@,
            "-o"@,
            VIDEO_OUTPUT_TEMPLATE@,
        ],
        DownloadMode::Audio => seq![
            "-x"@,
            "--audio-format"@,
            opts.audio_format.spec_as_str(),
            "--audio-quality"@,
            "0"@,
            "--embed-thumbnail"@,
            "--add-metadata"@,
            "-o"@,
            AUDIO_OUTPUT_TEMPLATE@,
        ],
        DownloadMode::ThumbnailOnly => seq![
            "--write-thumbnail"@,
            "--skip-download"@,
            "--convert-thumbnails"@,
            "png"@,
            "-o"@,
            THUMBNAIL_OUTPUT_TEMPLATE@,
        ],
        DownloadMode::CustomFormats { video_id, audio_id } => seq![
            "-f"@,
            custom_format_selector(video_id.deep_view(), audio_id.deep_view()),
            "-o"@,
            VIDEO_OUTPUT_TEMPLATE@,
        ],
    }
}

/// The full yt-dlp argument list for a job: destination, progress template, the mode's
/// arguments, and the URL last.
pub open spec fn ytdlp_args(opts: DownloadOptions) -> Seq<Seq<char>> {
    seq!["-P"@, opts.dest_dir@, "--newline"@, "--progress-template"@, PROGRESS_TEMPLATE@]
        + mode_args(opts) + seq![opts.url@]
}

/// Every yt-dlp argument list names the destination first, asks for line-by-line progress
/// in the template the parser reads, and ends with the URL.
pub proof fn law_args_shape(opts: DownloadOptions)
    ensures
        ytdlp_args(opts).len() >= 6,
        ytdlp_args(opts)[0] == "-P"@,
        ytdlp_args(opts)[1] == opts.dest_dir@,
        ytdlp_args(opts)[2] == "--newline"@,
        ytdlp_args(opts)[4] == PROGRESS_TEMPLATE@,
        ytdlp_args(opts).last() == opts.url@,
{
}

/// A video job asks for the best video and the best audio (`-f bv*+ba/b`) when the
/// resolution is unlimited, and for the best video no taller than the limit otherwise
/// (`bv*[height<=H]+ba/b`, with H = 2160, 1440, 1080, 720 or 480); it does not ask for a
/// thumbnail file and names the file after the title and id.
pub proof fn law_video_selector(opts: DownloadOptions)
    requires
        opts.mode is Video,
    ensures
        ytdlp_args(opts).len() == 11,
        ytdlp_args(opts)[5] == "-f"@,
        opts.max_resolution is Unlimited ==> ytdlp_args(opts)[6] == "bv*+ba/b"@,
        opts.max_resolution is Res2160p ==> ytdlp_args(opts)[6] == "bv*[height<="@ + decimal(2160) + "]+ba/b"@,
        opts.max_resolution is Res1440p ==> ytdlp_args(opts)[6] == "bv*[height<="@ + decimal(1440) + "]+ba/b"@,
        opts.max_resolution is Res1080p ==> ytdlp_args(opts)[6] == "bv*[height<="@ + decimal(1080) + "]+ba/b"@,
        opts.max_resolution is Res720p ==> ytdlp_args(opts)[6] == "bv*[height<="@ + decimal(720) + "]+ba/b"@,
        opts.max_resolution is Res480p ==> ytdlp_args(opts)[6] == "bv*[height<="@ + decimal(480) + "]+ba/b"@,
        ytdlp_args(opts)[7] == "--no-write-thumbnail"@,
        ytdlp_args(opts)[8] == "-o"@,
        ytdlp_args(opts)[9] == "%(title)s [%(id)s].%(ext)s"@,
        ytdlp_args(opts)[10] == opts.url@,
{
}

fn push_owned(v: &mut Vec<String>, s: String)
    ensures
        final(v).deep_view() == old(v).deep_view().push(s@),
{
    v.push(s);
}

fn push_lit(v: &mut Vec<String>, s: &str)
    ensures
        final(v).deep_view() == old(v).deep_view().push(s@),
{
    v.push(String::from_str(s));
}

/// Builds the yt-dlp command-line arguments for a job.
pub fn build_ytdlp_args(opts: &DownloadOptions) -> (r: Vec<String>)
    ensures
        r.deep_view() == ytdlp_args(*opts),
{
    let mut args: Vec<String> = Vec::new();
    push_lit(&mut args, "-P");
    push_owned(&mut args, opts.dest_dir.clone());
    push_lit(&mut args, "--newline");
    push_lit(&mut args, "--progress-template");
    push_lit(&mut args, PROGRESS_TEMPLATE);
    let ghost head = args.deep_view();
    assert(head == seq!["-P"@, opts.dest_dir@, "--newline"@, "--progress-template"@, PROGRESS_TEMPLATE@]);
    match &opts.mode {
        DownloadMode::Video => {
            let format_str = match opts.max_resolution.height_limit() {
                Some(h) => {
                    let mut s = String::from_str("bv*[height<=");
                    let d = u64_to_decimal(h as u64);
                    s.append(d.as_str());
                    s.append("]+ba/b");
                    s
                },
                None => String::from_str("bv*+ba/b"),
            };
            push_lit(&mut args, "-f");
            push_owned(&mut args, format_str);
            push_lit(&mut args, "--no-write-thumbnail");
            push_lit(&mut args, "-o");
            push_lit(&mut args, VIDEO_OUTPUT_TEMPLATE);
            assert(args.deep_view() == head + mode_args(*opts));
        },
        DownloadMode::Audio => {
            push_lit(&mut args, "-x");
            push_lit(&mut args, "--audio-format");
            push_lit(&mut args, opts.audio_format.as_str());
            push_lit(&mut args, "--audio-quality");
            push_lit(&mut args, "0");
            push_lit(&mut args, "--embed-thumbnail");
            push_lit(&mut args, "--add-metadata");
            push_lit(&mut args, "-o");
            push_lit(&mut args, AUDIO_OUTPUT_TEMPLATE);
            assert(args.deep_view() == head + mode_args(*opts));
        },
        DownloadMode::ThumbnailOnly => {
            push_lit(&mut args, "--write-thumbnail");
            push_lit(&mut args, "--skip-download");
            push_lit(&mut args, "--convert-thumbnails");
            push_lit(&mut args, "png");
            push_lit(&mut args, "-o");
            push_lit(&mut args, THUMBNAIL_OUTPUT_TEMPLATE);
            assert(args.deep_view() == head + mode_args(*opts));
        },
        DownloadMode::CustomFormats { video_id, audio_id } => {
            let selector = match (video_id, audio_id) {
                (Some(v), Some(a)) => {
                    let mut s = v.clone();
                    s.append("+");
                    s.append(a.as_str());
                    s
                },
                (Some(v), None) => v.clone(),
                (None, Some(a)) => a.clone(),
                (None, None) => String::from_str("best"),
            };
            push_lit(&mut args, "-f");
            push_owned(&mut args, selector);
            push_lit(&mut args, "-o");
            push_lit(&mut args, VIDEO_OUTPUT_TEMPLATE);
            assert(args.deep_view() == head + mode_args(*opts));
        },
    }
    push_owned(&mut args, opts.url.clone());
    assert(args.deep_view() == ytdlp_args(*opts));
    args
}

} // verus!

verus! {

/// Mathematical view of a [`DownloadEvent`].
pub enum EventView {
    Started,
    Progress(ProgressView),
    StatusMessage(Seq<char>),
    Finished { success: bool, output_path: Option<Seq<char>> },
    Error(Seq<char>),
}

impl View for DownloadEvent {
    type V = EventView;

    open spec fn view(&self) -> EventView {
        match self {
            DownloadEvent::Started => EventView::Started,
            DownloadEvent::Progress(p) => EventView::Progress(p@),
            DownloadEvent::StatusMessage(s) => EventView::StatusMessage(s@),
            DownloadEvent::Finished { success, output_path } => EventView::Finished {
                success: *success,
                output_path: output_path.deep_view(),
            },
            DownloadEvent::Error(s) => EventView::Error(s@),
        }
    }
}

/// Views of a list of events.
pub open spec fn events_view(v: Seq<DownloadEvent>) -> Seq<EventView> {
    v.map_values(|e: DownloadEvent| e@)
}

/// The status line shown when yt-dlp is launched.
pub fn command_message(args: &Vec<String>) -> (r: String)
    ensures
        r@ == "Executing: yt-dlp "@ + join_seq(args.deep_view(), " "@),
{
    let mut s = String::from_str("Executing: yt-dlp ");
    let j = join_strings(args, " ");
    s.append(j.as_str());
    s
}

/// The event a line of yt-dlp's standard output gives: progress when it parses as such,
/// otherwise the line itself as a status message unless it is blank.
pub open spec fn stdout_line_event_of(line: Seq<char>, progress: Option<ProgressView>) -> Option<EventView> {
    match progress {
        Some(p) => Some(EventView::Progress(p)),
        None => if trim(line).len() == 0 {
            None
        } else {
            Some(EventView::StatusMessage(line))
        },
    }
}

/// The event a line of yt-dlp's standard output gives (see [`stdout_line_event_of`]).
pub fn stdout_line_event(line: &str) -> (r: Option<DownloadEvent>)
    ensures
        ({
            let t = trim(line@);
            let p = progress_of(
                t,
                regex_captures(PROGRESS_PIPE_PATTERN@, t),
                regex_captures(FALLBACK_PERCENT_PATTERN@, t),
                regex_captures(FALLBACK_SPEED_PATTERN@, t),
                regex_captures(FALLBACK_ETA_PATTERN@, t),
            );
            &&& r matches Some(e) ==> Some(e@) == stdout_line_event_of(line@, p)
            &&& r is None <==> stdout_line_event_of(line@, p) is None
        }),
{
    match parse_progress_line(line) {
        Some(p) => Some(DownloadEvent::Progress(p)),
        None => {
            let t = trim_str(line);
            if t.as_str().is_empty() {
                None
            } else {
                Some(DownloadEvent::StatusMessage(String::from_str(line)))
            }
        },
    }
}

/// The event a line of yt-dlp's standard error gives: a status message prefixed with
/// `yt-dlp: `, nothing for a blank line.
pub fn stderr_line_event(line: &str) -> (r: Option<DownloadEvent>)
    ensures
        trim(line@).len() == 0 ==> r is None,
        trim(line@).len() != 0 ==> (r matches Some(e) && e@ == EventView::StatusMessage(
            "yt-dlp: "@ + line@,
        )),
{
    let t = trim_str(line);
    if t.as_str().is_empty() {
        None
    } else {
        let mut s = String::from_str("yt-dlp: ");
        s.append(line);
        Some(DownloadEvent::StatusMessage(s))
    }
}

/// The events sent when yt-dlp could not be started: the error, then an unsuccessful end.
pub fn launch_failure_events(err: &str) -> (r: Vec<DownloadEvent>)
    ensures
        events_view(r@) == seq![
            EventView::Error("Failed to start yt-dlp: "@ + err@),
            EventView::Finished { success: false, output_path: None },
        ],
{
    let mut s = String::from_str("Failed to start yt-dlp: ");
    s.append(err);
    let mut v: Vec<DownloadEvent> = Vec::new();
    v.push(DownloadEvent::Error(s));
    v.push(DownloadEvent::Finished { success: false, output_path: None });
    assert(events_view(v@) =~= seq![
        EventView::Error("Failed to start yt-dlp: "@ + err@),
        EventView::Finished { success: false, output_path: None },
    ]);
    v
}

/// How the yt-dlp process ended.
#[derive(Debug, Clone)]
pub enum ExitOutcome {
    /// Exited with a success status.
    Success,
    /// Exited with a failure status, described by the text.
    Failed(String),
    /// Waiting for the process failed with the given error text.
    WaitError(String),
}

/// The events sent when yt-dlp has ended: a successful end that names the destination
/// directory, or an error followed by an unsuccessful end.
pub fn exit_events(outcome: &ExitOutcome, dest_dir: &str) -> (r: Vec<DownloadEvent>)
    ensures
        match outcome {
            ExitOutcome::Success => events_view(r@) == seq![
                EventView::Finished { success: true, output_path: Some(dest_dir@) },
            ],
            ExitOutcome::Failed(status) => events_view(r@) == seq![
                EventView::Error("yt-dlp exited with status "@ + status@),
                EventView::Finished { success: false, output_path: None },
            ],
            ExitOutcome::WaitError(e) => events_view(r@) == seq![
                EventView::Error("Error waiting for yt-dlp: "@ + e@),
                EventView::Finished { success: false, output_path: None },
            ],
        },
{
    let mut v: Vec<DownloadEvent> = Vec::new();
    match outcome {
        ExitOutcome::Success => {
            v.push(DownloadEvent::Finished { success: true, output_path: Some(String::from_str(dest_dir)) });
        },
        ExitOutcome::Failed(status) => {
            let mut s = String::from_str("yt-dlp exited with status ");
            s.append(status.as_str());
            v.push(DownloadEvent::Error(s));
            v.push(DownloadEvent::Finished { success: false, output_path: None });
        },
        ExitOutcome::WaitError(e) => {
            let mut s = String::from_str("Error waiting for yt-dlp: ");
            s.append(e.as_str());
            v.push(DownloadEvent::Error(s));
            v.push(DownloadEvent::Finished { success: false, output_path: None });
        },
    }
    proof {
        match outcome {
            ExitOutcome::Success => {
                assert(events_view(v@) =~= seq![
                    EventView::Finished { success: true, output_path: Some(dest_dir@) },
                ]);
            },
            ExitOutcome::Failed(status) => {
                assert(events_view(v@) =~= seq![
                    EventView::Error("yt-dlp exited with status "@ + status@),
                    EventView::Finished { success: false, output_path: None },
                ]);
            },
            ExitOutcome::WaitError(e) => {
                assert(events_view(v@) =~= seq![
                    EventView::Error("Error waiting for yt-dlp: "@ + e@),
                    EventView::Finished { success: false, output_path: None },
                ]);
            },
        }
    }
    v
}

} // verus!
