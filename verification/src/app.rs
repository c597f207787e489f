//! The application state and every decision the interface makes on it.
//!
//! The state changes here are the whole behaviour of the interface; what they ask of the
//! outside world (fetching, downloading, reading a folder, launching a program) comes back
//! as an [`Effect`] for the caller to carry out.
use vstd::prelude::*;
use vstd::string::*;
use crate::browser::{DirBrowserState, below_root, create_dir_failure_message};
use crate::config::{AppConfig, bookmarks_view, first_in_category, position_of_category};
use crate::paths::{join_path, path_parent};
use crate::text::{concat2, concat3, contains_seq, contains_str, path_debug_quoted, path_debug_text, drop_last_char, lemma_trim_idempotent, push_char, str_eq, trim, trim_str};
use crate::ytdlp::download::{AudioFormat, DownloadEvent, DownloadMode, DownloadOptions, MaxResolution};
use crate::ytdlp::models::{MediaInfo, areas_fit, formats_view, resolution_text, thumbs_view, unique_thumbnails_of};
use crate::ytdlp::parser::{DownloadProgress, ProgressView};

verus! {

/// Which screen is in front.
#[derive(Debug, Clone, Copy, PartialEq, Eq, Structural)]
pub enum AppScreenMode {
    Normal,
    FormatSelectModal,
    DirBrowserModal,
    ImageSelectModal,
}

/// Outside work that a state change asks for.
#[derive(Debug, Clone)]
pub enum Effect {
    /// Clear the preview, then fetch the metadata (and then the thumbnail) of a URL.
    FetchMedia(String),
    /// Read the clipboard and hand the URL found to [`AppState::paste_clipboard`].
    ReadClipboard,
    /// Launch MusicBrainz Picard on a directory and report with [`AppState::picard_result`].
    OpenPicard(String),
    /// Download an image into a directory under a base name.
    SaveImage { url: String, dest_dir: String, base_name: String },
    /// Start a yt-dlp download.
    StartDownload(DownloadOptions),
    /// Reload the folder browser's rows from its current directory.
    ReloadDir,
    /// Create a directory and report with [`AppState::dir_created`].
    CreateDir(String),
    /// Show a desktop notification.
    Notify { summary: String, body: String },
    /// Show the thumbnail that was fetched as the preview of the given URL.
    ShowPreview(String),
    /// Leave the application.
    Quit,
}

/// The application state.
pub struct AppState {
    pub url_input: String,
    pub is_editing_url: bool,
    pub mode: DownloadMode,
    pub max_resolution: MaxResolution,
    pub audio_format: AudioFormat,
    pub config: AppConfig,
    pub current_bookmark_index: usize,
    pub current_dest_path: String,
    pub dir_browser: DirBrowserState,
    pub screen_mode: AppScreenMode,
    pub media_info: Option<MediaInfo>,
    pub is_fetching_meta: bool,
    pub spinner_frame: usize,
    pub format_list_selected: usize,
    pub custom_video_format: Option<String>,
    pub custom_audio_format: Option<String>,
    pub image_list_selected: usize,
    pub is_downloading: bool,
    pub progress: DownloadProgress,
    pub status_message: String,
    pub last_download_dir: Option<String>,
}

impl AppState {
    /// The state is consistent: loaded media have thumbnails whose areas can be computed.
    pub open spec fn wf(self) -> bool {
        self.media_info matches Some(m) ==> areas_fit(m@.thumbnails)
    }
}

/// The bookmark category that a download mode saves into.
pub open spec fn mode_category(m: DownloadMode) -> Seq<char> {
    match m {
        DownloadMode::Audio => "audio"@,
        DownloadMode::Video => "video"@,
        DownloadMode::CustomFormats { .. } => "video"@,
        DownloadMode::ThumbnailOnly => "any"@,
    }
}

fn mode_category_exec(m: &DownloadMode) -> (r: &'static str)
    ensures
        r@ == mode_category(*m),
{
    match m {
        DownloadMode::Audio => "audio",
        DownloadMode::Video => "video",
        DownloadMode::CustomFormats { .. } => "video",
        DownloadMode::ThumbnailOnly => "any",
    }
}

/// The mode after `Tab`: Video, Audio, Thumbnail only, Video, ...; custom streams go back
/// to Video.
pub open spec fn next_mode(m: DownloadMode) -> DownloadMode {
    match m {
        DownloadMode::Video => DownloadMode::Audio,
        DownloadMode::Audio => DownloadMode::ThumbnailOnly,
        _ => DownloadMode::Video,
    }
}

/// The folder browser pointed at a new root (and into it): selection on the first row, the
/// new-folder prompt closed and emptied, no error; the rows are left to be reloaded.
pub open spec fn browser_reset(old: DirBrowserState, new: DirBrowserState, root: Seq<char>) -> bool {
    &&& new == (DirBrowserState {
        root_path: new.root_path,
        current_path: new.current_path,
        selected_index: 0,
        is_creating_dir: false,
        new_dir_input: new.new_dir_input,
        error_message: None,
        ..old
    })
    &&& new.root_path@ == root
    &&& new.current_path@ == root
    &&& new.new_dir_input@.len() == 0
}

/// Pointing the destination at a bookmark: its index, its path as destination, and the
/// browser reset to it (see [`browser_reset`]).
pub open spec fn dest_switched(old: AppState, new: AppState, index: int) -> bool {
    let root = old.config.bookmarks@[index].path;
    &&& new.current_bookmark_index == index
    &&& new.current_dest_path@ == root@
    &&& browser_reset(old.dir_browser, new.dir_browser, root@)
}

/// The destination follows the mode: when a bookmark of the mode's category exists, the
/// first one becomes the destination (see [`dest_switched`]) and the rows are to be
/// reloaded; otherwise nothing changes.
pub open spec fn dest_synced(old: AppState, new: AppState, reload: bool) -> bool {
    match first_in_category(bookmarks_view(old.config.bookmarks@), mode_category(old.mode)) {
        Some(i) => {
            &&& reload
            &&& dest_switched(old, new, i)
            &&& new == (AppState {
                current_bookmark_index: new.current_bookmark_index,
                current_dest_path: new.current_dest_path,
                dir_browser: new.dir_browser,
                ..old
            })
        },
        None => !reload && new == old,
    }
}

/// Only the status line changed, to `msg`.
pub open spec fn status_only(old: AppState, new: AppState, msg: Seq<char>) -> bool {
    &&& new == (AppState { status_message: new.status_message, ..old })
    &&& new.status_message@ == msg
}

/// Cycling the mode (see [`next_mode`]) and then syncing the destination with it.
pub open spec fn toggle_mode_post(old: AppState, new: AppState, r: Option<Effect>) -> bool {
    &&& dest_synced(AppState { mode: next_mode(old.mode), ..old }, new, r is Some)
    &&& r matches Some(e) ==> e is ReloadDir
}

/// Switching to bookmark `index`: the destination points at it (see [`dest_switched`]),
/// the status names it, and the rows are to be reloaded; past the bookmarks nothing
/// happens.
pub open spec fn switch_post(old: AppState, new: AppState, index: int, r: Option<Effect>) -> bool {
    if 0 <= index < old.config.bookmarks@.len() {
        &&& r matches Some(e) && e is ReloadDir
        &&& dest_switched(old, new, index)
        &&& new.status_message@ == "Root directory switched to: "@ + old.config.bookmarks@[index].name@
        &&& new == (AppState {
            current_bookmark_index: new.current_bookmark_index,
            current_dest_path: new.current_dest_path,
            dir_browser: new.dir_browser,
            status_message: new.status_message,
            ..old
        })
    } else {
        r is None && new == old
    }
}

/// Taking a URL: with a non-blank URL, the trimmed URL becomes the input, editing stops,
/// the previous media and stream choices are dropped, and its metadata is to be fetched. A
/// blank URL changes nothing.
pub open spec fn set_url_post(old: AppState, new: AppState, url: Seq<char>, r: Option<Effect>) -> bool {
    if trim(url).len() == 0 {
        r is None && new == old
    } else {
        &&& r matches Some(Effect::FetchMedia(u)) && u@ == trim(url)
        &&& new.url_input@ == trim(url)
        &&& new.status_message@ == "⏳ Fetching media info for: "@ + trim(url)
        &&& new == (AppState {
            url_input: new.url_input,
            is_editing_url: false,
            is_fetching_meta: true,
            status_message: new.status_message,
            media_info: None,
            custom_video_format: None,
            custom_audio_format: None,
            ..old
        })
    }
}

impl AppState {
    /// A fresh state for a configuration and a folder browser: no URL, Video mode at
    /// unlimited resolution, mp3 audio, the first bookmark as destination, then the
    /// destination synced with the mode (see [`dest_synced`]). `ReloadDir` is returned when
    /// the browser was moved.
    pub fn new(config: AppConfig, dir_browser: DirBrowserState, initial_dest: String) -> (r: (AppState, Option<Effect>))
        ensures
            r.0.wf(),
            ({
                let s0 = AppState {
                    url_input: r.0.url_input,
                    is_editing_url: false,
                    mode: DownloadMode::Video,
                    max_resolution: MaxResolution::Unlimited,
                    audio_format: AudioFormat::Mp3,
                    config: config,
                    current_bookmark_index: 0,
                    current_dest_path: initial_dest,
                    dir_browser: dir_browser,
                    screen_mode: AppScreenMode::Normal,
                    media_info: None,
                    is_fetching_meta: false,
                    spinner_frame: 0,
                    format_list_selected: 0,
                    custom_video_format: None,
                    custom_audio_format: None,
                    image_list_selected: 0,
                    is_downloading: false,
                    progress: r.0.progress,
                    status_message: r.0.status_message,
                    last_download_dir: None,
                };
                &&& r.0.url_input@.len() == 0
                &&& r.0.progress@.percent == "0"@
                &&& r.0.status_message@
                    == "Press 'v' to paste URL from clipboard. Press 'P' to open Picard."@
                &&& dest_synced(s0, r.0, r.1 is Some)
                &&& (r.1 matches Some(e) ==> e is ReloadDir)
            }),
    {
        let mut app = AppState {
            url_input: String::new(),
            is_editing_url: false,
            mode: DownloadMode::Video,
            max_resolution: MaxResolution::Unlimited,
            audio_format: AudioFormat::Mp3,
            config,
            current_bookmark_index: 0,
            current_dest_path: initial_dest,
            dir_browser,
            screen_mode: AppScreenMode::Normal,
            media_info: None,
            is_fetching_meta: false,
            spinner_frame: 0,
            format_list_selected: 0,
            custom_video_format: None,
            custom_audio_format: None,
            image_list_selected: 0,
            is_downloading: false,
            progress: DownloadProgress::initial(),
            status_message: String::from_str(
                "Press 'v' to paste URL from clipboard. Press 'P' to open Picard.",
            ),
            last_download_dir: None,
        };
        let e = app.sync_dest_for_current_mode();
        (app, e)
    }

    /// Points the destination at the first bookmark of the mode's category
    /// (see [`dest_synced`]); `ReloadDir` when the browser was moved.
    pub fn sync_dest_for_current_mode(&mut self) -> (r: Option<Effect>)
        ensures
            dest_synced(*old(self), *final(self), r is Some),
            r matches Some(e) ==> e is ReloadDir,
    {
        let cat = mode_category_exec(&self.mode);
        match position_of_category(&self.config.bookmarks, cat) {
            Some(pos) => {
                self.current_bookmark_index = pos;
                let root = self.config.bookmarks[pos].path.clone();
                assert(bookmarks_view(self.config.bookmarks@)[pos as int] == self.config.bookmarks@[pos as int]@);
                self.current_dest_path = root.clone();
                self.dir_browser.reset_to_root(root);
                Some(Effect::ReloadDir)
            },
            None => None,
        }
    }

    /// Cycles the mode (see [`next_mode`]) and syncs the destination with it.
    pub fn toggle_mode(&mut self) -> (r: Option<Effect>)
        ensures
            toggle_mode_post(*old(self), *final(self), r),
    {
        self.mode = match self.mode {
            DownloadMode::Video => DownloadMode::Audio,
            DownloadMode::Audio => DownloadMode::ThumbnailOnly,
            _ => DownloadMode::Video,
        };
        self.sync_dest_for_current_mode()
    }

    /// Steps the resolution limit.
    pub fn toggle_resolution(&mut self)
        ensures
            *final(self) == (AppState { max_resolution: old(self).max_resolution.spec_next(), ..*old(self) }),
    {
        self.max_resolution = self.max_resolution.next();
    }

    /// Steps the audio format.
    pub fn toggle_audio_format(&mut self)
        ensures
            *final(self) == (AppState { audio_format: old(self).audio_format.spec_next(), ..*old(self) }),
    {
        self.audio_format = self.audio_format.next();
    }

    /// Makes bookmark `index` the destination root (see [`switch_post`]).
    pub fn switch_root_bookmark(&mut self, index: usize) -> (r: Option<Effect>)
        ensures
            switch_post(*old(self), *final(self), index as int, r),
    {
        if index < self.config.bookmarks.len() {
            self.current_bookmark_index = index;
            let root = self.config.bookmarks[index].path.clone();
            let msg = concat2("Root directory switched to: ", self.config.bookmarks[index].name.as_str());
            self.current_dest_path = root.clone();
            self.dir_browser.reset_to_root(root);
            self.status_message = msg;
            Some(Effect::ReloadDir)
        } else {
            None
        }
    }

    /// Takes a URL to inspect (see [`set_url_post`]).
    pub fn set_url(&mut self, url: &str) -> (r: Option<Effect>)
        requires
            old(self).wf(),
        ensures
            final(self).wf(),
            set_url_post(*old(self), *final(self), url@, r),
    {
        let trimmed = trim_str(url);
        if trimmed.as_str().is_empty() {
            return None;
        }
        self.url_input = trimmed.clone();
        self.is_editing_url = false;
        self.is_fetching_meta = true;
        self.status_message = concat2("⏳ Fetching media info for: ", trimmed.as_str());
        self.media_info = None;
        self.custom_video_format = None;
        self.custom_audio_format = None;
        Some(Effect::FetchMedia(trimmed))
    }

    /// Takes the URL found in the clipboard (see
    /// [`crate::external::clipboard::url_from_clipboard_text`]); without one, says so.
    pub fn paste_clipboard(&mut self, clip: Option<String>) -> (r: Option<Effect>)
        requires
            old(self).wf(),
        ensures
            final(self).wf(),
            match clip {
                Some(u) => set_url_post(*old(self), *final(self), u@, r),
                None => r is None && status_only(
                    *old(self),
                    *final(self),
                    "No valid URL (http:// or https://) found in clipboard"@,
                ),
            },
    {
        match clip {
            Some(url) => self.set_url(url.as_str()),
            None => {
                self.status_message = String::from_str(
                    "No valid URL (http:// or https://) found in clipboard",
                );
                None
            },
        }
    }

    /// The directory to open in Picard: the last download's, else the destination.
    pub fn open_picard(&self) -> (r: Effect)
        ensures
            r matches Effect::OpenPicard(d) && d@ == match self.last_download_dir {
                Some(l) => l@,
                None => self.current_dest_path@,
            },
    {
        match &self.last_download_dir {
            Some(d) => Effect::OpenPicard(d.clone()),
            None => Effect::OpenPicard(self.current_dest_path.clone()),
        }
    }

    /// Reports the outcome of launching Picard on `dest`.
    pub fn picard_result(&mut self, dest: &str, result: Result<(), String>)
        ensures
            *final(self) == (AppState { status_message: final(self).status_message, ..*old(self) }),
            final(self).status_message@ == match result {
                Ok(_) => "Opened MusicBrainz Picard at: "@ + path_debug_quoted(dest@),
                Err(e) => "Failed to launch Picard: "@ + e@,
            },
    {
        match result {
            Ok(_) => {
                let q = path_debug_text(dest);
                self.status_message = concat2("Opened MusicBrainz Picard at: ", q.as_str());
            },
            Err(e) => {
                self.status_message = concat2("Failed to launch Picard: ", e.as_str());
            },
        }
    }

    /// Advances the spinner by one frame (of ten).
    pub fn tick(&mut self)
        ensures
            *final(self) == (AppState {
                spinner_frame: ((old(self).spinner_frame + 1) % 10) as usize,
                ..*old(self)
            }),
    {
        let f = self.spinner_frame;
        assert((f + 1) % 10 == (f % 10 + 1) % 10) by (nonlinear_arith);
        self.spinner_frame = (f % 10 + 1) % 10;
    }
}


/// The progress before anything was reported: zero percent, empty texts.
pub open spec fn is_initial_progress(p: ProgressView) -> bool {
    &&& p.percent == "0"@
    &&& p.speed.len() == 0
    &&& p.eta.len() == 0
    &&& p.total_size.len() == 0
    &&& p.raw_status.len() == 0
}

/// The base name an image is saved under: `cover` in Audio mode or in a directory whose
/// path mentions `music`, else the title followed by `_thumb`.
pub open spec fn image_base_name(mode: DownloadMode, dest: Seq<char>, title: Seq<char>) -> Seq<char> {
    if mode is Audio || contains_seq(dest, "music"@) {
        "cover"@
    } else {
        title + "_thumb"@
    }
}

/// The row of the image list that is saved: the selection, or the last row when the
/// selection is past the end.
pub open spec fn image_row(selected: usize, n: nat) -> int {
    if selected < n {
        selected as int
    } else {
        n - 1
    }
}

/// What saving the selected image does: without media or without candidate images it says
/// so; otherwise it asks to download the selected candidate (see [`image_row`]) into the
/// destination under [`image_base_name`], and says so.
pub open spec fn image_save_post(old: AppState, new: AppState, r: Option<Effect>) -> bool {
    match old.media_info {
        None => r is None && status_only(old, new, "⚠️ No media info loaded."@),
        Some(m) => {
            let thumbs = unique_thumbnails_of(m@);
            if thumbs.len() == 0 {
                r is None && status_only(old, new, "⚠️ No image candidates available."@)
            } else {
                let t = thumbs[image_row(old.image_list_selected, thumbs.len())];
                &&& r matches Some(Effect::SaveImage { url, dest_dir, base_name })
                    && url@ == t.url && dest_dir@ == old.current_dest_path@ && base_name@
                    == image_base_name(old.mode, old.current_dest_path@, m@.title)
                &&& status_only(
                    old,
                    new,
                    "⏳ Downloading image ("@ + resolution_text(t.width, t.height) + ") ..."@,
                )
            }
        },
    }
}

/// The mode a download is started in: custom streams when some were picked, else the
/// current mode.
pub open spec fn download_mode_for(s: AppState) -> DownloadMode {
    match s.mode {
        DownloadMode::CustomFormats { .. } => s.mode,
        _ => if s.custom_video_format is Some || s.custom_audio_format is Some {
            DownloadMode::CustomFormats {
                video_id: s.custom_video_format,
                audio_id: s.custom_audio_format,
            }
        } else {
            s.mode
        },
    }
}

/// What `Enter` does on the main screen. In order: without a URL, while the metadata loads,
/// or without metadata it says so; in Thumbnail-only mode it saves the best image (see
/// [`image_save_post`]); during a download it says so; otherwise it starts a download of
/// the trimmed URL into the destination, which becomes the last download directory.
pub open spec fn start_download_post(old: AppState, new: AppState, r: Option<Effect>) -> bool {
    if trim(old.url_input@).len() == 0 {
        r is None && status_only(old, new, "⚠️ Please paste or enter a URL first (press 'v')."@)
    } else if old.is_fetching_meta {
        r is None && status_only(old, new, "⏳ Media information is still loading. Please wait..."@)
    } else if old.media_info is None {
        r is None && status_only(old, new, "⚠️ Media information not loaded. Please re-enter URL."@)
    } else if old.mode is ThumbnailOnly {
        image_save_post(AppState { image_list_selected: 0, ..old }, new, r)
    } else if old.is_downloading {
        r is None && status_only(old, new, "Download already in progress."@)
    } else {
        &&& r matches Some(Effect::StartDownload(o)) && o.url@ == trim(old.url_input@)
            && o.dest_dir@ == old.current_dest_path@ && o.mode == download_mode_for(old)
            && o.max_resolution == old.max_resolution && o.audio_format == old.audio_format
        &&& new.last_download_dir matches Some(d) && d@ == old.current_dest_path@
        &&& is_initial_progress(new.progress@)
        &&& new.status_message@ == "🚀 Starting download..."@
        &&& new == (AppState {
            last_download_dir: new.last_download_dir,
            is_downloading: true,
            progress: new.progress,
            status_message: new.status_message,
            ..old
        })
    }
}

/// A copy of an optional text.
fn copy_opt(o: &Option<String>) -> (r: Option<String>)
    ensures
        r == *o,
{
    match o {
        Some(s) => Some(s.clone()),
        None => None,
    }
}

/// A copy of a download mode.
fn copy_mode(m: &DownloadMode) -> (r: DownloadMode)
    ensures
        r == *m,
{
    match m {
        DownloadMode::Video => DownloadMode::Video,
        DownloadMode::Audio => DownloadMode::Audio,
        DownloadMode::ThumbnailOnly => DownloadMode::ThumbnailOnly,
        DownloadMode::CustomFormats { video_id, audio_id } => DownloadMode::CustomFormats {
            video_id: copy_opt(video_id),
            audio_id: copy_opt(audio_id),
        },
    }
}

impl AppState {
    /// Asks to save the selected image (see [`image_save_post`]).
    pub fn save_selected_image(&mut self) -> (r: Option<Effect>)
        requires
            old(self).wf(),
        ensures
            final(self).wf(),
            image_save_post(*old(self), *final(self), r),
    {
        let (url, base_name, res) = match &self.media_info {
            None => {
                self.status_message = String::from_str("⚠️ No media info loaded.");
                return None;
            },
            Some(info) => {
                let thumbs = info.get_unique_thumbnails();
                if thumbs.len() == 0 {
                    self.status_message = String::from_str("⚠️ No image candidates available.");
                    return None;
                }
                let idx = if self.image_list_selected < thumbs.len() {
                    self.image_list_selected
                } else {
                    thumbs.len() - 1
                };
                let t = &thumbs[idx];
                assert(thumbs_view(thumbs@)[idx as int] == t@);
                let is_audio = match self.mode {
                    DownloadMode::Audio => true,
                    _ => false,
                };
                let base_name = if is_audio || contains_str(self.current_dest_path.as_str(), "music") {
                    String::from_str("cover")
                } else {
                    concat2(info.title.as_str(), "_thumb")
                };
                (t.url.clone(), base_name, t.resolution_str())
            },
        };
        self.status_message = concat3("⏳ Downloading image (", res.as_str(), ") ...");
        Some(Effect::SaveImage { url, dest_dir: self.current_dest_path.clone(), base_name })
    }

    /// Asks to save the best image: selects the first row, then as
    /// [`Self::save_selected_image`].
    pub fn save_best_image(&mut self) -> (r: Option<Effect>)
        requires
            old(self).wf(),
        ensures
            final(self).wf(),
            image_save_post(AppState { image_list_selected: 0, ..*old(self) }, *final(self), r),
    {
        self.image_list_selected = 0;
        self.save_selected_image()
    }

    /// What `Enter` does on the main screen (see [`start_download_post`]).
    pub fn start_download(&mut self) -> (r: Option<Effect>)
        requires
            old(self).wf(),
        ensures
            final(self).wf(),
            start_download_post(*old(self), *final(self), r),
    {
        let url = trim_str(self.url_input.as_str());
        if url.as_str().is_empty() {
            self.status_message = String::from_str("⚠️ Please paste or enter a URL first (press 'v').");
            return None;
        }
        if self.is_fetching_meta {
            self.status_message = String::from_str("⏳ Media information is still loading. Please wait...");
            return None;
        }
        if self.media_info.is_none() {
            self.status_message = String::from_str("⚠️ Media information not loaded. Please re-enter URL.");
            return None;
        }
        if let DownloadMode::ThumbnailOnly = self.mode {
            return self.save_best_image();
        }
        if self.is_downloading {
            self.status_message = String::from_str("Download already in progress.");
            return None;
        }
        let dest = self.current_dest_path.clone();
        self.last_download_dir = Some(dest.clone());
        self.is_downloading = true;
        self.progress = DownloadProgress::initial();
        self.status_message = String::from_str("🚀 Starting download...");
        let mode = match &self.mode {
            DownloadMode::CustomFormats { .. } => copy_mode(&self.mode),
            _ => if self.custom_video_format.is_some() || self.custom_audio_format.is_some() {
                DownloadMode::CustomFormats {
                    video_id: copy_opt(&self.custom_video_format),
                    audio_id: copy_opt(&self.custom_audio_format),
                }
            } else {
                copy_mode(&self.mode)
            },
        };
        let opts = DownloadOptions {
            url,
            dest_dir: dest,
            mode,
            max_resolution: self.max_resolution,
            audio_format: self.audio_format,
        };
        Some(Effect::StartDownload(opts))
    }
}


/// What the background work reports back.
#[derive(Debug)]
pub enum AppMessage {
    /// The metadata of the URL, or the error text.
    MetadataFetched(Result<MediaInfo, String>),
    /// The thumbnail was fetched (the image itself stays with the preview), or the error text.
    ThumbnailFetched(Result<(), String>),
    /// The path an image was saved to, or the error text.
    ImageSaved(Result<String, String>),
    /// An event of the running download.
    Download(DownloadEvent),
}

/// The title named in the completion notice: the media's, else `Media`.
pub open spec fn notice_title(m: Option<MediaInfo>) -> Seq<char> {
    match m {
        Some(i) => i.title@,
        None => "Media"@,
    }
}

/// A notification with the given texts when notifications are on, else none.
pub open spec fn notice(on: bool, r: Option<Effect>, summary: Seq<char>, body: Seq<char>) -> bool {
    if on {
        r matches Some(Effect::Notify { summary: s, body: b }) && s@ == summary && b@ == body
    } else {
        r is None
    }
}

/// What a message does to the state and which effect it asks for. With notifications on,
/// a saved image, a completed download and a download error are also notified (a failed
/// download reports its error before it finishes, so the error is notified once).
pub open spec fn message_post(old: AppState, new: AppState, msg: AppMessage, r: Option<Effect>) -> bool {
    let notify = old.config.general.notify_on_complete;
    match msg {
        AppMessage::MetadataFetched(Ok(info)) => {
            &&& r is None
            &&& new.status_message@ == "✅ Media Ready: "@ + info.title@
                + " | Press [Enter] to Download, [i] for Artwork, [F] for Streams"@
            &&& new == (AppState {
                is_fetching_meta: false,
                status_message: new.status_message,
                media_info: Some(info),
                ..old
            })
        },
        AppMessage::MetadataFetched(Err(e)) => {
            &&& r is None
            &&& new.status_message@ == "❌ Metadata error: "@ + e@
            &&& new == (AppState { is_fetching_meta: false, status_message: new.status_message, ..old })
        },
        AppMessage::ThumbnailFetched(Ok(_)) => {
            &&& r matches Some(Effect::ShowPreview(u)) && u@ == old.url_input@
            &&& new == old
        },
        AppMessage::ThumbnailFetched(Err(e)) => r is None && status_only(
            old,
            new,
            "Thumbnail warning: "@ + e@,
        ),
        AppMessage::ImageSaved(Ok(path)) => {
            &&& status_only(old, new, "🎉 Image saved successfully to: "@ + path@)
            &&& notice(notify, r, "shard: Image Saved"@, "Successfully saved image to: "@ + path@)
        },
        AppMessage::ImageSaved(Err(e)) => r is None && status_only(
            old,
            new,
            "❌ Failed to save image: "@ + e@,
        ),
        AppMessage::Download(DownloadEvent::Started) => {
            &&& r is None
            &&& new.status_message@ == "⬇️ Downloading..."@
            &&& new == (AppState { is_downloading: true, status_message: new.status_message, ..old })
        },
        AppMessage::Download(DownloadEvent::Progress(p)) => r is None && new == (AppState {
            progress: p,
            ..old
        }),
        AppMessage::Download(DownloadEvent::StatusMessage(m)) => r is None && new == (AppState {
            status_message: m,
            ..old
        }),
        AppMessage::Download(DownloadEvent::Finished { success, output_path }) => if success {
            let path = match output_path {
                Some(p) => p@,
                None => Seq::empty(),
            };
            &&& new.progress@ == (ProgressView { percent: "100"@, ..old.progress@ })
            &&& new.status_message@ == "🎉 Completed! Saved to: "@ + path
                + " (Press 'P' for Picard)"@
            &&& new == (AppState {
                is_downloading: false,
                progress: new.progress,
                status_message: new.status_message,
                ..old
            })
            &&& notice(
                notify,
                r,
                "shard: Download Complete"@,
                "Successfully saved: "@ + notice_title(old.media_info),
            )
        } else {
            &&& r is None
            &&& new.status_message@ == "❌ Download failed or cancelled."@
            &&& new == (AppState { is_downloading: false, status_message: new.status_message, ..old })
        },
        AppMessage::Download(DownloadEvent::Error(e)) => {
            &&& status_only(old, new, "Error: "@ + e@)
            &&& notice(notify, r, "shard: Download Error"@, e@)
        },
    }
}

impl AppState {
    /// Takes one message from the background work (see [`message_post`]).
    pub fn handle_message(&mut self, msg: AppMessage) -> (r: Option<Effect>)
        requires
            old(self).wf(),
            msg matches AppMessage::MetadataFetched(Ok(m)) ==> areas_fit(m@.thumbnails),
        ensures
            final(self).wf(),
            message_post(*old(self), *final(self), msg, r),
    {
        let notify = self.config.general.notify_on_complete;
        match msg {
            AppMessage::MetadataFetched(Ok(info)) => {
                self.is_fetching_meta = false;
                self.status_message = concat3(
                    "✅ Media Ready: ",
                    info.title.as_str(),
                    " | Press [Enter] to Download, [i] for Artwork, [F] for Streams",
                );
                self.media_info = Some(info);
                None
            },
            AppMessage::MetadataFetched(Err(e)) => {
                self.is_fetching_meta = false;
                self.status_message = concat2("❌ Metadata error: ", e.as_str());
                None
            },
            AppMessage::ThumbnailFetched(Ok(_)) => Some(Effect::ShowPreview(self.url_input.clone())),
            AppMessage::ThumbnailFetched(Err(e)) => {
                self.status_message = concat2("Thumbnail warning: ", e.as_str());
                None
            },
            AppMessage::ImageSaved(Ok(path)) => {
                self.status_message = concat2("🎉 Image saved successfully to: ", path.as_str());
                if notify {
                    Some(Effect::Notify {
                        summary: String::from_str("shard: Image Saved"),
                        body: concat2("Successfully saved image to: ", path.as_str()),
                    })
                } else {
                    None
                }
            },
            AppMessage::ImageSaved(Err(e)) => {
                self.status_message = concat2("❌ Failed to save image: ", e.as_str());
                None
            },
            AppMessage::Download(DownloadEvent::Started) => {
                self.is_downloading = true;
                self.status_message = String::from_str("⬇️ Downloading...");
                None
            },
            AppMessage::Download(DownloadEvent::Progress(p)) => {
                self.progress = p;
                None
            },
            AppMessage::Download(DownloadEvent::StatusMessage(m)) => {
                self.status_message = m;
                None
            },
            AppMessage::Download(DownloadEvent::Finished { success, output_path }) => {
                self.is_downloading = false;
                if success {
                    self.progress.percent = String::from_str("100");
                    let path = match output_path {
                        Some(p) => p,
                        None => String::new(),
                    };
                    self.status_message = concat3(
                        "🎉 Completed! Saved to: ",
                        path.as_str(),
                        " (Press 'P' for Picard)",
                    );
                    if notify {
                        let title = match &self.media_info {
                            Some(m) => m.title.as_str(),
                            None => "Media",
                        };
                        Some(Effect::Notify {
                            summary: String::from_str("shard: Download Complete"),
                            body: concat2("Successfully saved: ", title),
                        })
                    } else {
                        None
                    }
                } else {
                    self.status_message = String::from_str("❌ Download failed or cancelled.");
                    None
                }
            },
            AppMessage::Download(DownloadEvent::Error(e)) => {
                self.status_message = concat2("Error: ", e.as_str());
                if notify {
                    Some(Effect::Notify { summary: String::from_str("shard: Download Error"), body: e })
                } else {
                    None
                }
            },
        }
    }
}


/// A key press, as the interface distinguishes keys.
#[derive(Debug, Clone, Copy, PartialEq, Eq, Structural)]
pub enum Key {
    Enter,
    Esc,
    Backspace,
    Tab,
    Up,
    Down,
    Left,
    Right,
    Char(char),
    Other,
}

/// `j` or the down arrow.
pub open spec fn is_down(k: Key) -> bool {
    k == Key::Down || k == Key::Char('j')
}

/// `k` or the up arrow.
pub open spec fn is_up(k: Key) -> bool {
    k == Key::Up || k == Key::Char('k')
}

/// The selection one row down, when there is a row below among `n`.
pub open spec fn step_down(sel: usize, n: nat) -> usize {
    if n > 0 && sel + 1 < n {
        (sel + 1) as usize
    } else {
        sel
    }
}

/// The selection one row up, when not on the first row.
pub open spec fn step_up(sel: usize) -> usize {
    if sel > 0 {
        (sel - 1) as usize
    } else {
        sel
    }
}

/// The text after `Backspace`: the last character removed, if any.
pub open spec fn backspaced(s: Seq<char>) -> Seq<char> {
    if s.len() == 0 {
        s
    } else {
        s.drop_last()
    }
}

/// A key while the URL is being typed: `Enter` stops editing and takes the typed URL (see
/// [`set_url_post`]), `Esc` stops editing, `Backspace` deletes, `Ctrl+V` asks for the
/// clipboard, other characters but line breaks are typed.
pub open spec fn editing_key_post(old: AppState, new: AppState, key: Key, ctrl: bool, r: Option<Effect>) -> bool {
    match key {
        Key::Enter => set_url_post(AppState { is_editing_url: false, ..old }, new, old.url_input@, r),
        Key::Esc => r is None && new == (AppState { is_editing_url: false, ..old }),
        Key::Backspace => {
            &&& r is None
            &&& new == (AppState { url_input: new.url_input, ..old })
            &&& new.url_input@ == backspaced(old.url_input@)
        },
        Key::Char(c) => if c == 'v' && ctrl {
            r matches Some(Effect::ReadClipboard) && new == old
        } else if c != '\n' && c != '\r' {
            &&& r is None
            &&& new == (AppState { url_input: new.url_input, ..old })
            &&& new.url_input@ == old.url_input@.push(c)
        } else {
            r is None && new == old
        },
        _ => r is None && new == old,
    }
}

/// Opening a screen that shows the loaded media; without media, says why.
pub open spec fn media_screen_post(old: AppState, new: AppState, screen: AppScreenMode) -> bool {
    if old.media_info is Some {
        new == (AppState { screen_mode: screen, ..old })
    } else if old.is_fetching_meta {
        status_only(old, new, "⏳ Media info still fetching. Please wait..."@)
    } else {
        status_only(old, new, "⚠️ No media loaded yet. Please paste or enter a URL first."@)
    }
}

/// The directory Picard is opened on: the last download's, else the destination.
pub open spec fn picard_dir(s: AppState) -> Seq<char> {
    match s.last_download_dir {
        Some(l) => l@,
        None => s.current_dest_path@,
    }
}

/// A key on the main screen when no URL is being typed.
pub open spec fn command_key_post(old: AppState, new: AppState, key: Key, r: Option<Effect>) -> bool {
    match key {
        Key::Enter => start_download_post(old, new, r),
        Key::Tab => toggle_mode_post(old, new, r),
        Key::Char(c) => if c == 'q' {
            r matches Some(Effect::Quit) && new == old
        } else if c == 'r' {
            r is None && new == (AppState { max_resolution: old.max_resolution.spec_next(), ..old })
        } else if c == 'a' {
            r is None && new == (AppState { audio_format: old.audio_format.spec_next(), ..old })
        } else if c == 'd' {
            &&& r matches Some(e) && e is ReloadDir
            &&& browser_reset(old.dir_browser, new.dir_browser, old.current_dest_path@)
            &&& new == (AppState {
                dir_browser: new.dir_browser,
                screen_mode: AppScreenMode::DirBrowserModal,
                ..old
            })
        } else if c == 'f' || c == 'F' {
            r is None && media_screen_post(old, new, AppScreenMode::FormatSelectModal)
        } else if c == 'i' || c == 'I' {
            r is None && media_screen_post(old, new, AppScreenMode::ImageSelectModal)
        } else if c == 'P' {
            r matches Some(Effect::OpenPicard(d)) && d@ == picard_dir(old) && new == old
        } else if c == 'v' || c == 'p' {
            r matches Some(Effect::ReadClipboard) && new == old
        } else if c == 'u' || c == '/' {
            r is None && new == (AppState { is_editing_url: true, ..old })
        } else {
            r is None && new == old
        },
        _ => r is None && new == old,
    }
}

/// A key on the main screen.
pub open spec fn normal_key_post(old: AppState, new: AppState, key: Key, ctrl: bool, r: Option<Effect>) -> bool {
    if old.is_editing_url {
        editing_key_post(old, new, key, ctrl, r)
    } else {
        command_key_post(old, new, key, r)
    }
}

/// The number of rows of the stream list.
pub open spec fn format_count(s: AppState) -> nat {
    match s.media_info {
        Some(m) => m@.formats.len(),
        None => 0,
    }
}

/// The id of the selected stream, if the selection is on one.
pub open spec fn selected_format_id(s: AppState) -> Option<Seq<char>> {
    match s.media_info {
        Some(m) => if s.format_list_selected < m@.formats.len() {
            Some(m@.formats[s.format_list_selected as int].format_id)
        } else {
            None
        },
        None => None,
    }
}

/// A stream choice toggled by `id`: cleared when it was `id`, else set to `id`.
pub open spec fn toggled(cur: Option<String>, new: Option<String>, id: Seq<char>) -> bool {
    new.deep_view() == if cur.deep_view() == Some(id) {
        None
    } else {
        Some(id)
    }
}

/// A key in the stream list: close, move, toggle the selected stream as the video (`Space`)
/// or audio (`a`) choice, or clear both choices (`c`).
pub open spec fn format_key_post(old: AppState, new: AppState, key: Key) -> bool {
    if key == Key::Esc || key == Key::Enter || key == Key::Char('q') {
        new == (AppState { screen_mode: AppScreenMode::Normal, ..old })
    } else if is_down(key) {
        new == (AppState {
            format_list_selected: step_down(old.format_list_selected, format_count(old)),
            ..old
        })
    } else if is_up(key) {
        new == (AppState { format_list_selected: step_up(old.format_list_selected), ..old })
    } else if key == Key::Char(' ') {
        match selected_format_id(old) {
            Some(id) => new == (AppState { custom_video_format: new.custom_video_format, ..old })
                && toggled(old.custom_video_format, new.custom_video_format, id),
            None => new == old,
        }
    } else if key == Key::Char('a') {
        match selected_format_id(old) {
            Some(id) => new == (AppState { custom_audio_format: new.custom_audio_format, ..old })
                && toggled(old.custom_audio_format, new.custom_audio_format, id),
            None => new == old,
        }
    } else if key == Key::Char('c') {
        status_only(
            AppState { custom_video_format: None, custom_audio_format: None, ..old },
            new,
            "Cleared custom stream selection. Reverted to Automatic Best."@,
        )
    } else {
        new == old
    }
}

/// Only the folder browser changed.
pub open spec fn browser_only(old: AppState, new: AppState) -> bool {
    new == (AppState { dir_browser: new.dir_browser, ..old })
}

/// A key while a new folder's name is typed: `Enter` asks to create it (or shows why not),
/// `Esc` closes the prompt, `Backspace` deletes, characters are typed.
pub open spec fn create_dir_key_post(old: AppState, new: AppState, key: Key, r: Option<Effect>) -> bool {
    let b = old.dir_browser;
    if key == Key::Enter {
        if trim(b.new_dir_input@).len() == 0 {
            &&& r is None
            &&& browser_only(old, new)
            &&& new.dir_browser == (DirBrowserState {
                error_message: new.dir_browser.error_message,
                ..b
            })
            &&& new.dir_browser.error_message matches Some(e) && e@ == "Folder name cannot be empty"@
        } else {
            &&& r matches Some(Effect::CreateDir(p)) && p@ == join_path(
                b.current_path@,
                trim(b.new_dir_input@),
            )
            &&& new == old
        }
    } else if key == Key::Esc {
        &&& r is None
        &&& browser_only(old, new)
        &&& new.dir_browser == (DirBrowserState {
            is_creating_dir: false,
            new_dir_input: new.dir_browser.new_dir_input,
            error_message: None,
            ..b
        })
        &&& new.dir_browser.new_dir_input@.len() == 0
    } else if key == Key::Backspace {
        &&& r is None
        &&& browser_only(old, new)
        &&& new.dir_browser == (DirBrowserState { new_dir_input: new.dir_browser.new_dir_input, ..b })
        &&& new.dir_browser.new_dir_input@ == backspaced(b.new_dir_input@)
    } else if key is Char {
        &&& r is None
        &&& browser_only(old, new)
        &&& new.dir_browser == (DirBrowserState { new_dir_input: new.dir_browser.new_dir_input, ..b })
        &&& new.dir_browser.new_dir_input@ == b.new_dir_input@.push(key->Char_0)
    } else {
        r is None && new == old
    }
}

/// A bookmark key: `1` to `9`.
pub open spec fn is_bookmark_key(k: Key) -> bool {
    k matches Key::Char(c) && '1' <= c <= '9'
}

/// The bookmark index of a bookmark key.
pub open spec fn bookmark_index(k: Key) -> int {
    (k->Char_0 as int) - ('1' as int)
}

/// A key while browsing folders: close, move, enter the selected folder, go up (not above
/// the root), take the folder as destination (`Space`), open the new-folder prompt, or
/// switch to a bookmark. Moves ask for the rows to be reloaded.
pub open spec fn browse_key_post(old: AppState, new: AppState, key: Key, r: Option<Effect>) -> bool {
    let b = old.dir_browser;
    if key == Key::Esc || key == Key::Char('q') {
        r is None && new == (AppState { screen_mode: AppScreenMode::Normal, ..old })
    } else if is_down(key) {
        r is None && new == (AppState {
            dir_browser: DirBrowserState {
                selected_index: step_down(b.selected_index, b.entries@.len()),
                ..b
            },
            ..old
        })
    } else if is_up(key) {
        r is None && new == (AppState {
            dir_browser: DirBrowserState { selected_index: step_up(b.selected_index), ..b },
            ..old
        })
    } else if key == Key::Char('l') || key == Key::Right || key == Key::Enter {
        if b.selected_index < b.entries@.len() {
            &&& r matches Some(e) && e is ReloadDir
            &&& new == (AppState {
                dir_browser: DirBrowserState {
                    current_path: b.entries@[b.selected_index as int].path,
                    selected_index: 0,
                    ..b
                },
                ..old
            })
        } else {
            r is None && new == old
        }
    } else if key == Key::Char('h') || key == Key::Left {
        if below_root(b.current_path@, b.root_path@) && path_parent(b.current_path@) is Some {
            &&& r matches Some(e) && e is ReloadDir
            &&& browser_only(old, new)
            &&& new.dir_browser == (DirBrowserState {
                current_path: new.dir_browser.current_path,
                selected_index: 0,
                ..b
            })
            &&& new.dir_browser.current_path@ == path_parent(b.current_path@)->0
        } else {
            r is None && new == old
        }
    } else if key == Key::Char(' ') {
        &&& r is None
        &&& new.current_dest_path == b.current_path
        &&& new.status_message@ == "📂 Destination folder selected: "@ + path_debug_quoted(b.current_path@)
        &&& new == (AppState {
            current_dest_path: new.current_dest_path,
            screen_mode: AppScreenMode::Normal,
            status_message: new.status_message,
            ..old
        })
    } else if key == Key::Char('n') || key == Key::Char('+') {
        &&& r is None
        &&& browser_only(old, new)
        &&& new.dir_browser == (DirBrowserState {
            is_creating_dir: true,
            new_dir_input: new.dir_browser.new_dir_input,
            error_message: None,
            ..b
        })
        &&& new.dir_browser.new_dir_input@.len() == 0
    } else if is_bookmark_key(key) {
        switch_post(old, new, bookmark_index(key), r)
    } else {
        r is None && new == old
    }
}

/// A key in the folder browser.
pub open spec fn dir_key_post(old: AppState, new: AppState, key: Key, r: Option<Effect>) -> bool {
    if old.dir_browser.is_creating_dir {
        create_dir_key_post(old, new, key, r)
    } else {
        browse_key_post(old, new, key, r)
    }
}

/// The number of rows of the image list.
pub open spec fn image_count(s: AppState) -> nat {
    match s.media_info {
        Some(m) => unique_thumbnails_of(m@).len(),
        None => 0,
    }
}

/// A key in the image list: close, move, save the selected (`Enter`) or the best (`a`)
/// image and close (see [`image_save_post`]).
pub open spec fn image_key_post(old: AppState, new: AppState, key: Key, r: Option<Effect>) -> bool {
    let back = AppState { screen_mode: old.screen_mode, ..new };
    if key == Key::Esc || key == Key::Char('q') || key == Key::Char('i') || key == Key::Char('I') {
        r is None && new == (AppState { screen_mode: AppScreenMode::Normal, ..old })
    } else if is_down(key) {
        r is None && new == (AppState {
            image_list_selected: step_down(old.image_list_selected, image_count(old)),
            ..old
        })
    } else if is_up(key) {
        r is None && new == (AppState { image_list_selected: step_up(old.image_list_selected), ..old })
    } else if key == Key::Enter {
        image_save_post(old, back, r) && new.screen_mode == AppScreenMode::Normal
    } else if key == Key::Char('a') || key == Key::Char('A') {
        image_save_post(AppState { image_list_selected: 0, ..old }, back, r) && new.screen_mode
            == AppScreenMode::Normal
    } else {
        r is None && new == old
    }
}

/// A key press: `Ctrl+C` quits on every screen; other keys go to the screen in front.
pub open spec fn key_post(old: AppState, new: AppState, key: Key, ctrl: bool, r: Option<Effect>) -> bool {
    if ctrl && key == Key::Char('c') {
        r matches Some(Effect::Quit) && new == old
    } else {
        match old.screen_mode {
            AppScreenMode::Normal => normal_key_post(old, new, key, ctrl, r),
            AppScreenMode::FormatSelectModal => r is None && format_key_post(old, new, key),
            AppScreenMode::DirBrowserModal => dir_key_post(old, new, key, r),
            AppScreenMode::ImageSelectModal => image_key_post(old, new, key, r),
        }
    }
}

impl AppState {
    /// Handles a key on the main screen (see [`normal_key_post`]).
    pub fn handle_normal_mode_key(&mut self, key: Key, ctrl: bool) -> (r: Option<Effect>)
        requires
            old(self).wf(),
        ensures
            final(self).wf(),
            normal_key_post(*old(self), *final(self), key, ctrl, r),
    {
        if self.is_editing_url {
            match key {
                Key::Enter => {
                    self.is_editing_url = false;
                    let url = self.url_input.clone();
                    self.set_url(url.as_str())
                },
                Key::Esc => {
                    self.is_editing_url = false;
                    None
                },
                Key::Backspace => {
                    self.url_input = drop_last_char(self.url_input.as_str());
                    None
                },
                Key::Char(c) => {
                    if c == 'v' && ctrl {
                        Some(Effect::ReadClipboard)
                    } else if c != '\n' && c != '\r' {
                        push_char(&mut self.url_input, c);
                        None
                    } else {
                        None
                    }
                },
                _ => None,
            }
        } else {
            match key {
                Key::Enter => self.start_download(),
                Key::Tab => self.toggle_mode(),
                Key::Char(c) => {
                    if c == 'q' {
                        Some(Effect::Quit)
                    } else if c == 'r' {
                        self.toggle_resolution();
                        None
                    } else if c == 'a' {
                        self.toggle_audio_format();
                        None
                    } else if c == 'd' {
                        let dest = self.current_dest_path.clone();
                        self.dir_browser.reset_to_root(dest);
                        self.screen_mode = AppScreenMode::DirBrowserModal;
                        Some(Effect::ReloadDir)
                    } else if c == 'f' || c == 'F' || c == 'i' || c == 'I' {
                        let screen = if c == 'f' || c == 'F' {
                            AppScreenMode::FormatSelectModal
                        } else {
                            AppScreenMode::ImageSelectModal
                        };
                        if self.media_info.is_some() {
                            self.screen_mode = screen;
                        } else if self.is_fetching_meta {
                            self.status_message = String::from_str("⏳ Media info still fetching. Please wait...");
                        } else {
                            self.status_message = String::from_str(
                                "⚠️ No media loaded yet. Please paste or enter a URL first.",
                            );
                        }
                        None
                    } else if c == 'P' {
                        Some(self.open_picard())
                    } else if c == 'v' || c == 'p' {
                        Some(Effect::ReadClipboard)
                    } else if c == 'u' || c == '/' {
                        self.is_editing_url = true;
                        None
                    } else {
                        None
                    }
                },
                _ => None,
            }
        }
    }
}


/// A stream choice toggled by `id` (see [`toggled`]).
fn toggle_choice(cur: &Option<String>, id: &String) -> (r: Option<String>)
    ensures
        toggled(*cur, r, id@),
{
    match cur {
        Some(c) => if str_eq(c.as_str(), id.as_str()) {
            None
        } else {
            Some(id.clone())
        },
        None => Some(id.clone()),
    }
}

impl AppState {
    /// Handles a key in the stream list (see [`format_key_post`]).
    pub fn handle_format_modal_key(&mut self, key: Key)
        requires
            old(self).wf(),
        ensures
            final(self).wf(),
            format_key_post(*old(self), *final(self), key),
    {
        let total = match &self.media_info {
            Some(m) => m.formats.len(),
            None => 0,
        };
        if key == Key::Esc || key == Key::Enter || key == Key::Char('q') {
            self.screen_mode = AppScreenMode::Normal;
        } else if key == Key::Down || key == Key::Char('j') {
            if total > 0 && self.format_list_selected < total - 1 {
                self.format_list_selected = self.format_list_selected + 1;
            }
        } else if key == Key::Up || key == Key::Char('k') {
            if self.format_list_selected > 0 {
                self.format_list_selected = self.format_list_selected - 1;
            }
        } else if key == Key::Char(' ') || key == Key::Char('a') {
            let picked = match &self.media_info {
                Some(info) => if self.format_list_selected < info.formats.len() {
                    let f = &info.formats[self.format_list_selected];
                    assert(formats_view(info.formats@)[self.format_list_selected as int] == f@);
                    Some(f.format_id.clone())
                } else {
                    None
                },
                None => None,
            };
            match picked {
                Some(id) => {
                    if key == Key::Char(' ') {
                        self.custom_video_format = toggle_choice(&self.custom_video_format, &id);
                    } else {
                        self.custom_audio_format = toggle_choice(&self.custom_audio_format, &id);
                    }
                },
                None => {},
            }
        } else if key == Key::Char('c') {
            self.custom_video_format = None;
            self.custom_audio_format = None;
            self.status_message = String::from_str(
                "Cleared custom stream selection. Reverted to Automatic Best.",
            );
        }
    }

    /// Handles a key in the folder browser (see [`dir_key_post`]).
    pub fn handle_dir_browser_modal_key(&mut self, key: Key) -> (r: Option<Effect>)
        requires
            old(self).wf(),
        ensures
            final(self).wf(),
            dir_key_post(*old(self), *final(self), key, r),
    {
        if self.dir_browser.is_creating_dir {
            if key == Key::Enter {
                match self.dir_browser.new_dir_target() {
                    Ok(p) => Some(Effect::CreateDir(p)),
                    Err(e) => {
                        self.dir_browser.error_message = Some(e);
                        None
                    },
                }
            } else if key == Key::Esc {
                self.dir_browser.cancel_create_dir();
                None
            } else if key == Key::Backspace {
                self.dir_browser.new_dir_input = drop_last_char(self.dir_browser.new_dir_input.as_str());
                None
            } else {
                match key {
                    Key::Char(c) => {
                        push_char(&mut self.dir_browser.new_dir_input, c);
                    },
                    _ => {},
                }
                None
            }
        } else if key == Key::Esc || key == Key::Char('q') {
            self.screen_mode = AppScreenMode::Normal;
            None
        } else if key == Key::Down || key == Key::Char('j') {
            let total = self.dir_browser.entries.len();
            if total > 0 && self.dir_browser.selected_index < total - 1 {
                self.dir_browser.selected_index = self.dir_browser.selected_index + 1;
            }
            None
        } else if key == Key::Up || key == Key::Char('k') {
            if self.dir_browser.selected_index > 0 {
                self.dir_browser.selected_index = self.dir_browser.selected_index - 1;
            }
            None
        } else if key == Key::Char('l') || key == Key::Right || key == Key::Enter {
            if self.dir_browser.move_to_selected() {
                Some(Effect::ReloadDir)
            } else {
                None
            }
        } else if key == Key::Char('h') || key == Key::Left {
            if self.dir_browser.move_to_parent() {
                Some(Effect::ReloadDir)
            } else {
                None
            }
        } else if key == Key::Char(' ') {
            self.current_dest_path = self.dir_browser.current_path.clone();
            self.screen_mode = AppScreenMode::Normal;
            let q = path_debug_text(self.current_dest_path.as_str());
            self.status_message = concat2("📂 Destination folder selected: ", q.as_str());
            None
        } else if key == Key::Char('n') || key == Key::Char('+') {
            self.dir_browser.start_create_dir();
            None
        } else {
            match key {
                Key::Char(c) => {
                    if '1' <= c && c <= '9' {
                        let idx = (c as u32 - '1' as u32) as usize;
                        if idx < self.config.bookmarks.len() {
                            self.switch_root_bookmark(idx)
                        } else {
                            None
                        }
                    } else {
                        None
                    }
                },
                _ => None,
            }
        }
    }

    /// Handles a key in the image list (see [`image_key_post`]).
    pub fn handle_image_modal_key(&mut self, key: Key) -> (r: Option<Effect>)
        requires
            old(self).wf(),
        ensures
            final(self).wf(),
            image_key_post(*old(self), *final(self), key, r),
    {
        if key == Key::Esc || key == Key::Char('q') || key == Key::Char('i') || key == Key::Char('I') {
            self.screen_mode = AppScreenMode::Normal;
            None
        } else if key == Key::Down || key == Key::Char('j') {
            let total = match &self.media_info {
                Some(m) => m.get_unique_thumbnails().len(),
                None => 0,
            };
            if total > 0 && self.image_list_selected < total - 1 {
                self.image_list_selected = self.image_list_selected + 1;
            }
            None
        } else if key == Key::Up || key == Key::Char('k') {
            if self.image_list_selected > 0 {
                self.image_list_selected = self.image_list_selected - 1;
            }
            None
        } else if key == Key::Enter {
            let r = self.save_selected_image();
            self.screen_mode = AppScreenMode::Normal;
            r
        } else if key == Key::Char('a') || key == Key::Char('A') {
            let r = self.save_best_image();
            self.screen_mode = AppScreenMode::Normal;
            r
        } else {
            None
        }
    }

    /// Handles a key press (see [`key_post`]).
    pub fn handle_key(&mut self, key: Key, ctrl: bool) -> (r: Option<Effect>)
        requires
            old(self).wf(),
        ensures
            final(self).wf(),
            key_post(*old(self), *final(self), key, ctrl, r),
    {
        if ctrl && key == Key::Char('c') {
            return Some(Effect::Quit);
        }
        match self.screen_mode {
            AppScreenMode::Normal => self.handle_normal_mode_key(key, ctrl),
            AppScreenMode::FormatSelectModal => {
                self.handle_format_modal_key(key);
                None
            },
            AppScreenMode::DirBrowserModal => self.handle_dir_browser_modal_key(key),
            AppScreenMode::ImageSelectModal => self.handle_image_modal_key(key),
        }
    }

    /// Reports the outcome of creating the folder `path` asked for by the folder browser:
    /// on success the browser moves into it, it becomes the destination, the status says
    /// so and the rows are to be reloaded; on failure the browser shows the error.
    pub fn dir_created(&mut self, path: String, result: Result<(), String>) -> (r: Option<Effect>)
        requires
            old(self).wf(),
        ensures
            final(self).wf(),
            match result {
                Ok(_) => {
                    let b = old(self).dir_browser;
                    &&& r matches Some(e) && e is ReloadDir
                    &&& final(self).dir_browser == (DirBrowserState {
                        is_creating_dir: false,
                        new_dir_input: final(self).dir_browser.new_dir_input,
                        current_path: final(self).dir_browser.current_path,
                        ..b
                    })
                    &&& final(self).dir_browser.current_path@ == path@
                    &&& final(self).dir_browser.new_dir_input@.len() == 0
                    &&& final(self).current_dest_path == path
                    &&& final(self).status_message@ == "📁 Created and selected new directory: "@
                        + path_debug_quoted(path@)
                    &&& *final(self) == (AppState {
                        dir_browser: final(self).dir_browser,
                        current_dest_path: path,
                        status_message: final(self).status_message,
                        ..*old(self)
                    })
                },
                Err(_) => {
                    &&& r is None
                    &&& browser_only(*old(self), *final(self))
                    &&& final(self).dir_browser == (DirBrowserState {
                        error_message: final(self).dir_browser.error_message,
                        ..old(self).dir_browser
                    })
                    &&& final(self).dir_browser.error_message matches Some(e) && e@
                        == "Failed to create directory at: "@ + path_debug_quoted(path@)
                },
            },
    {
        match result {
            Ok(_) => {
                self.dir_browser.enter_created_dir(path.clone());
                let q = path_debug_text(path.as_str());
                self.status_message = concat2("📁 Created and selected new directory: ", q.as_str());
                self.current_dest_path = path;
                Some(Effect::ReloadDir)
            },
            Err(_) => {
                self.dir_browser.error_message = Some(create_dir_failure_message(path.as_str()));
                None
            },
        }
    }
}


/// The spinner advanced by one frame (of ten).
pub open spec fn ticked(s: AppState) -> AppState {
    AppState { spinner_frame: ((s.spinner_frame + 1) % 10) as usize, ..s }
}

/// Handling messages in order: a chain of states from `old` to `new`, each step as
/// [`message_post`] says, with one effect per message.
pub open spec fn messages_post(
    old: AppState,
    new: AppState,
    msgs: Seq<AppMessage>,
    effects: Seq<Option<Effect>>,
) -> bool {
    &&& effects.len() == msgs.len()
    &&& exists|states: Seq<AppState>|
        {
            &&& #[trigger] states.len() == msgs.len() + 1
            &&& states[0] == old
            &&& states[msgs.len() as int] == new
            &&& forall|i: int|
                0 <= i < msgs.len() ==> message_post(
                    states[i],
                    states[i + 1],
                    #[trigger] msgs[i],
                    effects[i],
                )
        }
}

/// The metadata in a message can be handled: its thumbnails' areas fit.
pub open spec fn message_ok(m: AppMessage) -> bool {
    m matches AppMessage::MetadataFetched(Ok(info)) ==> areas_fit(info@.thumbnails)
}

impl AppState {
    /// One turn of the main loop's bookkeeping: advances the spinner, then takes the
    /// messages that arrived, in order (see [`messages_post`]), returning the effect each
    /// asks for.
    pub fn handle_messages(&mut self, msgs: Vec<AppMessage>) -> (r: Vec<Option<Effect>>)
        requires
            old(self).wf(),
            forall|i: int| 0 <= i < msgs@.len() ==> message_ok(#[trigger] msgs@[i]),
        ensures
            final(self).wf(),
            messages_post(ticked(*old(self)), *final(self), msgs@, r@),
    {
        self.tick();
        let ghost all = msgs@;
        let total = msgs.len();
        let ghost start = *self;
        let ghost mut states: Seq<AppState> = seq![*self];
        let mut rest = msgs;
        let mut effects: Vec<Option<Effect>> = Vec::new();
        let mut k: usize = 0;
        while rest.len() > 0
            invariant
                k <= all.len(),
                all.len() == total,
                rest@ == all.skip(k as int),
                self.wf(),
                forall|i: int| 0 <= i < all.len() ==> message_ok(#[trigger] all[i]),
                effects@.len() == k,
                states.len() == k + 1,
                states[0] == start,
                states[k as int] == *self,
                forall|i: int|
                    0 <= i < k ==> message_post(states[i], states[i + 1], #[trigger] all[i], effects@[i]),
            decreases rest.len(),
        {
            assert(rest@[0] == all[k as int]);
            let m = rest.remove(0);
            let e = self.handle_message(m);
            effects.push(e);
            proof {
                states = states.push(*self);
                assert(rest@ =~= all.skip(k + 1));
            }
            k = k + 1;
        }
        assert(k == all.len());
        assert(messages_post(start, *self, all, effects@)) by {
            assert(states.len() == all.len() + 1);
        }
        effects
    }
}

/// Pressing `Tab` three times from Video, Audio or Thumbnail-only comes back to the same
/// mode, passing through the other two; custom streams go back to Video.
pub proof fn law_mode_cycle(m: DownloadMode)
    ensures
        !(m is CustomFormats) ==> next_mode(next_mode(next_mode(m))) == m,
        !(m is CustomFormats) ==> next_mode(m) != m && next_mode(next_mode(m)) != m
            && next_mode(m) != next_mode(next_mode(m)),
        m is CustomFormats ==> next_mode(m) == DownloadMode::Video,
{
}

/// A download is only ever started with a URL typed, its metadata loaded and no other
/// download running; it is started for the trimmed URL into the destination, and it
/// marks the state as downloading.
pub proof fn law_download_needs_metadata(old: AppState, new: AppState, r: Option<Effect>)
    requires
        start_download_post(old, new, r),
        r matches Some(Effect::StartDownload(_)),
    ensures
        trim(old.url_input@).len() > 0,
        !old.is_fetching_meta,
        old.media_info is Some,
        !old.is_downloading,
        !(old.mode is ThumbnailOnly),
        new.is_downloading,
        r matches Some(Effect::StartDownload(o)) && o.url@ == trim(old.url_input@) && o.dest_dir@
            == old.current_dest_path@,
{
}

/// Taking a URL never starts a download: it only asks for the metadata, and leaves the
/// download state alone.
pub proof fn law_set_url_never_downloads(old: AppState, new: AppState, url: Seq<char>, r: Option<Effect>)
    requires
        set_url_post(old, new, url, r),
    ensures
        r is None || r matches Some(Effect::FetchMedia(_)),
        new.is_downloading == old.is_downloading,
        new.progress == old.progress,
        new.last_download_dir == old.last_download_dir,
{
}

/// `Ctrl+C` quits from every screen and in every state, changing nothing.
pub proof fn law_ctrl_c_quits(old: AppState, new: AppState, r: Option<Effect>)
    requires
        key_post(old, new, Key::Char('c'), true, r),
    ensures
        r matches Some(Effect::Quit),
        new == old,
{
}

/// Moving through a list keeps the selection on a row: a selection on one of `n` rows stays
/// on one of them after a step down or up (a list holds at most `usize::MAX` rows).
pub proof fn law_selection_in_range(sel: usize, n: nat)
    requires
        sel < n <= usize::MAX,
    ensures
        step_down(sel, n) < n,
        step_up(sel) < n,
        step_down(sel, n) == sel || step_down(sel, n) == sel + 1,
        step_up(sel) == sel || step_up(sel) + 1 == sel,
{
}

/// A finished download, whatever its outcome, leaves the state not downloading; a
/// successful one shows 100 percent.
pub proof fn law_finish_stops_download(
    old: AppState,
    new: AppState,
    success: bool,
    output_path: Option<String>,
    r: Option<Effect>,
)
    requires
        message_post(old, new, AppMessage::Download(DownloadEvent::Finished { success, output_path }), r),
    ensures
        !new.is_downloading,
        success ==> new.progress@.percent == "100"@,
        new.media_info == old.media_info,
{
}


/// Typing a URL, receiving its metadata and pressing `Enter` starts a download of that URL
/// (trimmed) into the destination, in the mode that was set (the stream choices having been
/// cleared with the new URL), unless the mode is Thumbnail-only or a download is running.
pub proof fn law_fetch_then_download(
    s0: AppState,
    s1: AppState,
    s2: AppState,
    s3: AppState,
    url: Seq<char>,
    info: MediaInfo,
    r1: Option<Effect>,
    r2: Option<Effect>,
    r3: Option<Effect>,
)
    requires
        set_url_post(s0, s1, url, r1),
        message_post(s1, s2, AppMessage::MetadataFetched(Ok(info)), r2),
        start_download_post(s2, s3, r3),
        trim(url).len() > 0,
        !(s0.mode is ThumbnailOnly),
        !s0.is_downloading,
    ensures
        r1 matches Some(Effect::FetchMedia(u)) && u@ == trim(url),
        r3 matches Some(Effect::StartDownload(o)) && o.url@ == trim(url) && o.dest_dir@
            == s0.current_dest_path@ && o.mode == s0.mode && o.max_resolution == s0.max_resolution
            && o.audio_format == s0.audio_format,
        s3.is_downloading,
        s3.media_info == Some(info),
{
    lemma_trim_idempotent(url);
}


/// Browsing folders never changes the root (only a bookmark key does), and going up from
/// the root itself does nothing.
pub proof fn law_browsing_keeps_root(old: AppState, new: AppState, key: Key, r: Option<Effect>)
    requires
        dir_key_post(old, new, key, r),
    ensures
        !is_bookmark_key(key) || old.dir_browser.is_creating_dir ==> new.dir_browser.root_path
            == old.dir_browser.root_path,
        !old.dir_browser.is_creating_dir && (key == Key::Char('h') || key == Key::Left) && !below_root(
            old.dir_browser.current_path@,
            old.dir_browser.root_path@,
        ) ==> r is None && new == old,
{
}


/// Picked streams are what gets downloaded: starting a download (URL typed, metadata
/// loaded, no download running, not Thumbnail-only) from a mode other than custom streams
/// downloads exactly the picked video and audio streams when either was picked (a side not
/// picked stays unset), and the current mode when none was.
pub proof fn law_picked_streams_are_downloaded(old: AppState, new: AppState, r: Option<Effect>)
    requires
        start_download_post(old, new, r),
        trim(old.url_input@).len() > 0,
        !old.is_fetching_meta,
        old.media_info is Some,
        !(old.mode is ThumbnailOnly),
        !(old.mode is CustomFormats),
        !old.is_downloading,
    ensures
        r matches Some(Effect::StartDownload(o)) && {
            &&& (old.custom_video_format is Some || old.custom_audio_format is Some) ==> o.mode
                == DownloadMode::CustomFormats {
                video_id: old.custom_video_format,
                audio_id: old.custom_audio_format,
            }
            &&& (old.custom_video_format is None && old.custom_audio_format is None) ==> o.mode == old.mode
        },
{
}

} // verus!
