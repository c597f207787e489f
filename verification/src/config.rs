//! Application settings and destination bookmarks.
use vstd::prelude::*;
use vstd::string::*;
use crate::paths::{join, join_path};
use crate::text::str_eq;

verus! {

/// General settings.
#[derive(Debug, Clone)]
pub struct GeneralConfig {
    pub default_mode: String,
    pub max_resolution: String,
    pub auto_paste_clipboard: bool,
    pub notify_on_complete: bool,
}

/// Default of `default_mode`: `video`.
pub fn default_mode() -> (r: String)
    ensures
        r@ == "video"@,
{
    String::from_str("video")
}

/// Default of `max_resolution`: `unlimited`.
pub fn default_max_resolution() -> (r: String)
    ensures
        r@ == "unlimited"@,
{
    String::from_str("unlimited")
}

/// Default of a setting that is on unless turned off.
pub fn default_true() -> (r: bool)
    ensures
        r,
{
    true
}

/// Default of a setting that is off unless turned on.
pub fn default_false() -> (r: bool)
    ensures
        !r,
{
    false
}

impl Default for GeneralConfig {
    fn default() -> (r: Self)
        ensures
            r.default_mode@ == "video"@,
            r.max_resolution@ == "unlimited"@,
            !r.auto_paste_clipboard,
            r.notify_on_complete,
    {
        GeneralConfig {
            default_mode: default_mode(),
            max_resolution: default_max_resolution(),
            auto_paste_clipboard: false,
            notify_on_complete: true,
        }
    }
}

/// Audio extraction settings.
#[derive(Debug, Clone)]
pub struct AudioSettingsConfig {
    pub format: String,
    pub quality: String,
    pub embed_thumbnail: bool,
    pub add_metadata: bool,
}

/// Default of the audio `format`: `mp3`.
pub fn default_audio_format() -> (r: String)
    ensures
        r@ == "mp3"@,
{
    String::from_str("mp3")
}

/// Default of the audio `quality`: `0` (best).
pub fn default_audio_quality() -> (r: String)
    ensures
        r@ == "0"@,
{
    String::from_str("0")
}

impl Default for AudioSettingsConfig {
    fn default() -> (r: Self)
        ensures
            r.format@ == "mp3"@,
            r.quality@ == "0"@,
            !r.embed_thumbnail,
            r.add_metadata,
    {
        AudioSettingsConfig {
            format: default_audio_format(),
            quality: default_audio_quality(),
            embed_thumbnail: false,
            add_metadata: true,
        }
    }
}

/// A registered destination root directory.
#[derive(Debug, Clone)]
pub struct Bookmark {
    pub id: usize,
    pub name: String,
    /// The directory, as text.
    pub path: String,
    /// `video`, `audio`, `thumbnail` or `any`.
    pub category: String,
}

/// Mathematical view of a [`Bookmark`].
pub struct BookmarkView {
    pub id: usize,
    pub name: Seq<char>,
    pub path: Seq<char>,
    pub category: Seq<char>,
}

impl View for Bookmark {
    type V = BookmarkView;

    open spec fn view(&self) -> BookmarkView {
        BookmarkView { id: self.id, name: self.name@, path: self.path@, category: self.category@ }
    }
}

/// Views of a list of bookmarks.
pub open spec fn bookmarks_view(v: Seq<Bookmark>) -> Seq<BookmarkView> {
    v.map_values(|b: Bookmark| b@)
}

/// All settings.
#[derive(Debug, Clone)]
pub struct AppConfig {
    pub general: GeneralConfig,
    pub audio: AudioSettingsConfig,
    pub bookmarks: Vec<Bookmark>,
}

/// The home directory (`dirs::home_dir`), as text. It depends on the environment, so
/// nothing is promised of it.
#[verifier::external_body]
fn home_dir() -> Option<String> {
    dirs::home_dir().map(|p| p.to_string_lossy().into_owned())
}

/// The user's music directory (`dirs::audio_dir`), as text. It depends on the environment,
/// so nothing is promised of it.
#[verifier::external_body]
fn audio_dir() -> Option<String> {
    dirs::audio_dir().map(|p| p.to_string_lossy().into_owned())
}

/// The user's video directory (`dirs::video_dir`), as text. It depends on the environment,
/// so nothing is promised of it.
#[verifier::external_body]
fn video_dir() -> Option<String> {
    dirs::video_dir().map(|p| p.to_string_lossy().into_owned())
}

/// The user's download directory (`dirs::download_dir`), as text. It depends on the
/// environment, so nothing is promised of it.
#[verifier::external_body]
fn download_dir() -> Option<String> {
    dirs::download_dir().map(|p| p.to_string_lossy().into_owned())
}

/// The configuration directory of an application (`directories::ProjectDirs::from`, then
/// `config_dir`), as text. Which directory it is depends on the environment, so that is not
/// promised; the crate builds it by joining onto a base directory (the home directory, or an
/// absolute XDG or known-folder directory), so it is never empty.
#[verifier::external_body]
fn project_config_dir(qualifier: &str, organization: &str, application: &str) -> (r: Option<String>)
    ensures
        r matches Some(d) ==> d@.len() > 0,
{
    directories::ProjectDirs::from(qualifier, organization, application).map(
        |p| p.config_dir().to_string_lossy().into_owned(),
    )
}

/// The cache directory of an application (`directories::ProjectDirs::from`, then
/// `cache_dir`), as text. Which directory it is depends on the environment, so that is not
/// promised; the crate builds it by joining onto a base directory (the home directory, or an
/// absolute XDG or known-folder directory), so it is never empty.
#[verifier::external_body]
fn project_cache_dir(qualifier: &str, organization: &str, application: &str) -> (r: Option<String>)
    ensures
        r matches Some(d) ==> d@.len() > 0,
{
    directories::ProjectDirs::from(qualifier, organization, application).map(
        |p| p.cache_dir().to_string_lossy().into_owned(),
    )
}

/// The home directory, `.` when unknown.
pub open spec fn home_or_dot(home: Option<Seq<char>>) -> Seq<char> {
    match home {
        Some(h) => h,
        None => "."@,
    }
}

/// A standard directory, or a directory named `name` under the home directory.
pub open spec fn dir_or_home(dir: Option<Seq<char>>, home: Option<Seq<char>>, name: Seq<char>) -> Seq<char> {
    match dir {
        Some(d) => d,
        None => join_path(home_or_dot(home), name),
    }
}

/// The bookmarks of a fresh configuration: Music (audio), Videos (video) and Downloads
/// (any), numbered 1 to 3.
pub open spec fn default_bookmarks(
    home: Option<Seq<char>>,
    audio: Option<Seq<char>>,
    video: Option<Seq<char>>,
    download: Option<Seq<char>>,
) -> Seq<BookmarkView> {
    seq![
        BookmarkView { id: 1, name: "Music"@, path: dir_or_home(audio, home, "Music"@), category: "audio"@ },
        BookmarkView { id: 2, name: "Videos"@, path: dir_or_home(video, home, "Videos"@), category: "video"@ },
        BookmarkView { id: 3, name: "Downloads"@, path: dir_or_home(download, home, "Downloads"@), category: "any"@ },
    ]
}

/// The location of the configuration file: `config.toml` in the application's
/// configuration directory, else `~/.config/shard/config.toml`.
pub open spec fn config_path_of(project_dir: Option<Seq<char>>, home: Option<Seq<char>>) -> Seq<char> {
    match project_dir {
        Some(d) => join_path(d, "config.toml"@),
        None => join_path(home_or_dot(home), ".config/shard/config.toml"@),
    }
}

/// The cache directory: the application's cache directory, else `~/.cache/shard`.
pub open spec fn cache_dir_of(project_dir: Option<Seq<char>>, home: Option<Seq<char>>) -> Seq<char> {
    match project_dir {
        Some(d) => d,
        None => join_path(home_or_dot(home), ".cache/shard"@),
    }
}

fn home_or_dot_exec(home: &Option<String>) -> (r: String)
    ensures
        r@ == home_or_dot(home.deep_view()),
{
    match home {
        Some(h) => h.clone(),
        None => String::from_str("."),
    }
}

fn dir_or_home_exec(dir: Option<String>, home: &Option<String>, name: &str) -> (r: String)
    ensures
        r@ == dir_or_home(dir.deep_view(), home.deep_view(), name@),
{
    match dir {
        Some(d) => d,
        None => {
            let h = home_or_dot_exec(home);
            join(h.as_str(), name)
        },
    }
}

impl AppConfig {
    /// The configuration that the given standard directories give (see
    /// [`default_bookmarks`]), with default general and audio settings.
    pub fn from_dirs(
        home: Option<String>,
        audio: Option<String>,
        video: Option<String>,
        download: Option<String>,
    ) -> (r: AppConfig)
        ensures
            bookmarks_view(r.bookmarks@) == default_bookmarks(
                home.deep_view(),
                audio.deep_view(),
                video.deep_view(),
                download.deep_view(),
            ),
            r.general.default_mode@ == "video"@,
            r.general.max_resolution@ == "unlimited"@,
            !r.general.auto_paste_clipboard,
            r.general.notify_on_complete,
            r.audio.format@ == "mp3"@,
            r.audio.quality@ == "0"@,
            !r.audio.embed_thumbnail,
            r.audio.add_metadata,
    {
        let music_dir = dir_or_home_exec(audio, &home, "Music");
        let video_dir = dir_or_home_exec(video, &home, "Videos");
        let download_dir = dir_or_home_exec(download, &home, "Downloads");
        let mut bookmarks: Vec<Bookmark> = Vec::new();
        bookmarks.push(
            Bookmark {
                id: 1,
                name: String::from_str("Music"),
                path: music_dir,
                category: String::from_str("audio"),
            },
        );
        bookmarks.push(
            Bookmark {
                id: 2,
                name: String::from_str("Videos"),
                path: video_dir,
                category: String::from_str("video"),
            },
        );
        bookmarks.push(
            Bookmark {
                id: 3,
                name: String::from_str("Downloads"),
                path: download_dir,
                category: String::from_str("any"),
            },
        );
        let r = AppConfig {
            general: GeneralConfig::default(),
            audio: AudioSettingsConfig::default(),
            bookmarks,
        };
        assert(bookmarks_view(r.bookmarks@) =~= default_bookmarks(
            home.deep_view(),
            audio.deep_view(),
            video.deep_view(),
            download.deep_view(),
        ));
        r
    }

    /// The location of the configuration file (see [`config_path_of`]) for the
    /// directories that the environment gives: the application's configuration directory
    /// (never empty) when known, and the home directory.
    pub fn config_path() -> (r: String)
        ensures
            exists|project: Option<Seq<char>>, home: Option<Seq<char>>|
                #![trigger config_path_of(project, home)]
                r@ == config_path_of(project, home) && (project matches Some(d) ==> d.len() > 0),
    {
        let project = project_config_dir("com", "antigravity", "shard");
        let home = home_dir();
        Self::config_path_from(project, home)
    }

    /// The location of the configuration file for given directories.
    pub fn config_path_from(project_dir: Option<String>, home: Option<String>) -> (r: String)
        ensures
            r@ == config_path_of(project_dir.deep_view(), home.deep_view()),
    {
        match project_dir {
            Some(d) => join(d.as_str(), "config.toml"),
            None => {
                let h = home_or_dot_exec(&home);
                join(h.as_str(), ".config/shard/config.toml")
            },
        }
    }

    /// The cache directory (see [`cache_dir_of`]) for the directories that the environment
    /// gives: the application's cache directory (never empty) when known, and the home
    /// directory. It is never empty.
    pub fn cache_dir() -> (r: String)
        ensures
            exists|project: Option<Seq<char>>, home: Option<Seq<char>>|
                #![trigger cache_dir_of(project, home)]
                r@ == cache_dir_of(project, home) && (project matches Some(d) ==> d.len() > 0),
            r@.len() > 0,
    {
        let project = project_cache_dir("com", "antigravity", "shard");
        let home = home_dir();
        let r = Self::cache_dir_from(project, home);
        proof {
            reveal_strlit(".cache/shard");
            assert(cache_dir_of(project.deep_view(), home.deep_view()).len() > 0);
        }
        r
    }

    /// The cache directory for given directories.
    pub fn cache_dir_from(project_dir: Option<String>, home: Option<String>) -> (r: String)
        ensures
            r@ == cache_dir_of(project_dir.deep_view(), home.deep_view()),
    {
        match project_dir {
            Some(d) => d,
            None => {
                let h = home_or_dot_exec(&home);
                join(h.as_str(), ".cache/shard")
            },
        }
    }

    /// The bookmark suggested for a category: the first of that category, else the first
    /// bookmark.
    pub fn default_bookmark_for_mode(&self, mode_category: &str) -> (r: Option<&Bookmark>)
        ensures
            match r {
                Some(b) => b@ == match first_in_category(bookmarks_view(self.bookmarks@), mode_category@) {
                    Some(i) => bookmarks_view(self.bookmarks@)[i],
                    None => bookmarks_view(self.bookmarks@)[0],
                },
                None => self.bookmarks@.len() == 0,
            },
            r is Some <==> self.bookmarks@.len() > 0,
    {
        match position_of_category(&self.bookmarks, mode_category) {
            Some(i) => Some(&self.bookmarks[i]),
            None => if self.bookmarks.len() > 0 {
                Some(&self.bookmarks[0])
            } else {
                None
            },
        }
    }
}

impl Default for AppConfig {
    /// Default settings with bookmarks for the user's music, video and download
    /// directories (falling back to `Music`, `Videos` and `Downloads` under the home
    /// directory; see [`default_bookmarks`]). Which directories the environment gives is
    /// not promised.
    fn default() -> (r: Self)
        ensures
            exists|home: Option<Seq<char>>, audio: Option<Seq<char>>, video: Option<Seq<char>>, download: Option<Seq<char>>|
                #![trigger default_bookmarks(home, audio, video, download)]
                bookmarks_view(r.bookmarks@) == default_bookmarks(home, audio, video, download),
            r.bookmarks@.len() == 3,
            r.bookmarks@[0].id == 1 && r.bookmarks@[0].name@ == "Music"@ && r.bookmarks@[0].category@ == "audio"@,
            r.bookmarks@[1].id == 2 && r.bookmarks@[1].name@ == "Videos"@ && r.bookmarks@[1].category@ == "video"@,
            r.bookmarks@[2].id == 3 && r.bookmarks@[2].name@ == "Downloads"@ && r.bookmarks@[2].category@ == "any"@,
            r.general.default_mode@ == "video"@,
            r.general.max_resolution@ == "unlimited"@,
            !r.general.auto_paste_clipboard,
            r.general.notify_on_complete,
            r.audio.format@ == "mp3"@,
            r.audio.quality@ == "0"@,
            !r.audio.embed_thumbnail,
            r.audio.add_metadata,
    {
        let home = home_dir();
        let audio = audio_dir();
        let video = video_dir();
        let download = download_dir();
        let r = AppConfig::from_dirs(home, audio, video, download);
        assert(bookmarks_view(r.bookmarks@).len() == 3);
        assert(r.bookmarks@.len() == 3);
        assert(bookmarks_view(r.bookmarks@)[0] == r.bookmarks@[0]@);
        assert(bookmarks_view(r.bookmarks@)[1] == r.bookmarks@[1]@);
        assert(bookmarks_view(r.bookmarks@)[2] == r.bookmarks@[2]@);
        r
    }
}

/// Index of the first bookmark of a category.
pub open spec fn first_in_category(bs: Seq<BookmarkView>, cat: Seq<char>) -> Option<int>
    decreases bs.len(),
{
    if bs.len() == 0 {
        None
    } else {
        match first_in_category(bs.drop_last(), cat) {
            Some(i) => Some(i),
            None => if bs.last().category == cat {
                Some(bs.len() - 1)
            } else {
                None
            },
        }
    }
}

proof fn lemma_first_in_category_prefix(bs: Seq<BookmarkView>, cat: Seq<char>, n: int)
    requires
        0 <= n <= bs.len(),
        first_in_category(bs.take(n), cat) is Some,
    ensures
        first_in_category(bs, cat) == first_in_category(bs.take(n), cat),
    decreases bs.len() - n,
{
    if n < bs.len() {
        assert(bs.take(n + 1).drop_last() == bs.take(n));
        lemma_first_in_category_prefix(bs, cat, n + 1);
    } else {
        assert(bs.take(n) == bs);
    }
}

/// Position of the first bookmark of a category (`Iterator::position`).
pub fn position_of_category(bookmarks: &Vec<Bookmark>, cat: &str) -> (r: Option<usize>)
    ensures
        match r {
            Some(i) => i < bookmarks.len() && first_in_category(bookmarks_view(bookmarks@), cat@)
                == Some(i as int),
            None => first_in_category(bookmarks_view(bookmarks@), cat@) is None,
        },
{
    let ghost bv = bookmarks_view(bookmarks@);
    let mut i: usize = 0;
    while i < bookmarks.len()
        invariant
            i <= bookmarks.len(),
            bv == bookmarks_view(bookmarks@),
            first_in_category(bv.take(i as int), cat@) is None,
        decreases bookmarks.len() - i,
    {
        assert(bv.take(i + 1).drop_last() == bv.take(i as int));
        assert(bv.take(i + 1).last() == bookmarks@[i as int]@);
        if str_eq(bookmarks[i].category.as_str(), cat) {
            proof {
                assert(first_in_category(bv.take(i + 1), cat@) == Some(i as int));
                lemma_first_in_category_prefix(bv, cat@, i + 1);
            }
            return Some(i);
        }
        i += 1;
    }
    assert(bv.take(bookmarks.len() as int) == bv);
    None
}

} // verus!
