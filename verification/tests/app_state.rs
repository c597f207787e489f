use shard::app::{AppMessage, AppScreenMode, AppState, Effect, Key};
use shard::browser::{DirBrowserState, RawDirEntry};
use shard::config::{AppConfig, AudioSettingsConfig, Bookmark, GeneralConfig};
use shard::json::{JsonNumber, JsonValue};
use shard::ytdlp::download::{AudioFormat, DownloadEvent, DownloadMode, MaxResolution};
use shard::ytdlp::models::MediaInfo;
use shard::ytdlp::parser::DownloadProgress;

fn bookmark(id: usize, name: &str, path: &str, category: &str) -> Bookmark {
    Bookmark { id, name: name.to_string(), path: path.to_string(), category: category.to_string() }
}

fn config(notify: bool) -> AppConfig {
    AppConfig {
        general: GeneralConfig {
            default_mode: "video".into(),
            max_resolution: "unlimited".into(),
            auto_paste_clipboard: false,
            notify_on_complete: notify,
        },
        audio: AudioSettingsConfig {
            format: "mp3".into(),
            quality: "0".into(),
            embed_thumbnail: true,
            add_metadata: true,
        },
        bookmarks: vec![
            bookmark(1, "Music", "/m/Music", "audio"),
            bookmark(2, "Videos", "/m/Videos", "video"),
            bookmark(3, "Downloads", "/m/Downloads", "any"),
        ],
    }
}

fn fresh(notify: bool) -> AppState {
    let browser = DirBrowserState::new("/m/Music".into(), true, None);
    let (app, effect) = AppState::new(config(notify), browser, "/m/Music".into());
    assert!(matches!(effect, Some(Effect::ReloadDir)));
    app
}

fn media(id: &str, title: &str) -> MediaInfo {
    let thumb = JsonValue::Object {
        keys: vec!["url".into(), "width".into(), "height".into()],
        values: vec![
            JsonValue::Str("https://i/a.jpg".into()),
            JsonValue::Number(JsonNumber::PosInt(500)),
            JsonValue::Number(JsonNumber::PosInt(500)),
        ],
    };
    let fmt = JsonValue::Object {
        keys: vec!["format_id".into()],
        values: vec![JsonValue::Str("137".into())],
    };
    let v = JsonValue::Object {
        keys: vec!["id".into(), "title".into(), "thumbnails".into(), "formats".into()],
        values: vec![
            JsonValue::Str(id.into()),
            JsonValue::Str(title.into()),
            JsonValue::Array(vec![thumb]),
            JsonValue::Array(vec![fmt]),
        ],
    };
    MediaInfo::from_value(&v)
}

fn loaded(notify: bool) -> AppState {
    let mut app = fresh(notify);
    let e = app.set_url("  https://youtu.be/abc  ");
    assert!(matches!(e, Some(Effect::FetchMedia(ref u)) if u == "https://youtu.be/abc"));
    app.handle_message(AppMessage::MetadataFetched(Ok(media("abc", "Song"))));
    app
}

#[test]
fn new_state_follows_video_mode() {
    let app = fresh(true);
    assert_eq!(app.mode, DownloadMode::Video);
    assert_eq!(app.max_resolution, MaxResolution::Unlimited);
    assert_eq!(app.audio_format, AudioFormat::Mp3);
    assert_eq!(app.current_bookmark_index, 1);
    assert_eq!(app.current_dest_path, "/m/Videos");
    assert_eq!(app.dir_browser.root_path, "/m/Videos");
    assert_eq!(app.status_message, "Press 'v' to paste URL from clipboard. Press 'P' to open Picard.");
}

#[test]
fn tab_cycles_modes_and_destinations() {
    let mut app = fresh(true);
    app.toggle_mode();
    assert_eq!(app.mode, DownloadMode::Audio);
    assert_eq!(app.current_dest_path, "/m/Music");
    app.toggle_mode();
    assert_eq!(app.mode, DownloadMode::ThumbnailOnly);
    assert_eq!(app.current_dest_path, "/m/Downloads");
    app.toggle_mode();
    assert_eq!(app.mode, DownloadMode::Video);
    assert_eq!(app.current_dest_path, "/m/Videos");
}

#[test]
fn blank_url_changes_nothing() {
    let mut app = fresh(true);
    assert!(app.set_url("   ").is_none());
    assert_eq!(app.url_input, "");
    assert!(!app.is_fetching_meta);
}

#[test]
fn download_requires_url_and_metadata() {
    let mut app = fresh(true);
    assert!(app.start_download().is_none());
    assert_eq!(app.status_message, "⚠️ Please paste or enter a URL first (press 'v').");
    app.set_url("https://youtu.be/abc");
    assert!(app.start_download().is_none());
    assert_eq!(app.status_message, "⏳ Media information is still loading. Please wait...");
    app.handle_message(AppMessage::MetadataFetched(Err("boom".into())));
    assert_eq!(app.status_message, "❌ Metadata error: boom");
    assert!(app.start_download().is_none());
    assert_eq!(app.status_message, "⚠️ Media information not loaded. Please re-enter URL.");
}

#[test]
fn download_starts_once_loaded() {
    let mut app = loaded(true);
    assert_eq!(app.status_message, "✅ Media Ready: Song | Press [Enter] to Download, [i] for Artwork, [F] for Streams");
    match app.start_download() {
        Some(Effect::StartDownload(o)) => {
            assert_eq!(o.url, "https://youtu.be/abc");
            assert_eq!(o.dest_dir, "/m/Videos");
            assert_eq!(o.mode, DownloadMode::Video);
        }
        other => panic!("unexpected {:?}", other),
    }
    assert!(app.is_downloading);
    assert_eq!(app.last_download_dir.as_deref(), Some("/m/Videos"));
    assert!(app.start_download().is_none());
    assert_eq!(app.status_message, "Download already in progress.");
}

#[test]
fn picked_streams_become_custom_download() {
    let mut app = loaded(true);
    app.custom_video_format = Some("137".into());
    match app.start_download() {
        Some(Effect::StartDownload(o)) => assert_eq!(
            o.mode,
            DownloadMode::CustomFormats { video_id: Some("137".into()), audio_id: None }
        ),
        other => panic!("unexpected {:?}", other),
    }
}

#[test]
fn thumbnail_mode_saves_best_image() {
    let mut app = loaded(true);
    app.toggle_mode();
    app.toggle_mode();
    app.image_list_selected = 3;
    match app.start_download() {
        Some(Effect::SaveImage { url, dest_dir, base_name }) => {
            assert_eq!(url, "https://i/a.jpg");
            assert_eq!(dest_dir, "/m/Downloads");
            assert_eq!(base_name, "Song_thumb");
        }
        other => panic!("unexpected {:?}", other),
    }
    assert_eq!(app.image_list_selected, 0);
    assert_eq!(app.status_message, "⏳ Downloading image (500x500) ...");
}

#[test]
fn audio_mode_saves_cover() {
    let mut app = loaded(true);
    app.toggle_mode();
    match app.save_selected_image() {
        Some(Effect::SaveImage { base_name, .. }) => assert_eq!(base_name, "cover"),
        other => panic!("unexpected {:?}", other),
    }
}

#[test]
fn image_without_media_says_so() {
    let mut app = fresh(true);
    assert!(app.save_selected_image().is_none());
    assert_eq!(app.status_message, "⚠️ No media info loaded.");
}

#[test]
fn download_events_update_state() {
    let mut app = loaded(true);
    app.start_download();
    app.handle_message(AppMessage::Download(DownloadEvent::Started));
    assert_eq!(app.status_message, "⬇️ Downloading...");
    let p = DownloadProgress {
        percent: "42.0".into(),
        speed: "1MiB/s".into(),
        eta: "00:10".into(),
        total_size: "5MiB".into(),
        raw_status: "x".into(),
    };
    app.handle_message(AppMessage::Download(DownloadEvent::Progress(p.clone())));
    assert_eq!(app.progress, p);
    match app.handle_message(AppMessage::Download(DownloadEvent::Error("bad".into()))) {
        Some(Effect::Notify { summary, body }) => {
            assert_eq!(summary, "shard: Download Error");
            assert_eq!(body, "bad");
        }
        other => panic!("unexpected {:?}", other),
    }
    assert_eq!(app.status_message, "Error: bad");
    let e = app.handle_message(AppMessage::Download(DownloadEvent::Finished {
        success: true,
        output_path: Some("/m/Videos".into()),
    }));
    assert!(!app.is_downloading);
    assert_eq!(app.progress.percent, "100");
    assert_eq!(app.status_message, "🎉 Completed! Saved to: /m/Videos (Press 'P' for Picard)");
    match e {
        Some(Effect::Notify { summary, body }) => {
            assert_eq!(summary, "shard: Download Complete");
            assert_eq!(body, "Successfully saved: Song");
        }
        other => panic!("unexpected {:?}", other),
    }
}

#[test]
fn failed_download_and_no_notification() {
    let mut app = loaded(false);
    let e = app.handle_message(AppMessage::Download(DownloadEvent::Finished { success: false, output_path: None }));
    assert!(e.is_none());
    assert_eq!(app.status_message, "❌ Download failed or cancelled.");
}

#[test]
fn image_saved_messages() {
    let mut app = loaded(true);
    match app.handle_message(AppMessage::ImageSaved(Ok("/m/x.jpg".into()))) {
        Some(Effect::Notify { body, .. }) => assert_eq!(body, "Successfully saved image to: /m/x.jpg"),
        other => panic!("unexpected {:?}", other),
    }
    assert_eq!(app.status_message, "🎉 Image saved successfully to: /m/x.jpg");
    app.handle_message(AppMessage::ImageSaved(Err("net".into())));
    assert_eq!(app.status_message, "❌ Failed to save image: net");
    app.handle_message(AppMessage::ThumbnailFetched(Err("404".into())));
    assert_eq!(app.status_message, "Thumbnail warning: 404");
    match app.handle_message(AppMessage::ThumbnailFetched(Ok(()))) {
        Some(Effect::ShowPreview(u)) => assert_eq!(u, "https://youtu.be/abc"),
        other => panic!("unexpected {:?}", other),
    }
}

#[test]
fn clipboard_and_picard() {
    let mut app = fresh(true);
    assert!(app.paste_clipboard(None).is_none());
    assert_eq!(app.status_message, "No valid URL (http:// or https://) found in clipboard");
    assert!(matches!(app.paste_clipboard(Some("https://x".into())), Some(Effect::FetchMedia(_))));
    match app.open_picard() {
        Effect::OpenPicard(d) => assert_eq!(d, "/m/Videos"),
        other => panic!("unexpected {:?}", other),
    }
    app.picard_result("/m/Videos", Err("not found".into()));
    assert_eq!(app.status_message, "Failed to launch Picard: not found");
    app.picard_result("/m/Videos", Ok(()));
    assert_eq!(app.status_message, "Opened MusicBrainz Picard at: \"/m/Videos\"");
}

#[test]
fn keys_on_main_screen() {
    let mut app = fresh(true);
    assert!(matches!(app.handle_key(Key::Char('c'), true), Some(Effect::Quit)));
    assert!(matches!(app.handle_key(Key::Char('q'), false), Some(Effect::Quit)));
    app.handle_key(Key::Char('r'), false);
    assert_eq!(app.max_resolution, MaxResolution::Res1080p);
    app.handle_key(Key::Char('a'), false);
    assert_eq!(app.audio_format, AudioFormat::Flac);
    app.handle_key(Key::Char('f'), false);
    assert_eq!(app.screen_mode, AppScreenMode::Normal);
    assert_eq!(app.status_message, "⚠️ No media loaded yet. Please paste or enter a URL first.");
    assert!(matches!(app.handle_key(Key::Char('v'), false), Some(Effect::ReadClipboard)));
    app.handle_key(Key::Char('u'), false);
    assert!(app.is_editing_url);
    for c in "https://a".chars() {
        app.handle_key(Key::Char(c), false);
    }
    app.handle_key(Key::Char('x'), false);
    app.handle_key(Key::Backspace, false);
    assert_eq!(app.url_input, "https://a");
    match app.handle_key(Key::Enter, false) {
        Some(Effect::FetchMedia(u)) => assert_eq!(u, "https://a"),
        other => panic!("unexpected {:?}", other),
    }
    assert!(!app.is_editing_url);
    assert!(app.is_fetching_meta);
    app.handle_key(Key::Char('i'), false);
    assert_eq!(app.status_message, "⏳ Media info still fetching. Please wait...");
}

#[test]
fn keys_in_format_list() {
    let mut app = loaded(true);
    app.handle_key(Key::Char('F'), false);
    assert_eq!(app.screen_mode, AppScreenMode::FormatSelectModal);
    app.handle_key(Key::Down, false);
    assert_eq!(app.format_list_selected, 0);
    app.handle_key(Key::Char(' '), false);
    assert_eq!(app.custom_video_format.as_deref(), Some("137"));
    app.handle_key(Key::Char(' '), false);
    assert_eq!(app.custom_video_format, None);
    app.handle_key(Key::Char('a'), false);
    assert_eq!(app.custom_audio_format.as_deref(), Some("137"));
    app.handle_key(Key::Char('c'), false);
    assert_eq!(app.custom_audio_format, None);
    assert_eq!(app.status_message, "Cleared custom stream selection. Reverted to Automatic Best.");
    app.handle_key(Key::Esc, false);
    assert_eq!(app.screen_mode, AppScreenMode::Normal);
}

#[test]
fn keys_in_image_list() {
    let mut app = loaded(true);
    app.handle_key(Key::Char('i'), false);
    assert_eq!(app.screen_mode, AppScreenMode::ImageSelectModal);
    app.handle_key(Key::Char('j'), false);
    assert_eq!(app.image_list_selected, 0);
    assert!(matches!(app.handle_key(Key::Enter, false), Some(Effect::SaveImage { .. })));
    assert_eq!(app.screen_mode, AppScreenMode::Normal);
}

fn dir(name: &str) -> RawDirEntry {
    RawDirEntry { name: name.into(), is_dir: true }
}

#[test]
fn keys_in_folder_browser() {
    let mut app = fresh(true);
    assert!(matches!(app.handle_key(Key::Char('d'), false), Some(Effect::ReloadDir)));
    assert_eq!(app.screen_mode, AppScreenMode::DirBrowserModal);
    app.dir_browser.reload_entries(Some(vec![dir("b"), dir("a")]));
    assert_eq!(app.dir_browser.entries[0].name, "a");
    app.handle_key(Key::Char('j'), false);
    assert_eq!(app.dir_browser.selected_index, 1);
    assert!(matches!(app.handle_key(Key::Char('l'), false), Some(Effect::ReloadDir)));
    assert_eq!(app.dir_browser.current_path, "/m/Videos/b");
    app.dir_browser.reload_entries(Some(vec![]));
    assert_eq!(app.dir_browser.entries.len(), 1);
    assert!(app.dir_browser.entries[0].is_parent);
    assert!(matches!(app.handle_key(Key::Char('h'), false), Some(Effect::ReloadDir)));
    assert_eq!(app.dir_browser.current_path, "/m/Videos");
    assert!(app.handle_key(Key::Char('h'), false).is_none());
    app.handle_key(Key::Char('n'), false);
    assert!(app.dir_browser.is_creating_dir);
    assert!(app.handle_key(Key::Enter, false).is_none());
    assert_eq!(app.dir_browser.error_message.as_deref(), Some("Folder name cannot be empty"));
    for c in " new ".chars() {
        app.handle_key(Key::Char(c), false);
    }
    match app.handle_key(Key::Enter, false) {
        Some(Effect::CreateDir(p)) => {
            assert_eq!(p, "/m/Videos/new");
            assert!(matches!(app.dir_created(p, Ok(())), Some(Effect::ReloadDir)));
        }
        other => panic!("unexpected {:?}", other),
    }
    assert_eq!(app.current_dest_path, "/m/Videos/new");
    assert_eq!(app.status_message, "📁 Created and selected new directory: \"/m/Videos/new\"");
    assert!(!app.dir_browser.is_creating_dir);
    assert!(matches!(app.handle_key(Key::Char('1'), false), Some(Effect::ReloadDir)));
    assert_eq!(app.current_dest_path, "/m/Music");
    assert_eq!(app.status_message, "Root directory switched to: Music");
    assert!(app.handle_key(Key::Char('9'), false).is_none());
    app.handle_key(Key::Char(' '), false);
    assert_eq!(app.screen_mode, AppScreenMode::Normal);
    assert_eq!(app.status_message, "📂 Destination folder selected: \"/m/Music\"");
}

#[test]
fn failed_folder_creation_is_shown() {
    let mut app = fresh(true);
    app.dir_created("/x/y".into(), Err("denied".into()));
    assert_eq!(app.dir_browser.error_message.as_deref(), Some("Failed to create directory at: \"/x/y\""));
}

#[test]
fn spinner_ticks_modulo_ten() {
    let mut app = fresh(true);
    for _ in 0..12 {
        app.tick();
    }
    assert_eq!(app.spinner_frame, 2);
}

#[test]
fn messages_are_taken_in_order_after_a_tick() {
    let mut app = fresh(true);
    app.set_url("https://youtu.be/abc");
    let effects = app.handle_messages(vec![
        AppMessage::MetadataFetched(Ok(media("abc", "Song"))),
        AppMessage::ThumbnailFetched(Ok(())),
        AppMessage::ImageSaved(Ok("/x.jpg".into())),
    ]);
    assert_eq!(effects.len(), 3);
    assert!(effects[0].is_none());
    assert!(matches!(effects[1], Some(Effect::ShowPreview(_))));
    assert!(matches!(effects[2], Some(Effect::Notify { .. })));
    assert_eq!(app.spinner_frame, 1);
    assert_eq!(app.media_info.as_ref().unwrap().title, "Song");
    assert_eq!(app.status_message, "🎉 Image saved successfully to: /x.jpg");
    assert!(app.handle_messages(Vec::new()).is_empty());
    assert_eq!(app.spinner_frame, 2);
}

#[test]
fn ctrl_c_quits_from_a_modal_too() {
    let mut app = loaded(true);
    app.handle_key(Key::Char('F'), false);
    let before_selected = app.format_list_selected;
    assert!(matches!(app.handle_key(Key::Char('c'), true), Some(Effect::Quit)));
    assert_eq!(app.screen_mode, AppScreenMode::FormatSelectModal);
    assert_eq!(app.format_list_selected, before_selected);
}

#[test]
fn lowercase_p_pastes_and_capital_p_opens_picard() {
    let mut app = fresh(true);
    assert!(matches!(app.handle_key(Key::Char('p'), false), Some(Effect::ReadClipboard)));
    match app.handle_key(Key::Char('P'), false) {
        Some(Effect::OpenPicard(d)) => assert_eq!(d, "/m/Videos"),
        other => panic!("unexpected {:?}", other),
    }
}

#[test]
fn picard_message_quotes_the_path_as_a_path() {
    let mut app = fresh(true);
    app.picard_result("/m/it's", Ok(()));
    assert_eq!(app.status_message, format!("Opened MusicBrainz Picard at: {:?}", std::path::Path::new("/m/it's")));
}
