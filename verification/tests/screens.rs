use shard::browser::{create_dir_failure_message, DirBrowserState, DirEntryItem, RawDirEntry};
use shard::config::{
    default_audio_format, default_audio_quality, default_false, default_max_resolution, default_mode, default_true,
    AppConfig, Bookmark,
};
use shard::external::clipboard::{is_valid_url, url_from_clipboard_text};
use shard::preview::{image_file_path, image_from_bytes, protocol_name, ImageProtocol};
use shard::ui::dir_browser_modal::{entry_label, list_title, prompt_input_text, root_label};
use shard::ui::format_modal::{codec_text, is_picked_exec, selected_streams_text, selection_marker};
use shard::ui::image_modal::{ext_label, image_number, image_tag, media_title_display, thumb_id_text};
use shard::ytdlp::models::ThumbnailInfo;

#[test]
fn url_check_ignores_case() {
    assert!(is_valid_url("HTTPS://example.com"));
    assert!(is_valid_url("http://x"));
    assert!(!is_valid_url("ftp://x"));
    assert_eq!(url_from_clipboard_text("  https://a.b/c \n"), Some("https://a.b/c".to_string()));
    assert_eq!(url_from_clipboard_text("hello"), None);
}

#[test]
fn config_defaults() {
    assert_eq!(default_mode(), "video");
    assert_eq!(default_max_resolution(), "unlimited");
    assert!(default_true());
    assert!(!default_false());
    assert_eq!(default_audio_format(), "mp3");
    assert_eq!(default_audio_quality(), "0");
    let a = shard::config::AudioSettingsConfig::default();
    assert!(!a.embed_thumbnail);
    assert!(a.add_metadata);
    let c = AppConfig::from_dirs(Some("/h".into()), None, Some("/v".into()), None);
    assert_eq!(c.bookmarks.len(), 3);
    assert_eq!(c.bookmarks[0].path, "/h/Music");
    assert_eq!(c.bookmarks[1].path, "/v");
    assert_eq!(c.bookmarks[2].path, "/h/Downloads");
    assert_eq!(AppConfig::config_path_from(None, None), "./.config/shard/config.toml");
    assert_eq!(AppConfig::config_path_from(Some("/cfg".into()), None), "/cfg/config.toml");
    assert_eq!(AppConfig::cache_dir_from(None, Some("/h".into())), "/h/.cache/shard");
}

#[test]
fn bookmark_for_mode_falls_back_to_first() {
    let c = AppConfig::from_dirs(Some("/h".into()), None, None, None);
    assert_eq!(c.default_bookmark_for_mode("video").unwrap().name, "Videos");
    assert_eq!(c.default_bookmark_for_mode("podcast").unwrap().name, "Music");
    let empty = AppConfig { bookmarks: Vec::<Bookmark>::new(), ..c };
    assert!(empty.default_bookmark_for_mode("video").is_none());
}

fn raw(name: &str, is_dir: bool) -> RawDirEntry {
    RawDirEntry { name: name.into(), is_dir }
}

#[test]
fn browser_lists_visible_directories_sorted() {
    let mut b = DirBrowserState::new("/r".into(), true, None);
    b.reload_entries(Some(vec![
        raw("Zeta", true),
        raw(".hidden", true),
        raw("file.txt", false),
        raw("alpha", true),
    ]));
    let names: Vec<&str> = b.entries.iter().map(|e| e.name.as_str()).collect();
    assert_eq!(names, vec!["alpha", "Zeta"]);
    assert!(b.error_message.is_none());
    b.selected_index = 5;
    b.reload_entries(None);
    assert!(b.entries.is_empty());
    assert_eq!(b.error_message.as_deref(), Some("Directory not accessible: \"/r\""));
}

#[test]
fn browser_starts_in_download_dir_when_root_missing() {
    let b = DirBrowserState::new("/gone".into(), false, Some("/dl".into()));
    assert_eq!(b.root_path, "/gone");
    assert_eq!(b.current_path, "/dl");
    let c = DirBrowserState::new("/gone".into(), false, None);
    assert_eq!(c.current_path, ".");
}

#[test]
fn browser_enter_and_parent() {
    let mut b = DirBrowserState::new("/r".into(), true, None);
    b.set_root("/r".into(), Some(vec![raw("a", true)]));
    assert!(b.enter_selected(Some(vec![])));
    assert_eq!(b.current_path, "/r/a");
    assert_eq!(b.entries[0].name, ".. (Parent Directory)");
    assert!(b.go_parent(Some(vec![raw("a", true)])));
    assert_eq!(b.current_path, "/r");
    assert!(!b.go_parent(None));
    b.start_create_dir();
    b.new_dir_input = "  x ".into();
    assert_eq!(b.new_dir_target(), Ok("/r/x".to_string()));
    b.finish_create_dir("/r/x".into(), Some(vec![]));
    assert_eq!(b.current_path, "/r/x");
    assert!(!b.is_creating_dir);
    b.start_create_dir();
    b.cancel_create_dir();
    assert!(!b.is_creating_dir);
    assert_eq!(create_dir_failure_message("/q"), "Failed to create directory at: \"/q\"");
}

#[test]
fn image_path_is_safe() {
    assert_eq!(image_file_path("https://a/b.webp", "/d", "a/b:c"), "/d/a_b_c.webp");
    assert_eq!(image_file_path("https://a/b.png?x", "/d/", "  cover "), "/d/cover.png");
    assert_eq!(image_file_path("https://a/b", "/d", "   "), "/d/thumbnail.jpg");
}

#[test]
fn image_list_texts() {
    assert_eq!(media_title_display("short"), "short");
    let long = "a".repeat(45);
    assert_eq!(media_title_display(&long), format!("{}...", "a".repeat(37)));
    let sq = ThumbnailInfo { id: "".into(), url: "https://x/y.png".into(), width: Some(500), height: Some(500) };
    assert_eq!(image_tag(0, &sq), "★ Best (Auto)");
    assert_eq!(image_tag(1, &sq), "🔲 Square (Cover)");
    let wide = ThumbnailInfo { id: "hq".into(), url: "https://x/y.jpg".into(), width: Some(640), height: Some(480) };
    assert_eq!(image_tag(2, &wide), "");
    assert_eq!(image_number(0), "#1");
    assert_eq!(thumb_id_text(&sq), "auto");
    assert_eq!(thumb_id_text(&wide), "hq");
    assert_eq!(ext_label(&sq), "PNG");
    assert_eq!(ext_label(&wide), "JPG");
}

#[test]
fn format_list_texts() {
    assert_eq!(selection_marker(true, true), "★ [V+A]");
    assert_eq!(selection_marker(true, false), "🎬 [V]");
    assert_eq!(selection_marker(false, true), "🎵 [A]");
    assert_eq!(selection_marker(false, false), "");
    assert!(is_picked_exec(&Some("18".into()), "18"));
    assert!(!is_picked_exec(&None, "18"));
    assert_eq!(
        selected_streams_text(&Some("137".into()), &None),
        "Selected Video: [137]   Selected Audio: [Auto / Best]"
    );
    assert_eq!(codec_text(&None), "--");
}

#[test]
fn folder_browser_texts() {
    assert_eq!(root_label(0, "Music"), " [1] Music ");
    let up = DirEntryItem { name: "..".into(), path: "/".into(), is_parent: true };
    assert_eq!(entry_label(&up), "⤴️ ..");
    assert_eq!(list_title(true), " Subdirectories (Empty / Press 'n' to create one) ");
    assert_eq!(prompt_input_text("ab"), " ab█");
}

#[test]
fn reload_keeps_selection_on_a_row() {
    let mut b = DirBrowserState::new("/r".into(), true, None);
    b.selected_index = 7;
    b.reload_entries(Some(vec![raw("a", true), raw("b", true)]));
    assert_eq!(b.selected_index, 1);
}

#[test]
fn environment_paths_have_their_shape() {
    assert!(AppConfig::config_path().ends_with("config.toml"));
    assert!(!AppConfig::cache_dir().is_empty());
}

#[test]
fn default_configuration_matches_the_documented_file() {
    let c = AppConfig::default();
    assert_eq!(c.general.default_mode, "video");
    assert_eq!(c.general.max_resolution, "unlimited");
    assert!(!c.general.auto_paste_clipboard);
    assert!(c.general.notify_on_complete);
    assert_eq!(c.audio.format, "mp3");
    assert!(!c.audio.embed_thumbnail);
    let ids: Vec<(usize, &str, &str)> = c.bookmarks.iter().map(|b| (b.id, b.name.as_str(), b.category.as_str())).collect();
    assert_eq!(ids, vec![(1, "Music", "audio"), (2, "Videos", "video"), (3, "Downloads", "any")]);
}

#[test]
fn rows_are_named_children_of_the_folder() {
    let mut b = DirBrowserState::new("/r".into(), true, None);
    b.set_root("/r/".into(), Some(vec![raw("x", true)]));
    assert_eq!(b.entries.len(), 1);
    assert_eq!(b.entries[0].path, "/r/x");
    b.set_root("/r".into(), Some(vec![raw("y", true)]));
    assert_eq!(b.entries[0].path, "/r/y");
    assert!(!b.entries[0].is_parent);
}

#[test]
fn image_bytes_decode_or_say_why() {
    assert_eq!(image_from_bytes(b"not an image").err(), Some("Failed to decode image from bytes".to_string()));
    let png: [u8; 67] = [
        0x89, 0x50, 0x4e, 0x47, 0x0d, 0x0a, 0x1a, 0x0a, 0x00, 0x00, 0x00, 0x0d, 0x49, 0x48, 0x44, 0x52, 0x00, 0x00,
        0x00, 0x01, 0x00, 0x00, 0x00, 0x01, 0x08, 0x06, 0x00, 0x00, 0x00, 0x1f, 0x15, 0xc4, 0x89, 0x00, 0x00, 0x00,
        0x0a, 0x49, 0x44, 0x41, 0x54, 0x78, 0x9c, 0x63, 0x00, 0x01, 0x00, 0x00, 0x05, 0x00, 0x01, 0x0d, 0x0a, 0x2d,
        0xb4, 0x00, 0x00, 0x00, 0x00, 0x49, 0x45, 0x4e, 0x44, 0xae, 0x42, 0x60, 0x82,
    ];
    assert!(image_from_bytes(&png).is_ok());
    assert_eq!(protocol_name(ImageProtocol::Kitty), "Kitty Protocol (Native GPU)");
}
