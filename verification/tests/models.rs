use shard::json::{JsonNumber, JsonValue};
use shard::ytdlp::models::{format_duration, FormatInfo, MediaInfo, ThumbnailInfo};

fn to_json(v: &serde_json::Value) -> JsonValue {
    match v {
        serde_json::Value::Null => JsonValue::Null,
        serde_json::Value::Bool(b) => JsonValue::Bool(*b),
        serde_json::Value::Number(n) => {
            if let Some(u) = n.as_u64() {
                JsonValue::Number(JsonNumber::PosInt(u))
            } else if let Some(i) = n.as_i64() {
                JsonValue::Number(JsonNumber::NegInt(i))
            } else {
                JsonValue::Number(JsonNumber::Float(n.as_f64().unwrap_or(0.0).to_bits()))
            }
        }
        serde_json::Value::String(s) => JsonValue::Str(s.clone()),
        serde_json::Value::Array(a) => JsonValue::Array(a.iter().map(to_json).collect()),
        serde_json::Value::Object(m) => JsonValue::Object {
            keys: m.keys().cloned().collect(),
            values: m.values().map(to_json).collect(),
        },
    }
}

fn media(text: &str) -> MediaInfo {
    let v: serde_json::Value = serde_json::from_str(text).expect("Valid JSON");
    MediaInfo::from_value(&to_json(&v))
}

#[test]
fn test_resilient_from_value() {
    let json_str = r#"{
        "id": "dQw4w9WgXcQ",
        "title": "Never Gonna Give You Up",
        "uploader": "Rick Astley",
        "duration": 213,
        "thumbnails": [
            {"id": "0", "url": "https://i.ytimg.com/test1.jpg", "width": 640, "height": 360},
            {"id": "1", "url": "https://i.ytimg.com/test2.jpg", "width": 1920, "height": 1080}
        ],
        "formats": [
            {"format_id": "18", "ext": "mp4", "width": 640, "height": 360, "vcodec": "avc1.42001E"}
        ]
    }"#;
    let info = media(json_str);
    assert_eq!(info.id, "dQw4w9WgXcQ");
    assert_eq!(info.title, "Never Gonna Give You Up");
    assert_eq!(info.uploader_name(), "Rick Astley");
    assert!(!info.formats.is_empty());
    assert_eq!(info.get_thumbnail_url(), Some("https://i.ytimg.com/test2.jpg".to_string()));
}

#[test]
fn wrong_types_fall_back_to_defaults() {
    let info = media(r#"{"id": 42, "title": null, "uploader": 7, "thumbnails": "x", "formats": [1, {"format_id": "22"}]}"#);
    assert_eq!(info.title, "Untitled");
    assert_eq!(info.uploader_name(), "Unknown");
    assert!(info.thumbnails.is_empty());
}

#[test]
fn duration_as_minutes_and_hours() {
    assert_eq!(format_duration(213), "03:33");
    assert_eq!(format_duration(3725), "01:02:05");
    assert_eq!(media(r#"{"id": "a", "duration": 61}"#).duration_formatted(), Some("01:01".to_string()));
    assert_eq!(media(r#"{"id": "a"}"#).duration_formatted(), Some("00:00".to_string()));
    assert_eq!(media(r#"{"id": "a", "duration": 61.5}"#).duration_formatted(), None);
}

#[test]
fn channel_preferred_over_uploader() {
    let info = media(r#"{"id": "a", "channel": "Chan", "uploader": "Up"}"#);
    assert_eq!(info.uploader_name(), "Chan");
}

#[test]
fn candidates_start_with_largest_and_do_not_repeat() {
    let info = media(r#"{"id": "a", "thumbnail": "https://t/s.jpg", "thumbnails": [
        {"url": "https://t/s.jpg", "width": 10, "height": 10},
        {"url": "https://t/b.webp", "width": 100, "height": 100},
        {"url": "https://t/b.webp", "width": 100, "height": 100},
        {"url": ""}
    ]}"#);
    let c = info.get_thumbnail_candidates();
    assert_eq!(c[0], "https://t/b.webp");
    assert_eq!(c.len(), 2);
    let u = info.get_unique_thumbnails();
    assert_eq!(u.len(), 2);
    assert_eq!(u[0].url, "https://t/b.webp");
    assert_eq!(u[1].url, "https://t/s.jpg");
}

#[test]
fn single_thumbnail_field_is_offered() {
    let info = media(r#"{"id": "a", "thumbnail": "https://t/only.png"}"#);
    let u = info.get_unique_thumbnails();
    assert_eq!(u.len(), 1);
    assert_eq!(u[0].id, "default");
    assert_eq!(u[0].ext_str(), "png");
    assert_eq!(info.get_thumbnail_url(), Some("https://t/only.png".to_string()));
}

#[test]
fn thumbnail_texts() {
    let t = ThumbnailInfo { id: "x".into(), url: "https://a/b.webp".into(), width: Some(1280), height: Some(720) };
    assert_eq!(t.resolution_str(), "1280x720");
    assert_eq!(t.ext_str(), "webp");
    let t2 = ThumbnailInfo { id: "".into(), url: "https://a/b".into(), width: None, height: Some(720) };
    assert_eq!(t2.resolution_str(), "auto");
    assert_eq!(t2.ext_str(), "jpg");
}

#[test]
fn format_kinds_and_resolution() {
    let v: serde_json::Value = serde_json::from_str(
        r#"{"format_id": "137", "ext": "mp4", "width": 1920, "height": 1080, "vcodec": "avc1", "acodec": "none"}"#,
    ).unwrap();
    let f = FormatInfo::from_value(&to_json(&v)).unwrap();
    assert!(f.is_video_only());
    assert!(!f.is_audio_only());
    assert!(!f.is_muxed());
    assert_eq!(f.resolution_str(), "1920x1080");
    let a: serde_json::Value = serde_json::from_str(r#"{"format_id": "140", "acodec": "mp4a", "vcodec": "none"}"#).unwrap();
    let fa = FormatInfo::from_value(&to_json(&a)).unwrap();
    assert!(fa.is_audio_only());
    assert_eq!(fa.resolution_str(), "audio only");
}
