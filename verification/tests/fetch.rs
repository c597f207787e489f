use shard::json::{JsonNumber, JsonValue};
use shard::json::parse_json;
use shard::ytdlp::fetch::{extract_video_id_from_url, media_info_from_output, output_lines, select_media_info};
use shard::ytdlp::models::MediaInfo;

fn to_json(v: &serde_json::Value) -> JsonValue {
    match v {
        serde_json::Value::Null => JsonValue::Null,
        serde_json::Value::Bool(b) => JsonValue::Bool(*b),
        serde_json::Value::Number(n) => {
            if let Some(u) = n.as_u64() {
                JsonValue::Number(JsonNumber::PosInt(u))
            } else if let Some(i) = n.as_i64() {
                JsonValue::Number(JsonNumber::NegInt(i))
            } else {
                JsonValue::Number(JsonNumber::Float(n.as_f64().unwrap_or(0.0).to_bits()))
            }
        }
        serde_json::Value::String(s) => JsonValue::Str(s.clone()),
        serde_json::Value::Array(a) => JsonValue::Array(a.iter().map(to_json).collect()),
        serde_json::Value::Object(m) => JsonValue::Object {
            keys: m.keys().cloned().collect(),
            values: m.values().map(to_json).collect(),
        },
    }
}

fn parse(text: &str) -> Option<JsonValue> {
    serde_json::from_str::<serde_json::Value>(text).ok().map(|v| to_json(&v))
}

#[test]
fn test_extract_video_id() {
    assert_eq!(
        extract_video_id_from_url("https://music.youtube.com/watch?v=0ctonkWiAqY&list=OLAK5uy_..."),
        Some("0ctonkWiAqY".to_string())
    );
    assert_eq!(
        extract_video_id_from_url("https://www.youtube.com/watch?v=dQw4w9WgXcQ"),
        Some("dQw4w9WgXcQ".to_string())
    );
    assert_eq!(extract_video_id_from_url("https://youtu.be/xxx"), None);
}

#[test]
fn test_parse_multi_line_json() {
    let sample_ndjson = r#"{"id": "track1", "title": "Track One", "uploader": "Artist A"}
{"id": "track2", "title": "Track Two", "uploader": "Artist A"}
{"id": "track3", "title": "Track Three", "uploader": "Artist A"}"#;

    let mut entries = Vec::new();
    for line in sample_ndjson.lines() {
        if let Some(val) = parse(line.trim()) {
            let info = MediaInfo::from_value(&val);
            if !info.id.is_empty() {
                entries.push(info);
            }
        }
    }
    assert_eq!(entries.len(), 3);
    assert_eq!(entries[0].title, "Track One");
    assert_eq!(entries[1].title, "Track Two");
    assert_eq!(entries[2].title, "Track Three");
}

#[test]
fn video_id_ends_at_next_parameter() {
    assert_eq!(
        extract_video_id_from_url("https://www.youtube.com/watch?v=abc&t=10"),
        Some("abc".to_string())
    );
    assert_eq!(extract_video_id_from_url("https://example.com/"), None);
}

#[test]
fn output_lines_drop_blank_lines_and_trim() {
    let lines = output_lines("  {\"a\":1}  \n\n   \n{\"b\":2}\r\n");
    assert_eq!(lines, vec!["{\"a\":1}".to_string(), "{\"b\":2}".to_string()]);
}

#[test]
fn select_single_object_document() {
    let whole = parse(r#"{"id": "x1", "title": "Solo"}"#);
    let lines: Vec<Option<JsonValue>> = Vec::new();
    let info = select_media_info(whole.as_ref(), &lines, "https://www.youtube.com/watch?v=x1").unwrap();
    assert_eq!(info.id, "x1");
    assert_eq!(info.title, "Solo");
}

#[test]
fn select_playlist_picks_entry_of_url() {
    let text = "{\"id\": \"t1\", \"title\": \"One\"}\n{\"id\": \"t2\", \"title\": \"Two\"}";
    let lines: Vec<Option<JsonValue>> = output_lines(text).iter().map(|l| parse(l)).collect();
    let info = select_media_info(None, &lines, "https://music.youtube.com/watch?v=t2&list=PL").unwrap();
    assert_eq!(info.id, "t2");
    assert_eq!(info.playlist_tracks, vec!["One".to_string(), "Two".to_string()]);
    assert_eq!(info.playlist_count, Some(2));
}

#[test]
fn select_nothing_usable_gives_none() {
    let lines: Vec<Option<JsonValue>> = vec![None, parse("{\"uploader\": \"no id, no title\"}")];
    assert!(select_media_info(None, &lines, "https://youtu.be/x").is_none());
}

#[test]
fn entry_with_title_but_no_id_is_usable() {
    let lines: Vec<Option<JsonValue>> = vec![parse("{\"title\": \"Named\"}")];
    assert_eq!(select_media_info(None, &lines, "https://youtu.be/x").unwrap().title, "Named");
}

#[test]
fn library_parses_output_text() {
    assert!(parse_json("not json").is_none());
    assert!(matches!(parse_json("{\"a\": -3}"), Some(JsonValue::Object { .. })));
    let out = "{\"id\": \"t1\", \"title\": \"One\"}\n{\"id\": \"t2\", \"title\": \"Two\"}\n";
    let info = media_info_from_output(out, "https://music.youtube.com/watch?v=t2").unwrap();
    assert_eq!(info.id, "t2");
    assert_eq!(info.playlist_count, Some(2));
    let single = media_info_from_output("{\"id\": \"x\", \"title\": \"X\"}", "https://youtu.be/x").unwrap();
    assert_eq!(single.title, "X");
    assert!(media_info_from_output("garbage", "u").is_none());
}
