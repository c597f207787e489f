use shard::ytdlp::download::{
    build_ytdlp_args, command_message, exit_events, launch_failure_events, stderr_line_event, stdout_line_event,
    AudioFormat, DownloadEvent, DownloadMode, DownloadOptions, ExitOutcome, MaxResolution,
};

fn opts(mode: DownloadMode) -> DownloadOptions {
    DownloadOptions {
        url: "https://youtu.be/x".to_string(),
        dest_dir: "/tmp/dl".to_string(),
        mode,
        max_resolution: MaxResolution::Res1080p,
        audio_format: AudioFormat::Flac,
    }
}

#[test]
fn video_args_limit_height() {
    let a = build_ytdlp_args(&opts(DownloadMode::Video));
    assert_eq!(a[0], "-P");
    assert_eq!(a[1], "/tmp/dl");
    assert!(a.contains(&"bv*[height<=1080]+ba/b".to_string()));
    assert_eq!(a.last().unwrap(), "https://youtu.be/x");
}

#[test]
fn audio_args_extract_in_format() {
    let a = build_ytdlp_args(&opts(DownloadMode::Audio));
    assert!(a.contains(&"-x".to_string()));
    let i = a.iter().position(|s| s == "--audio-format").unwrap();
    assert_eq!(a[i + 1], "flac");
    assert!(a.contains(&"--embed-thumbnail".to_string()));
    assert!(a.contains(&"--add-metadata".to_string()));
    assert!(!a.contains(&"-f".to_string()));
}

#[test]
fn custom_args_join_streams() {
    let a = build_ytdlp_args(&opts(DownloadMode::CustomFormats { video_id: Some("137".into()), audio_id: Some("140".into()) }));
    assert!(a.contains(&"137+140".to_string()));
    let b = build_ytdlp_args(&opts(DownloadMode::CustomFormats { video_id: None, audio_id: None }));
    assert!(b.contains(&"best".to_string()));
}

#[test]
fn thumbnail_args_skip_download() {
    let a = build_ytdlp_args(&opts(DownloadMode::ThumbnailOnly));
    assert!(a.contains(&"--skip-download".to_string()));
}

#[test]
fn selectors_cycle() {
    let mut r = MaxResolution::Unlimited;
    for _ in 0..6 {
        r = r.next();
    }
    assert_eq!(r, MaxResolution::Unlimited);
    assert_eq!(MaxResolution::Res720p.height_limit(), Some(720));
    assert_eq!(MaxResolution::Unlimited.height_limit(), None);
    assert_eq!(MaxResolution::Res2160p.label(), "2160p (4K)");
    let mut f = AudioFormat::Mp3;
    for _ in 0..4 {
        f = f.next();
    }
    assert_eq!(f, AudioFormat::Mp3);
    assert_eq!(AudioFormat::M4a.as_str(), "m4a");
}

#[test]
fn stdout_lines_become_events() {
    match stdout_line_event(" 10.0%|1MiB/s|00:05|3MiB") {
        Some(DownloadEvent::Progress(p)) => assert_eq!(p.percent, "10.0"),
        other => panic!("unexpected {:?}", other),
    }
    match stdout_line_event("[download] Destination: x.mp4") {
        Some(DownloadEvent::StatusMessage(s)) => assert_eq!(s, "[download] Destination: x.mp4"),
        other => panic!("unexpected {:?}", other),
    }
    assert!(stdout_line_event("   ").is_none());
}

#[test]
fn stderr_lines_are_prefixed() {
    match stderr_line_event("ERROR: boom") {
        Some(DownloadEvent::StatusMessage(s)) => assert_eq!(s, "yt-dlp: ERROR: boom"),
        other => panic!("unexpected {:?}", other),
    }
    assert!(stderr_line_event("  ").is_none());
}

#[test]
fn end_of_process_events() {
    let ok = exit_events(&ExitOutcome::Success, "/d");
    assert_eq!(ok.len(), 1);
    match &ok[0] {
        DownloadEvent::Finished { success, output_path } => {
            assert!(*success);
            assert_eq!(output_path.as_deref(), Some("/d"));
        }
        other => panic!("unexpected {:?}", other),
    }
    let bad = exit_events(&ExitOutcome::Failed("exit status: 1".into()), "/d");
    assert_eq!(bad.len(), 2);
    let l = launch_failure_events("not found");
    assert!(matches!(l.last(), Some(DownloadEvent::Finished { success: false, .. })));
    assert!(command_message(&vec!["-P".to_string(), "x".to_string()]).contains("-P x"));
}
