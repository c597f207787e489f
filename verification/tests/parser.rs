use shard::ytdlp::parser::parse_progress_line;

#[test]
fn test_parse_template_pipe() {
    let line = " 75.4%| 8.4MiB/s|00:12|140.2MiB";
    let res = parse_progress_line(line).expect("Should parse pipe progress");
    assert!((res.percent.parse::<f64>().unwrap() - 75.4).abs() < f64::EPSILON);
    assert_eq!(res.speed, "8.4MiB/s");
    assert_eq!(res.eta, "00:12");
    assert_eq!(res.total_size, "140.2MiB");
}

#[test]
fn test_parse_standard_ytdlp_line() {
    let line = "[download]  35.0% of ~50.0MiB at 10.5MiB/s ETA 00:03";
    let res = parse_progress_line(line).expect("Should parse standard progress");
    assert!((res.percent.parse::<f64>().unwrap() - 35.0).abs() < f64::EPSILON);
    assert_eq!(res.speed, "10.5MiB/s");
    assert_eq!(res.eta, "00:03");
}

#[test]
fn unrelated_line_is_not_progress() {
    assert!(parse_progress_line("[youtube] Extracting URL").is_none());
}

#[test]
fn keeps_raw_status_trimmed() {
    let res = parse_progress_line("  50%|1MiB/s|00:01|2MiB  ").unwrap();
    assert_eq!(res.percent, "50");
    assert_eq!(res.raw_status, "50%|1MiB/s|00:01|2MiB");
}
