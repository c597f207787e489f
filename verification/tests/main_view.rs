use shard::ui::main_view::{str_display_width, truncate_to_display_width, track_list_layout, gauge_percent, progress_title, spinner_char, download_choice_text, url_bar_text};

#[test]
fn test_display_width() {
    assert_eq!(str_display_width("Milk Bar P.M.11:00"), 18);
    assert_eq!(str_display_width("さよなら"), 8);
    assert_eq!(str_display_width("午前3時の太陽"), 13);
}

#[test]
fn test_truncation() {
    assert_eq!(truncate_to_display_width("Milk Bar P.M.11:00", 10), "Milk Bar P");
    assert_eq!(truncate_to_display_width("さよならアンディ", 8), "さよなら");
}

#[test]
fn truncation_stops_before_a_wide_char_that_does_not_fit() {
    assert_eq!(truncate_to_display_width("aさ", 2), "a");
    assert_eq!(truncate_to_display_width("abc", 0), "");
}

fn tracks(n: usize) -> Vec<String> {
    (1..=n).map(|i| format!("Track {}", i)).collect()
}

#[test]
fn two_columns_for_wide_areas_and_many_tracks() {
    let t = tracks(7);
    let layout = track_list_layout(&t, 60, 20, 8);
    // 4 rows: tracks 1..4 on the left, 5..7 on the right
    assert_eq!(layout.rows.len(), 4);
    assert_eq!(layout.rows[0].len(), 2);
    assert_eq!(layout.rows[0][0].number, "  1. ");
    assert_eq!(layout.rows[0][0].title, "Track 1");
    // column width (60 - 2) / 2 = 29, number takes 5, title 7
    assert_eq!(layout.rows[0][0].pad, 17);
    assert_eq!(layout.rows[0][1].number, "  5. ");
    assert_eq!(layout.rows[0][1].pad, 0);
    assert_eq!(layout.rows[3].len(), 1);
    assert_eq!(layout.more, 0);
}

#[test]
fn one_column_shows_what_fits_and_counts_the_rest() {
    let t = tracks(10);
    let layout = track_list_layout(&t, 40, 8, 6);
    // at least six lines are offered
    assert_eq!(layout.rows.len(), 6);
    assert_eq!(layout.rows[0][0].number, "    1. ");
    assert_eq!(layout.more, 4);
}

#[test]
fn long_titles_are_cut_with_dots() {
    let t = vec!["A very long title that does not fit".to_string()];
    let layout = track_list_layout(&t, 20, 10, 0);
    // max title width: 20 - (7 + 2) = 11, cut to 9 columns and two dots
    assert_eq!(layout.rows[0][0].title, "A very lo..");
}

#[test]
fn two_column_rows_limited_by_height() {
    let t = tracks(30);
    let layout = track_list_layout(&t, 80, 10, 2);
    assert_eq!(layout.rows.len(), 8);
    assert_eq!(layout.more, 14);
}

#[test]
fn gauge_takes_whole_percent_capped_at_100() {
    assert_eq!(gauge_percent("75.4"), 75);
    assert_eq!(gauge_percent("100"), 100);
    assert_eq!(gauge_percent("250.0"), 100);
    assert_eq!(gauge_percent("0"), 0);
}

#[test]
fn progress_titles() {
    assert_eq!(progress_title(true, 42, "1MiB/s", "00:10"), " Downloading: 42% (Speed: 1MiB/s, ETA: 00:10) ");
    assert_eq!(progress_title(false, 100, "", ""), " Completed! ");
    assert_eq!(progress_title(false, 3, "", ""), " Ready (Waiting for download trigger) ");
}

#[test]
fn spinner_cycles_through_ten_frames() {
    assert_eq!(spinner_char(0), "⠋");
    assert_eq!(spinner_char(10), "⠋");
    assert_eq!(spinner_char(13), "⠸");
}

#[test]
fn download_choice_and_url_bar() {
    assert_eq!(download_choice_text(&None, &None), "Automatic Best Quality (Press Enter to start)");
    assert_eq!(download_choice_text(&Some("137".into()), &None), "Custom [Video: 137, Audio: None]");
    assert_eq!(url_bar_text("", true), " https://www.youtube.com/watch?v=... (Press 'v' to paste)");
    assert_eq!(url_bar_text("u", true), " u█");
    assert_eq!(url_bar_text("u", false), " u");
}

#[test]
fn every_track_is_shown_or_counted() {
    for n in [0usize, 3, 6, 7, 30] {
        for (w, h) in [(80usize, 10usize), (40, 10), (60, 30)] {
            let t = tracks(n);
            let layout = track_list_layout(&t, w, h, 2);
            let cells: usize = layout.rows.iter().map(|r| r.len()).sum();
            assert_eq!(cells + layout.more, n);
        }
    }
}
