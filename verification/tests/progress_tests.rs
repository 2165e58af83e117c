//! Behavior of the progress-line parser and the per-line event step.

use yaydl::{parse_progress_line, progress_event, DownloadEvent, Settings, YaydlError};

#[test]
fn plain_progress_line_yields_truncated_percent() {
    assert_eq!(parse_progress_line("[download]  45.0% of 10MiB"), Some(45));
}

#[test]
fn bogus_token_yields_no_event() {
    assert_eq!(parse_progress_line("[download]  bogus"), None);
}

#[test]
fn line_without_marker_is_ignored() {
    assert_eq!(parse_progress_line("45.0% of 10MiB"), None);
    assert_eq!(parse_progress_line("[info] 45.0%"), None);
    assert_eq!(parse_progress_line(""), None);
}

#[test]
fn fraction_is_truncated_not_rounded() {
    assert_eq!(parse_progress_line("[download] 45.9%"), Some(45));
    assert_eq!(parse_progress_line("[download] 0.5%"), Some(0));
    assert_eq!(parse_progress_line("[download] 99.99%"), Some(99));
}

#[test]
fn whole_numbers_and_bounds() {
    assert_eq!(parse_progress_line("[download] 0%"), Some(0));
    assert_eq!(parse_progress_line("[download] 100%"), Some(100));
    assert_eq!(parse_progress_line("[download] 100.0% of 10MiB"), Some(100));
    assert_eq!(parse_progress_line("[download]7%"), Some(7));
    assert_eq!(parse_progress_line("[download] \t 12.3% rest"), Some(12));
}

#[test]
fn out_of_range_or_malformed_percent_is_dropped() {
    assert_eq!(parse_progress_line("[download] 101%"), None);
    assert_eq!(parse_progress_line("[download] 1000000.0%"), None);
    assert_eq!(parse_progress_line("[download] .5%"), None);
    assert_eq!(parse_progress_line("[download] %"), None);
    assert_eq!(parse_progress_line("[download] 45.0"), None);
    assert_eq!(parse_progress_line("[download] 45.0x%y"), None);
    assert_eq!(parse_progress_line("[download] 4a5%"), None);
    assert_eq!(parse_progress_line("[download]"), None);
    assert_eq!(parse_progress_line("[download]   "), None);
}

#[test]
fn progress_event_carries_the_job_id() {
    let r = progress_event("vid123", b"[download]  45.0% of 10MiB".to_vec());
    assert_eq!(
        r.unwrap(),
        Some(DownloadEvent {
            id: "vid123".to_string(),
            progress: 45,
        })
    );
}

#[test]
fn progress_event_skips_unrecognized_lines() {
    let r = progress_event("vid123", b"[download]  bogus".to_vec());
    assert_eq!(r.unwrap(), None);
    let r = progress_event("vid123", b"[ffmpeg] merging".to_vec());
    assert_eq!(r.unwrap(), None);
}

#[test]
fn progress_event_reports_bad_utf8() {
    let r = progress_event("vid123", vec![0x5b, 0xff, 0xfe]);
    assert!(matches!(r, Err(YaydlError::Utf8Conversion)));
}

#[test]
fn extraction_args_build_the_output_template() {
    let settings = Settings {
        output_dir: "/home/me/Music".to_string(),
        output_format: "mp3".to_string(),
        dark_theme: true,
    };
    let args = yaydl::extraction_args(&settings, "https://www.youtube.com/watch?v=X");
    assert_eq!(
        args,
        vec![
            "--newline".to_string(),
            "-x".to_string(),
            "--audio-format".to_string(),
            "mp3".to_string(),
            "-o".to_string(),
            "/home/me/Music/%(title)s.%(ext)s".to_string(),
            "https://www.youtube.com/watch?v=X".to_string(),
        ]
    );
}
