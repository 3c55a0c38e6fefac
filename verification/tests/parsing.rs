use gif_engine::error::AppError;
use gif_engine::ffmpeg::FfmpegConverter;
use gif_engine::progress::{converting_message, percent_hundredths, secs_tenths};
use gif_engine::timecode::parse_clock_cs;

#[test]
fn parse_time_extracts_the_marker() {
    let line = "frame=   30 fps=0.0 q=-0.0 size=     256kB time=00:01:23.45 bitrate=2000.0kbits/s";
    assert_eq!(FfmpegConverter::parse_time(line), Some(8345));
}

#[test]
fn parse_time_without_marker_is_none() {
    assert_eq!(FfmpegConverter::parse_time("frame=   30 fps=0.0 q=-0.0"), None);
    assert_eq!(FfmpegConverter::parse_time(""), None);
}

#[test]
fn parse_time_ignores_unrelated_fields() {
    // The same token surrounded by different key=value noise parses the same.
    let variants = vec![
        "time=00:00:02.00 bitrate=1kbits/s",
        "frame=1 time=00:00:02.00 x=y",
        "a=b c=d time=00:00:02.00 e=f g=h speed=1.0x",
    ];
    for line in variants {
        assert_eq!(FfmpegConverter::parse_time(line), Some(200), "line: {}", line);
    }
}

#[test]
fn parse_time_needs_a_space_after_the_token() {
    // The token is extracted strictly up to the next space; a line that ends
    // inside the token carries no complete marker yet.
    assert_eq!(FfmpegConverter::parse_time("time=00:00:02.00"), None);
}

#[test]
fn parse_time_malformed_tokens_are_skipped() {
    assert_eq!(FfmpegConverter::parse_time("time=N/A bitrate=N/A"), None);
    assert_eq!(FfmpegConverter::parse_time("time=1:2 x=y"), None);
    assert_eq!(FfmpegConverter::parse_time("time=1:2:3:4 x=y"), None);
    assert_eq!(FfmpegConverter::parse_time("time=a:b:c x=y"), None);
}

#[test]
fn clock_tokens_parse_to_centiseconds() {
    assert_eq!(parse_clock_cs("00:01:23.45"), Some(8345));
    assert_eq!(parse_clock_cs("00:00:00"), Some(0));
    assert_eq!(parse_clock_cs("1:2:3"), Some(372300));
    assert_eq!(parse_clock_cs("00:99:10.5"), Some((99 * 60 + 10) * 100 + 50));
    assert_eq!(parse_clock_cs("10:00:00.999"), Some(10 * 3600 * 100 + 99));
}

#[test]
fn malformed_clock_tokens_are_rejected() {
    assert_eq!(parse_clock_cs(""), None);
    assert_eq!(parse_clock_cs("1:2"), None);
    assert_eq!(parse_clock_cs("1:2:3:4"), None);
    assert_eq!(parse_clock_cs("a:b:c"), None);
    assert_eq!(parse_clock_cs("1:2:3.4.5"), None);
    assert_eq!(parse_clock_cs("1:2:.5"), None);
    assert_eq!(parse_clock_cs("1234567890:0:0"), None);
}

#[test]
fn duration_is_read_from_probe_output() {
    let stderr = "Input #0, mov,mp4, from 'in.mp4':\n  Duration: 00:00:12.00, start: 0.000000, bitrate: 2000 kb/s\n  Stream #0:0: Video: h264\n";
    assert_eq!(FfmpegConverter::parse_duration_output(stderr).unwrap(), 1200);
}

#[test]
fn duration_line_without_comma_still_parses() {
    let stderr = "  Duration: 00:01:00.00\nnext line";
    assert_eq!(FfmpegConverter::parse_duration_output(stderr).unwrap(), 6000);
}

#[test]
fn missing_duration_is_conversion_failed() {
    let r = FfmpegConverter::parse_duration_output("no duration here\n");
    assert!(matches!(r, Err(AppError::ConversionFailed(_))));
    let r = FfmpegConverter::parse_duration_output("  Duration: N/A, start: 0\n");
    assert!(matches!(r, Err(AppError::ConversionFailed(_))));
}

#[test]
fn percentages_round_to_hundredths() {
    assert_eq!(percent_hundredths(300, 1200), 2500);
    assert_eq!(percent_hundredths(1100, 1200), 9167);
    assert_eq!(percent_hundredths(0, 1200), 0);
}

#[test]
fn percentages_are_capped_below_completion() {
    assert_eq!(percent_hundredths(1200, 1200), 9900);
    assert_eq!(percent_hundredths(5000, 1200), 9900);
    assert_eq!(percent_hundredths(1100, 1000), 9900);
}

#[test]
fn percentages_never_decrease_for_growing_elapsed_time() {
    let mut last = 0;
    for elapsed in [0u64, 1, 2, 150, 300, 600, 1100, 1199, 1200, 4000] {
        let p = percent_hundredths(elapsed, 1200);
        assert!(p >= last);
        assert!(p <= 9900);
        last = p;
    }
}

#[test]
fn seconds_render_with_one_decimal_place() {
    assert_eq!(secs_tenths(8345), "83.4");
    assert_eq!(secs_tenths(0), "0.0");
    assert_eq!(secs_tenths(1200), "12.0");
    assert_eq!(secs_tenths(305), "3.0");
}

#[test]
fn converting_message_names_elapsed_and_total() {
    assert_eq!(converting_message(300, 1200), "Processing... 3.0s / 12.0s");
}

#[test]
fn error_messages_name_the_variant() {
    let e = AppError::FfmpegNotFound("nowhere".to_string());
    assert_eq!(e.to_message(), "FFmpeg not found: nowhere");
    assert_eq!(e.detail(), "nowhere");
    let e = AppError::ConversionFailed("boom".to_string());
    assert_eq!(e.to_message(), "Conversion failed: boom");
    let e = AppError::InvalidInput("bad".to_string());
    assert_eq!(e.to_message(), "Invalid input: bad");
    let e = AppError::IoError("disk".to_string());
    assert_eq!(e.to_message(), "I/O error: disk");
}
