use gif_engine::error::AppError;
use gif_engine::ffmpeg::FfmpegConverter;
use gif_engine::options::ConversionOptions;
use gif_engine::progress::ProgressStatus;
use gif_engine::supervise::{Conversion, Notification, Phase};

#[test]
fn output_path_is_derived_from_the_input_stem() {
    assert_eq!(FfmpegConverter::output_path_for("/videos/clip.mp4", "/out"), "/out/clip.gif");
    assert_eq!(FfmpegConverter::output_path_for("/videos/clip.mp4", "/out/"), "/out/clip.gif");
    assert_eq!(FfmpegConverter::output_path_for("clip.mp4", "out"), "out/clip.gif");
    assert_eq!(FfmpegConverter::output_path_for("a/b/archive.tar.gz", "o"), "o/archive.tar.gif");
    assert_eq!(FfmpegConverter::output_path_for(".hidden", "o"), "o/.hidden.gif");
    assert_eq!(FfmpegConverter::output_path_for("dir/", "o"), "o/output.gif");
    assert_eq!(FfmpegConverter::output_path_for("noext", "o"), "o/noext.gif");
    assert_eq!(FfmpegConverter::output_path_for("clip.mp4", ""), "clip.gif");
}

#[test]
fn missing_input_fails_with_invalid_input_before_any_spawn() {
    let mut c = Conversion::new("/nowhere/x.mp4", "/out", ConversionOptions::default());
    assert_eq!(c.phase, Phase::Preparing);
    let r = c.check_input(false);
    match r {
        Err(AppError::InvalidInput(m)) => assert_eq!(m, "Input file not found: /nowhere/x.mp4"),
        other => panic!("expected InvalidInput, got {:?}", other),
    }
    // The conversion is terminally failed: no later step (probe, spawn,
    // stream) is permitted by the machine from this phase.
    assert_eq!(c.phase, Phase::Failed);
}

#[test]
fn spawn_failure_is_conversion_failed() {
    let mut c = Conversion::new("/v/x.mp4", "/out", ConversionOptions::default());
    c.check_input(true).unwrap();
    c.set_duration(Some(1200));
    let e = c.on_spawn(false);
    assert!(matches!(e, Some(AppError::ConversionFailed(_))));
    assert_eq!(c.phase, Phase::Failed);
}

#[test]
fn nonzero_exit_emits_error_before_the_failure_returns() {
    let mut c = Conversion::new("/v/x.mp4", "/out", ConversionOptions::default());
    c.check_input(true).unwrap();
    c.set_duration(Some(1200));
    assert!(c.on_spawn(true).is_none());
    let (notes, result) = c.on_exit(false);
    assert_eq!(notes.len(), 1);
    assert!(matches!(&notes[0], Notification::ErrorNote(m) if m == "FFmpeg exited with error"));
    match result {
        Err(AppError::ConversionFailed(m)) => {
            assert_eq!(m, "FFmpeg exited with non-zero status")
        },
        other => panic!("expected ConversionFailed, got {:?}", other),
    }
    assert_eq!(c.phase, Phase::Failed);
}

#[test]
fn successful_conversion_end_to_end() {
    // Probe says 12.0 s; the encoder reports 3.0 s and 11.0 s, then exits
    // cleanly: 25.00 %, 91.67 % (capped below 100), then exactly 100.00 %.
    let mut c = Conversion::new("/videos/demo.mp4", "/out", ConversionOptions::default());
    assert!(c.check_input(true).is_ok());
    c.set_duration(Some(1200));
    assert_eq!(c.total_cs, 1200);

    let start = c.starting_event();
    assert_eq!(start.percentage_hundredths, 0);
    assert_eq!(start.status, ProgressStatus::Starting);

    let args = c.spawn_args();
    assert_eq!(args.len(), 8);
    assert_eq!(args[0], "-i");
    assert_eq!(args[1], "/videos/demo.mp4");
    assert_eq!(args[2], "-filter_complex");
    assert!(args[3].contains("palettegen"));
    assert_eq!(args[4], "-y");
    assert_eq!(args[5], "-progress");
    assert_eq!(args[6], "pipe:2");
    assert_eq!(args[7], "/out/demo.gif");
    assert!(c.on_spawn(true).is_none());

    let p1 = c.on_line("frame=10 time=00:00:03.00 bitrate=1k").unwrap();
    assert_eq!(p1.percentage_hundredths, 2500);
    assert_eq!(p1.status, ProgressStatus::Converting);
    assert_eq!(p1.message, "Processing... 3.0s / 12.0s");

    assert!(c.on_line("no marker on this line").is_none());

    let p2 = c.on_line("frame=99 time=00:00:11.00 bitrate=1k").unwrap();
    assert_eq!(p2.percentage_hundredths, 9167);
    assert!(p2.percentage_hundredths >= p1.percentage_hundredths);

    let (notes, result) = c.on_exit(true);
    assert_eq!(result.unwrap(), "/out/demo.gif");
    assert_eq!(notes.len(), 2);
    assert!(matches!(
        &notes[0],
        Notification::Progress(p)
            if p.percentage_hundredths == 10000 && p.status == ProgressStatus::Done
    ));
    assert!(matches!(&notes[1], Notification::Complete(p) if p == "/out/demo.gif"));
    assert_eq!(c.phase, Phase::Succeeded);
}

#[test]
fn failed_probe_falls_back_to_ten_seconds() {
    // A probe without a Duration line must not abort the conversion: the
    // fallback denominator of 10.0 s takes its place and later percentages
    // are computed against it, clamped at 99 %.
    let mut c = Conversion::new("/v/x.mp4", "/out", ConversionOptions::default());
    c.check_input(true).unwrap();
    c.set_duration(None);
    assert_eq!(c.total_cs, 1000);
    assert!(c.on_spawn(true).is_none());
    let p = c.on_line("time=00:00:05.00 x=y").unwrap();
    assert_eq!(p.percentage_hundredths, 5000);
    let p = c.on_line("time=00:00:11.00 x=y").unwrap();
    assert_eq!(p.percentage_hundredths, 9900);
    let (_, result) = c.on_exit(true);
    assert!(result.is_ok());
}

#[test]
fn zero_probed_duration_counts_as_a_failed_probe() {
    let mut c = Conversion::new("/v/x.mp4", "/out", ConversionOptions::default());
    c.check_input(true).unwrap();
    c.set_duration(Some(0));
    assert_eq!(c.total_cs, 1000);
}

#[test]
fn percentages_within_one_conversion_never_decrease() {
    let mut c = Conversion::new("/v/x.mp4", "/out", ConversionOptions::default());
    c.check_input(true).unwrap();
    c.set_duration(Some(1200));
    assert!(c.on_spawn(true).is_none());
    let lines = vec![
        "time=00:00:00.00 a=b",
        "time=00:00:01.50 a=b",
        "time=00:00:06.00 a=b",
        "time=00:00:11.99 a=b",
        "time=00:00:13.00 a=b",
    ];
    let mut last = 0;
    for line in lines {
        let p = c.on_line(line).unwrap();
        assert!(p.percentage_hundredths >= last);
        assert!(p.percentage_hundredths <= 9900);
        last = p.percentage_hundredths;
    }
    let (notes, _) = c.on_exit(true);
    assert!(matches!(&notes[0], Notification::Progress(p) if p.percentage_hundredths == 10000));
}
