use clipforge::engine::{
    candidate_paths, classify_failure, parse_ffmpeg_error, probe_paths, select_existing,
};
use clipforge::error::{
    ClipField, EngineFailure, ExportError, FieldProblem, TrackKind, ValidationError,
};
use clipforge::export::{prepare_export, prepare_multi_track_export, EngineCommand};
use clipforge::report::{debug_report, message, success_message, validation_message};
use clipforge::session::{advance, conclude, EngineOutcome, ExportEvent, ExportState};
use clipforge::timeline::{
    parse_clip, parse_main_track, parse_pip_clip, parse_secondary_track, ClipDescriptor,
    ExportResolution, Field, PipDescriptor, PipSettings,
};

fn descriptor(path: &str, duration: u64, in_point: u64, out_point: u64) -> ClipDescriptor {
    ClipDescriptor {
        path: Field::Value(path.to_string()),
        duration: Field::Value(duration),
        in_point: Field::Value(in_point),
        out_point: Field::Value(out_point),
        volume: Field::Value(1_000_000),
        muted: Field::Value(false),
        source_offset: Field::Missing,
        pip_settings: Field::Missing,
    }
}

fn engine() -> Option<String> {
    Some("/usr/bin/ffmpeg".to_string())
}

fn args_of(r: Result<EngineCommand, ExportError>) -> Vec<String> {
    r.unwrap().args
}

#[test]
fn empty_tracks_are_rejected_before_anything_else() {
    let r = prepare_multi_track_export(
        &Vec::new(),
        &Vec::new(),
        "out.mp4".to_string(),
        Some(30),
        Some(30),
        None,
    );
    assert_eq!(r, Err(ExportError::Validation(ValidationError::EmptyTimeline)));
    let r = prepare_export(&Vec::new(), "out.mp4".to_string(), engine());
    assert_eq!(r, Err(ExportError::Validation(ValidationError::EmptyTimeline)));
}

#[test]
fn rejections_come_in_order() {
    let mut broken = descriptor("a.mp4", 5_000_000, 0, 5_000_000);
    broken.duration = Field::Missing;
    let main = vec![broken];
    let r = prepare_multi_track_export(&main, &Vec::new(), "o".to_string(), Some(30), None, None);
    assert_eq!(r, Err(ExportError::Validation(ValidationError::ResolutionTooSmall)));
    let r =
        prepare_multi_track_export(&main, &Vec::new(), "o".to_string(), Some(9000), None, None);
    assert_eq!(r, Err(ExportError::Validation(ValidationError::ResolutionTooLarge)));
    let r = prepare_multi_track_export(&main, &Vec::new(), "o".to_string(), None, None, None);
    assert_eq!(r, Err(ExportError::EngineNotFound));
    let r = prepare_multi_track_export(&main, &Vec::new(), "o".to_string(), None, None, engine());
    assert_eq!(
        r,
        Err(ExportError::Parse {
            track: TrackKind::Main,
            index: 0,
            field: ClipField::Duration,
            problem: FieldProblem::Missing,
        })
    );
}

#[test]
fn secondary_track_is_read_after_main_track() {
    let mut bad_main = descriptor("a.mp4", 5_000_000, 0, 5_000_000);
    bad_main.muted = Field::Malformed;
    let mut bad_pip = descriptor("p.mp4", 5_000_000, 0, 5_000_000);
    bad_pip.path = Field::Missing;
    let good = descriptor("b.mp4", 5_000_000, 0, 5_000_000);
    let r = prepare_multi_track_export(
        &vec![good.clone(), bad_main],
        &vec![bad_pip.clone()],
        "o".to_string(),
        None,
        None,
        engine(),
    );
    assert_eq!(
        r,
        Err(ExportError::Parse {
            track: TrackKind::Main,
            index: 1,
            field: ClipField::Muted,
            problem: FieldProblem::Malformed,
        })
    );
    let r = prepare_multi_track_export(
        &vec![good],
        &vec![bad_pip],
        "o".to_string(),
        None,
        None,
        engine(),
    );
    assert_eq!(
        r,
        Err(ExportError::Parse {
            track: TrackKind::Secondary,
            index: 0,
            field: ClipField::Path,
            problem: FieldProblem::Missing,
        })
    );
}

#[test]
fn empty_window_is_rejected_last() {
    let good = descriptor("a.mp4", 5_000_000, 0, 5_000_000);
    let empty = descriptor("b.mp4", 5_000_000, 4_000_000, 4_000_000);
    let r = prepare_multi_track_export(
        &vec![good, empty],
        &Vec::new(),
        "o".to_string(),
        None,
        None,
        engine(),
    );
    assert_eq!(
        r,
        Err(ExportError::Validation(ValidationError::NonPositiveDuration {
            track: TrackKind::Main,
            index: 1,
        }))
    );
}

#[test]
fn single_track_command() {
    let clips = vec![
        descriptor("/v/a.mp4", 5_000_000, 0, 5_000_000),
        descriptor("/v/b.mp4", 8_000_000, 1_500_000, 4_000_000),
    ];
    let r = prepare_export(&clips, "/out/final.mp4".to_string(), engine());
    let command = r.unwrap();
    assert_eq!(command.program, "/usr/bin/ffmpeg");
    let graph = "[0:v]trim=start=0:duration=5[trim_m0];\
                 [trim_m0]setpts=PTS-STARTPTS[retime_m0];\
                 [retime_m0]scale=1280:720:force_original_aspect_ratio=decrease[fit_m0];\
                 [fit_m0]pad=1280:720:(ow-iw)/2:(oh-ih)/2[clip_m0];\
                 [1:v]trim=start=1.5:duration=2.5[trim_m1];\
                 [trim_m1]setpts=PTS-STARTPTS[retime_m1];\
                 [retime_m1]scale=1280:720:force_original_aspect_ratio=decrease[fit_m1];\
                 [fit_m1]pad=1280:720:(ow-iw)/2:(oh-ih)/2[clip_m1];\
                 [clip_m0][clip_m1]concat=n=2:v=1:a=0[concat_m0]";
    assert_eq!(
        command.args,
        vec![
            "-i", "/v/a.mp4", "-i", "/v/b.mp4", "-filter_complex", graph, "-map", "[concat_m0]",
            "-c:v", "libx264", "-preset", "fast", "-crf", "23", "-pix_fmt", "yuv420p", "-y",
            "/out/final.mp4",
        ]
    );
}

#[test]
fn multi_track_command_lists_main_files_first() {
    let main = vec![descriptor("m0.mp4", 10_000_000, 0, 10_000_000)];
    let mut pip = descriptor("p0.mp4", 15_000_000, 0, 15_000_000);
    pip.pip_settings = Field::Value(PipDescriptor {
        x: Field::Value(0),
        y: Field::Value(500_000),
        width: Field::Value(500_000),
        height: Field::Value(500_000),
        opacity: Field::Value(1_000_000),
    });
    let args = args_of(prepare_multi_track_export(
        &main,
        &vec![pip],
        "o.mp4".to_string(),
        Some(1921),
        Some(1081),
        engine(),
    ));
    assert_eq!(&args[0..4], &["-i", "m0.mp4", "-i", "p0.mp4"]);
    assert_eq!(args[4], "-filter_complex");
    assert_eq!(
        args[5],
        "[0:v]trim=start=0:duration=10[trim_m0];\
         [trim_m0]setpts=PTS-STARTPTS[retime_m0];\
         [retime_m0]scale=1920:1080:force_original_aspect_ratio=decrease[fit_m0];\
         [fit_m0]pad=1920:1080:(ow-iw)/2:(oh-ih)/2[clip_m0];\
         [clip_m0]concat=n=1:v=1:a=0[concat_m0];\
         [concat_m0]tpad=stop_mode=clone:stop_duration=5[base_m0];\
         [1:v]trim=start=0:duration=15[trim_s0];\
         [trim_s0]setpts=PTS-STARTPTS[retime_s0];\
         [retime_s0]scale=1920:1080:force_original_aspect_ratio=decrease[fit_s0];\
         [fit_s0]pad=1920:1080:(ow-iw)/2:(oh-ih)/2[clip_s0];\
         [clip_s0]scale=960:540[place_s0];\
         [base_m0][place_s0]overlay=x=0:y=540:enable='gte(t,0)'[overlay_s0]"
    );
    assert_eq!(&args[6..8], &["-map", "[overlay_s0]"]);
    assert_eq!(args.last().unwrap(), "o.mp4");
    assert_eq!(args.len(), 4 + 14);
}

#[test]
fn clip_fields_are_read_in_order() {
    let mut d = descriptor("a.mp4", 1, 0, 1);
    d.path = Field::Malformed;
    d.duration = Field::Missing;
    assert_eq!(
        parse_clip(&d, TrackKind::Main, 3),
        Err(ExportError::Parse {
            track: TrackKind::Main,
            index: 3,
            field: ClipField::Path,
            problem: FieldProblem::Malformed,
        })
    );
    let mut d = descriptor("a.mp4", 1, 0, 1);
    d.out_point = Field::Malformed;
    d.volume = Field::Missing;
    assert_eq!(
        parse_clip(&d, TrackKind::Secondary, 0),
        Err(ExportError::Parse {
            track: TrackKind::Secondary,
            index: 0,
            field: ClipField::OutPoint,
            problem: FieldProblem::Malformed,
        })
    );
    let mut d = descriptor("a.mp4", 1, 0, 1);
    d.source_offset = Field::Malformed;
    assert!(matches!(
        parse_clip(&d, TrackKind::Main, 0),
        Err(ExportError::Parse { field: ClipField::SourceOffset, .. })
    ));
    let mut d = descriptor("a.mp4", 7, 2, 5);
    d.source_offset = Field::Value(3);
    d.pip_settings = Field::Malformed;
    let clip = parse_clip(&d, TrackKind::Main, 0).unwrap();
    assert_eq!(clip.path, "a.mp4");
    assert_eq!((clip.duration, clip.in_point, clip.out_point), (7, 2, 5));
    assert_eq!(clip.source_offset, Some(3));
    assert_eq!(clip.volume, 1_000_000);
    assert!(!clip.muted);
}

#[test]
fn placement_fractions_must_not_exceed_one() {
    let mut d = descriptor("p.mp4", 1, 0, 1);
    d.pip_settings = Field::Value(PipDescriptor {
        x: Field::Value(1_000_000),
        y: Field::Value(1_000_001),
        width: Field::Missing,
        height: Field::Value(0),
        opacity: Field::Value(0),
    });
    assert_eq!(
        parse_pip_clip(&d, 4),
        Err(ExportError::Parse {
            track: TrackKind::Secondary,
            index: 4,
            field: ClipField::PipY,
            problem: FieldProblem::Malformed,
        })
    );
    d.pip_settings = Field::Malformed;
    assert!(matches!(
        parse_pip_clip(&d, 0),
        Err(ExportError::Parse { field: ClipField::PipSettings, .. })
    ));
    d.pip_settings = Field::Value(PipDescriptor {
        x: Field::Value(100_000),
        y: Field::Value(200_000),
        width: Field::Value(300_000),
        height: Field::Value(400_000),
        opacity: Field::Value(500_000),
    });
    let clip = parse_pip_clip(&d, 0).unwrap();
    assert_eq!(
        clip.pip_settings,
        Some(PipSettings { x: 100_000, y: 200_000, width: 300_000, height: 400_000, opacity: 500_000 })
    );
    d.pip_settings = Field::Missing;
    let clip = parse_pip_clip(&d, 0).unwrap();
    assert_eq!(clip.pip_settings, None);
    assert_eq!(
        clip.resolve_placement(),
        PipSettings { x: 750_000, y: 750_000, width: 250_000, height: 250_000, opacity: 1_000_000 }
    );
    assert_eq!(clip.resolve_placement(), PipSettings::default());
}

#[test]
fn tracks_are_read_whole_or_fail_on_the_first_bad_clip() {
    let good = descriptor("a.mp4", 1, 0, 1);
    let mut bad = descriptor("b.mp4", 1, 0, 1);
    bad.in_point = Field::Missing;
    assert_eq!(parse_main_track(&vec![good.clone(), good.clone()]).unwrap().len(), 2);
    assert!(matches!(
        parse_main_track(&vec![good.clone(), bad.clone(), bad.clone()]),
        Err(ExportError::Parse { index: 1, field: ClipField::InPoint, .. })
    ));
    assert!(matches!(
        parse_secondary_track(&vec![bad, good]),
        Err(ExportError::Parse { track: TrackKind::Secondary, index: 0, .. })
    ));
}

#[test]
fn diagnostics_are_classified_in_order() {
    assert_eq!(classify_failure("write failed: No space left on device"), EngineFailure::DiskSpace);
    assert_eq!(
        classify_failure("No space left; codec not found"),
        EngineFailure::DiskSpace
    );
    assert_eq!(
        classify_failure("Requested codec h265 was not found"),
        EngineFailure::CodecIncompatible
    );
    assert_eq!(
        classify_failure("Invalid argument; codec not found"),
        EngineFailure::CodecIncompatible
    );
    assert_eq!(
        classify_failure("Error: Invalid argument"),
        EngineFailure::InvalidParameters
    );
    assert_eq!(
        classify_failure("codec missing"),
        EngineFailure::Generic("codec missing".to_string())
    );
    assert_eq!(
        classify_failure("invalid ARGUMENT"),
        EngineFailure::Generic("invalid ARGUMENT".to_string())
    );
    assert_eq!(classify_failure(""), EngineFailure::Generic(String::new()));
}

#[test]
fn failure_messages_keep_the_diagnostic() {
    assert_eq!(parse_ffmpeg_error("x No space left y"), "Not enough disk space to export video.");
    assert_eq!(
        parse_ffmpeg_error("codec zz not found"),
        "Video codec incompatibility. Try re-encoding (slower)."
    );
    assert_eq!(
        parse_ffmpeg_error("Invalid argument"),
        "Invalid export parameters. FFmpeg error:\n\nInvalid argument"
    );
    assert_eq!(
        parse_ffmpeg_error("something\nélse"),
        "Export failed. FFmpeg error:\n\nsomething\nélse"
    );
}

#[test]
fn engine_is_looked_for_in_order() {
    let paths = candidate_paths("ffmpeg");
    assert_eq!(
        paths,
        vec![
            "binaries/ffmpeg-aarch64-apple-darwin",
            "binaries/ffmpeg",
            "ffmpeg",
            "ffmpeg-aarch64-apple-darwin",
            "/opt/homebrew/bin/ffmpeg",
            "/usr/local/bin/ffmpeg",
            "/usr/bin/ffmpeg",
        ]
    );
    assert_eq!(candidate_paths("ffprobe")[4], "/opt/homebrew/bin/ffprobe");
    let found = vec![false, false, true, false, true, false, false];
    assert_eq!(select_existing(&paths, &found), Ok("ffmpeg".to_string()));
    let none = vec![false; 7];
    assert_eq!(select_existing(&paths, &none), Err(ExportError::EngineNotFound));
}

#[test]
fn probing_answers_for_every_path() {
    let paths = vec!["/".to_string(), "/this/path/does/not/exist/anywhere".to_string()];
    assert_eq!(probe_paths(&paths), vec![true, false]);
}

#[test]
fn messages() {
    assert_eq!(validation_message(ValidationError::EmptyTimeline), "No clips to export");
    assert_eq!(
        validation_message(ValidationError::ResolutionTooSmall),
        "Export resolution too small. Minimum is 64x64."
    );
    assert_eq!(
        validation_message(ValidationError::ResolutionTooLarge),
        "Export resolution too large. Maximum is 7680x4320 (8K)."
    );
    assert_eq!(
        validation_message(ValidationError::NonPositiveDuration {
            track: TrackKind::Secondary,
            index: 12,
        }),
        "Clip 12 of the PIP track has no duration left after trimming."
    );
    assert_eq!(
        message(&ExportError::Parse {
            track: TrackKind::Main,
            index: 2,
            field: ClipField::InPoint,
            problem: FieldProblem::Missing,
        }),
        "Failed to parse main track clip data: clip 2: missing field `inPoint`"
    );
    assert_eq!(
        message(&ExportError::Parse {
            track: TrackKind::Secondary,
            index: 0,
            field: ClipField::PipOpacity,
            problem: FieldProblem::Malformed,
        }),
        "Failed to parse PIP track clip data: clip 0: invalid value for field `pipSettings.opacity`"
    );
    assert_eq!(
        message(&ExportError::EngineNotFound),
        "FFmpeg not found. Please ensure FFmpeg is installed and accessible."
    );
    assert_eq!(
        message(&ExportError::EngineInvocation("permission denied".to_string())),
        "Failed to execute FFmpeg: permission denied"
    );
    assert_eq!(
        message(&ExportError::Engine {
            failure: EngineFailure::Generic("boom".to_string()),
            diagnostic: "boom".to_string(),
        }),
        "Export failed. FFmpeg error:\n\nboom"
    );
    assert_eq!(
        message(&ExportError::Engine {
            failure: EngineFailure::InvalidParameters,
            diagnostic: "Invalid argument".to_string(),
        }),
        "Invalid export parameters. FFmpeg error:\n\nInvalid argument"
    );
    assert_eq!(
        message(&ExportError::GraphIntegrity),
        "Internal error: the processing graph is not sound."
    );
    assert_eq!(
        success_message(true, "/o/x.mp4"),
        "Multi-track export completed successfully: /o/x.mp4"
    );
    assert_eq!(success_message(false, "x.mp4"), "Export completed successfully: x.mp4");
}

#[test]
fn debug_report_lists_the_facts() {
    assert_eq!(
        debug_report(
            "Export failed.",
            ExportResolution { width: 1920, height: 1080 },
            3,
            0,
            "raw text",
        ),
        "Export failed.\n\nDebug info:\n- Resolution: 1920x1080\n- Main clips: 3\n- PiP clips: 0\n\nFull FFmpeg error:\nraw text"
    );
}

#[test]
fn an_export_runs_through_its_states() {
    let s = advance(ExportState::Idle, ExportEvent::Submitted);
    assert_eq!(s, ExportState::Validating);
    let s = advance(s, ExportEvent::Admitted);
    assert_eq!(s, ExportState::Compiling);
    let s = advance(s, ExportEvent::Compiled);
    assert_eq!(s, ExportState::Invoking);
    let done = advance(
        s.clone(),
        ExportEvent::EngineFinished(EngineOutcome::Exited {
            success: true,
            diagnostic: "frame=1".to_string(),
        }),
    );
    assert_eq!(done, ExportState::Succeeded);
    assert_eq!(advance(done, ExportEvent::Submitted), ExportState::Succeeded);
    let failed = advance(
        s.clone(),
        ExportEvent::EngineFinished(EngineOutcome::Exited {
            success: false,
            diagnostic: "No space left on device".to_string(),
        }),
    );
    assert_eq!(
        failed,
        ExportState::Failed(ExportError::Engine {
            failure: EngineFailure::DiskSpace,
            diagnostic: "No space left on device".to_string(),
        })
    );
    let not_started =
        advance(s, ExportEvent::EngineFinished(EngineOutcome::NotStarted("ENOENT".to_string())));
    assert_eq!(
        not_started,
        ExportState::Failed(ExportError::EngineInvocation("ENOENT".to_string()))
    );
}

#[test]
fn a_rejected_export_never_reaches_the_engine() {
    let e = ExportError::Validation(ValidationError::EmptyTimeline);
    let mut s = advance(ExportState::Idle, ExportEvent::Submitted);
    s = advance(s, ExportEvent::Rejected(e.clone()));
    assert_eq!(s, ExportState::Failed(e.clone()));
    for event in [
        ExportEvent::Admitted,
        ExportEvent::Compiled,
        ExportEvent::Submitted,
        ExportEvent::EngineFinished(EngineOutcome::NotStarted(String::new())),
    ] {
        s = advance(s, event);
        assert_eq!(s, ExportState::Failed(e.clone()));
    }
}

#[test]
fn events_out_of_turn_change_nothing() {
    assert_eq!(advance(ExportState::Idle, ExportEvent::Compiled), ExportState::Idle);
    assert_eq!(advance(ExportState::Validating, ExportEvent::Compiled), ExportState::Validating);
    assert_eq!(advance(ExportState::Compiling, ExportEvent::Admitted), ExportState::Compiling);
    assert_eq!(advance(ExportState::Invoking, ExportEvent::Unsound), ExportState::Invoking);
    assert_eq!(
        advance(ExportState::Compiling, ExportEvent::Unsound),
        ExportState::Failed(ExportError::GraphIntegrity)
    );
}

#[test]
fn unmatched_diagnostic_is_kept_verbatim() {
    let raw = "Conversion failed!\n  at frame 12 — ünïcode";
    let state = conclude(EngineOutcome::Exited { success: false, diagnostic: raw.to_string() });
    match state {
        ExportState::Failed(ExportError::Engine { failure, diagnostic }) => {
            assert_eq!(failure, EngineFailure::Generic(raw.to_string()));
            assert_eq!(diagnostic, raw);
        }
        other => panic!("unexpected state {:?}", other),
    }
}

#[test]
fn an_output_path_is_taken_once() {
    let mut locks = clipforge::locks::OutputLocks::new();
    assert!(!locks.is_held("/o/a.mp4"));
    assert!(locks.try_acquire("/o/a.mp4"));
    assert!(locks.is_held("/o/a.mp4"));
    assert!(!locks.try_acquire("/o/a.mp4"));
    assert!(locks.try_acquire("/o/b.mp4"));
    assert!(locks.release("/o/a.mp4"));
    assert!(!locks.is_held("/o/a.mp4"));
    assert!(locks.is_held("/o/b.mp4"));
    assert!(!locks.release("/o/a.mp4"));
    assert!(locks.try_acquire("/o/a.mp4"));
    assert!(locks.release("/o/b.mp4"));
    assert!(locks.release("/o/a.mp4"));
    assert!(!locks.is_held("/o/b.mp4"));
}
