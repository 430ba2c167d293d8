//! What the caller is told: a sentence for every failure, and the block of
//! facts that goes with a failed multi-track export.

use vstd::prelude::*;
use crate::error::{EngineFailure, ExportError, FieldProblem, TrackKind, ValidationError};
use crate::text::{decimal, push_decimal};
use crate::timeline::ExportResolution;

verus! {

/// How a track is called in messages.
pub open spec fn track_name(track: TrackKind) -> Seq<char> {
    match track {
        TrackKind::Main => "main track"@,
        TrackKind::Secondary => "PIP track"@,
    }
}

/// The sentence for a failed validation.
pub open spec fn validation_text(e: ValidationError) -> Seq<char> {
    match e {
        ValidationError::EmptyTimeline => "No clips to export"@,
        ValidationError::ResolutionTooSmall => "Export resolution too small. Minimum is 64x64."@,
        ValidationError::ResolutionTooLarge => "Export resolution too large. Maximum is 7680x4320 (8K)."@,
        ValidationError::NonPositiveDuration { track, index } => "Clip "@ + decimal(index as nat)
            + " of the "@ + track_name(track) + " has no duration left after trimming."@,
    }
}

/// How a problem with a field is called in messages.
pub open spec fn problem_text(problem: FieldProblem) -> Seq<char> {
    match problem {
        FieldProblem::Missing => "missing field `"@,
        FieldProblem::Malformed => "invalid value for field `"@,
    }
}

/// The sentence for a failed engine run of category `failure`.
pub open spec fn engine_failure_text(failure: EngineFailure, diagnostic: Seq<char>) -> Seq<char> {
    match failure {
        EngineFailure::DiskSpace => "Not enough disk space to export video."@,
        EngineFailure::CodecIncompatible => "Video codec incompatibility. Try re-encoding (slower)."@,
        EngineFailure::InvalidParameters => "Invalid export parameters. FFmpeg error:\n\n"@
            + diagnostic,
        EngineFailure::Generic(raw) => "Export failed. FFmpeg error:\n\n"@ + raw@,
    }
}

/// The sentence for a failure.
pub open spec fn message_text(e: ExportError) -> Seq<char> {
    match e {
        ExportError::Validation(v) => validation_text(v),
        ExportError::Parse { track, index, field, problem } => "Failed to parse "@ + track_name(
            track,
        ) + " clip data: clip "@ + decimal(index as nat) + ": "@ + problem_text(problem)
            + field.name_text() + "`"@,
        ExportError::EngineNotFound => "FFmpeg not found. Please ensure FFmpeg is installed and accessible."@,
        ExportError::EngineInvocation(reason) => "Failed to execute FFmpeg: "@ + reason@,
        ExportError::Engine { failure, diagnostic } => engine_failure_text(failure, diagnostic@),
        ExportError::GraphIntegrity => "Internal error: the processing graph is not sound."@,
    }
}

fn push_track_name(out: &mut String, track: TrackKind)
    ensures
        final(out)@ == old(out)@ + track_name(track),
{
    match track {
        TrackKind::Main => out.append("main track"),
        TrackKind::Secondary => out.append("PIP track"),
    }
}

/// The sentence for a failed validation.
pub fn validation_message(e: ValidationError) -> (message: String)
    ensures
        message@ == validation_text(e),
{
    match e {
        ValidationError::EmptyTimeline => "No clips to export".to_owned(),
        ValidationError::ResolutionTooSmall => "Export resolution too small. Minimum is 64x64.".to_owned(),
        ValidationError::ResolutionTooLarge => "Export resolution too large. Maximum is 7680x4320 (8K).".to_owned(),
        ValidationError::NonPositiveDuration { track, index } => {
            let mut message: String = "Clip ".to_owned();
            push_decimal(&mut message, index as u128);
            message.append(" of the ");
            push_track_name(&mut message, track);
            message.append(" has no duration left after trimming.");
            assert(message@ =~= validation_text(e));
            message
        },
    }
}

/// The sentence for a failure.
pub fn message(e: &ExportError) -> (message: String)
    ensures
        message@ == message_text(*e),
{
    match e {
        ExportError::Validation(v) => validation_message(*v),
        ExportError::Parse { track, index, field, problem } => {
            let mut message: String = "Failed to parse ".to_owned();
            push_track_name(&mut message, *track);
            message.append(" clip data: clip ");
            push_decimal(&mut message, *index as u128);
            message.append(": ");
            match problem {
                FieldProblem::Missing => message.append("missing field `"),
                FieldProblem::Malformed => message.append("invalid value for field `"),
            }
            message.append(field.name());
            message.append("`");
            assert(message@ =~= message_text(*e));
            message
        },
        ExportError::EngineNotFound => "FFmpeg not found. Please ensure FFmpeg is installed and accessible.".to_owned(),
        ExportError::EngineInvocation(reason) => {
            let mut message: String = "Failed to execute FFmpeg: ".to_owned();
            message.append(reason.as_str());
            message
        },
        ExportError::Engine { failure, diagnostic } => match failure {
            EngineFailure::DiskSpace => "Not enough disk space to export video.".to_owned(),
            EngineFailure::CodecIncompatible => "Video codec incompatibility. Try re-encoding (slower).".to_owned(),
            EngineFailure::InvalidParameters => {
                let mut message: String = "Invalid export parameters. FFmpeg error:\n\n".to_owned();
                message.append(diagnostic.as_str());
                message
            },
            EngineFailure::Generic(raw) => {
                let mut message: String = "Export failed. FFmpeg error:\n\n".to_owned();
                message.append(raw.as_str());
                message
            },
        },
        ExportError::GraphIntegrity => "Internal error: the processing graph is not sound.".to_owned(),
    }
}

/// What is told of a failed multi-track export: the sentence, then the
/// resolution and the number of clips on either track, then the whole
/// diagnostic.
pub open spec fn debug_report_text(
    sentence: Seq<char>,
    res: ExportResolution,
    main_clips: nat,
    secondary_clips: nat,
    diagnostic: Seq<char>,
) -> Seq<char> {
    sentence + "\n\nDebug info:\n- Resolution: "@ + decimal(res.width as nat) + "x"@ + decimal(
        res.height as nat,
    ) + "\n- Main clips: "@ + decimal(main_clips) + "\n- PiP clips: "@ + decimal(secondary_clips)
        + "\n\nFull FFmpeg error:\n"@ + diagnostic
}

/// What is told of a failed multi-track export.
pub fn debug_report(
    sentence: &str,
    res: ExportResolution,
    main_clips: usize,
    secondary_clips: usize,
    diagnostic: &str,
) -> (report: String)
    ensures
        report@ == debug_report_text(
            sentence@,
            res,
            main_clips as nat,
            secondary_clips as nat,
            diagnostic@,
        ),
{
    let mut report: String = sentence.to_owned();
    report.append("\n\nDebug info:\n- Resolution: ");
    push_decimal(&mut report, res.width as u128);
    report.append("x");
    push_decimal(&mut report, res.height as u128);
    report.append("\n- Main clips: ");
    push_decimal(&mut report, main_clips as u128);
    report.append("\n- PiP clips: ");
    push_decimal(&mut report, secondary_clips as u128);
    report.append("\n\nFull FFmpeg error:\n");
    report.append(diagnostic);
    report
}

/// What is told of an export that went through: that it did, and where the
/// result is.
pub open spec fn success_text(multi_track: bool, output_path: Seq<char>) -> Seq<char> {
    if multi_track {
        "Multi-track export completed successfully: "@ + output_path
    } else {
        "Export completed successfully: "@ + output_path
    }
}

/// What is told of an export that went through.
pub fn success_message(multi_track: bool, output_path: &str) -> (message: String)
    ensures
        message@ == success_text(multi_track, output_path@),
{
    let mut message: String = if multi_track {
        "Multi-track export completed successfully: ".to_owned()
    } else {
        "Export completed successfully: ".to_owned()
    };
    message.append(output_path);
    message
}

} // verus!
