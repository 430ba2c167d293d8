//! The engine's side of an export: where the engine is found, what it is
//! started with, and what its diagnostic says when it fails.

use vstd::prelude::*;
use crate::error::{EngineFailure, ExportError};
use crate::text::{contains, contains_text};
use crate::timeline::first_where;

verus! {

/// The diagnostic speaks of a full disk.
pub open spec fn says_disk_space(diagnostic: Seq<char>) -> bool {
    contains_text(diagnostic, "No space left"@)
}

/// The diagnostic speaks of a codec that is not there.
pub open spec fn says_codec(diagnostic: Seq<char>) -> bool {
    contains_text(diagnostic, "codec"@) && contains_text(diagnostic, "not found"@)
}

/// The diagnostic speaks of an argument that is not valid.
pub open spec fn says_invalid(diagnostic: Seq<char>) -> bool {
    contains_text(diagnostic, "Invalid"@) && contains_text(diagnostic, "argument"@)
}

/// Sorts a diagnostic of the engine into the first category that fits, in
/// the order: disk space, codec, parameters. One that fits none is kept
/// whole under `Generic`.
pub fn classify_failure(diagnostic: &str) -> (failure: EngineFailure)
    ensures
        match failure {
            EngineFailure::DiskSpace => says_disk_space(diagnostic@),
            EngineFailure::CodecIncompatible => !says_disk_space(diagnostic@) && says_codec(
                diagnostic@,
            ),
            EngineFailure::InvalidParameters => !says_disk_space(diagnostic@) && !says_codec(
                diagnostic@,
            ) && says_invalid(diagnostic@),
            EngineFailure::Generic(raw) => !says_disk_space(diagnostic@) && !says_codec(
                diagnostic@,
            ) && !says_invalid(diagnostic@) && raw@ == diagnostic@,
        },
{
    if contains(diagnostic, "No space left") {
        EngineFailure::DiskSpace
    } else if contains(diagnostic, "codec") && contains(diagnostic, "not found") {
        EngineFailure::CodecIncompatible
    } else if contains(diagnostic, "Invalid") && contains(diagnostic, "argument") {
        EngineFailure::InvalidParameters
    } else {
        EngineFailure::Generic(diagnostic.to_owned())
    }
}

/// What the user is told of a failed engine run: a fixed sentence for a full
/// disk and for a missing codec; otherwise a sentence followed by the whole
/// diagnostic.
pub open spec fn failure_message(diagnostic: Seq<char>) -> Seq<char> {
    if says_disk_space(diagnostic) {
        "Not enough disk space to export video."@
    } else if says_codec(diagnostic) {
        "Video codec incompatibility. Try re-encoding (slower)."@
    } else if says_invalid(diagnostic) {
        "Invalid export parameters. FFmpeg error:\n\n"@ + diagnostic
    } else {
        "Export failed. FFmpeg error:\n\n"@ + diagnostic
    }
}

/// Turns the engine's diagnostic into what the user is told.
pub fn parse_ffmpeg_error(stderr: &str) -> (message: String)
    ensures
        message@ == failure_message(stderr@),
{
    match classify_failure(stderr) {
        EngineFailure::DiskSpace => "Not enough disk space to export video.".to_owned(),
        EngineFailure::CodecIncompatible => "Video codec incompatibility. Try re-encoding (slower).".to_owned(),
        EngineFailure::InvalidParameters => {
            let mut message: String = "Invalid export parameters. FFmpeg error:\n\n".to_owned();
            message.append(stderr);
            message
        },
        EngineFailure::Generic(raw) => {
            let mut message: String = "Export failed. FFmpeg error:\n\n".to_owned();
            message.append(raw.as_str());
            message
        },
    }
}

/// The texts that a list of strings holds.
pub open spec fn texts(v: Seq<String>) -> Seq<Seq<char>> {
    v.map_values(|s: String| s@)
}

/// The places at which a tool of the engine is looked for, in order: beside
/// the application, in the working directory, then where the system keeps
/// it.
pub open spec fn engine_candidates(tool: Seq<char>) -> Seq<Seq<char>> {
    seq![
        "binaries/"@ + tool + "-aarch64-apple-darwin"@,
        "binaries/"@ + tool,
        tool,
        tool + "-aarch64-apple-darwin"@,
        "/opt/homebrew/bin/"@ + tool,
        "/usr/local/bin/"@ + tool,
        "/usr/bin/"@ + tool,
    ]
}

fn joined(before: &str, tool: &str, after: &str) -> (s: String)
    ensures
        s@ == before@ + tool@ + after@,
{
    let mut s: String = before.to_owned();
    s.append(tool);
    s.append(after);
    s
}

/// The places at which `tool` is looked for, in order.
pub fn candidate_paths(tool: &str) -> (paths: Vec<String>)
    ensures
        texts(paths@) == engine_candidates(tool@),
{
    let mut paths: Vec<String> = Vec::new();
    paths.push(joined("binaries/", tool, "-aarch64-apple-darwin"));
    paths.push(joined("binaries/", tool, ""));
    paths.push(joined("", tool, ""));
    paths.push(joined("", tool, "-aarch64-apple-darwin"));
    paths.push(joined("/opt/homebrew/bin/", tool, ""));
    paths.push(joined("/usr/local/bin/", tool, ""));
    paths.push(joined("/usr/bin/", tool, ""));
    proof {
        reveal_strlit("");
        assert(""@ =~= Seq::<char>::empty());
        assert(texts(paths@)[1] =~= engine_candidates(tool@)[1]);
        assert(texts(paths@)[2] =~= engine_candidates(tool@)[2]);
        assert(texts(paths@)[3] =~= engine_candidates(tool@)[3]);
        assert(texts(paths@)[4] =~= engine_candidates(tool@)[4]);
        assert(texts(paths@)[5] =~= engine_candidates(tool@)[5]);
        assert(texts(paths@)[6] =~= engine_candidates(tool@)[6]);
        assert(texts(paths@) =~= engine_candidates(tool@));
    }
    paths
}

/// Whether something exists at `path` right now.
///
/// Trusted: calls `std::path::Path::exists`. Nothing is claimed of the
/// answer, which depends on what is on disk when it is asked.
#[verifier::external_body]
fn path_exists(path: &str) -> (found: bool) {
    std::path::Path::new(path).exists()
}

/// Asks of each path whether something exists there.
pub fn probe_paths(paths: &Vec<String>) -> (found: Vec<bool>)
    ensures
        found@.len() == paths@.len(),
{
    let mut found: Vec<bool> = Vec::new();
    let mut i: usize = 0;
    while i < paths.len()
        invariant
            i <= paths.len(),
            found@.len() == i,
        decreases paths.len() - i,
    {
        found.push(path_exists(paths[i].as_str()));
        i += 1;
    }
    found
}

/// An answer that says "exists".
pub open spec fn is_found() -> spec_fn(bool) -> bool {
    |b: bool| b
}

/// Picks the first of `paths` that was found to exist, or fails with
/// `EngineNotFound` where none was.
pub fn select_existing(paths: &Vec<String>, found: &Vec<bool>) -> (r: Result<String, ExportError>)
    requires
        found@.len() == paths@.len(),
    ensures
        match r {
            Ok(path) => first_where(found@, is_found()) matches Some(i) && path == paths@[i],
            Err(e) => first_where(found@, is_found()) is None && e == ExportError::EngineNotFound,
        },
{
    let mut i: usize = 0;
    while i < found.len()
        invariant
            i <= found.len(),
            found@.len() == paths@.len(),
            first_where(found@, is_found()) == crate::timeline::first_from(
                found@,
                is_found(),
                i as int,
            ),
        decreases found.len() - i,
    {
        if found[i] {
            return Ok(paths[i].clone());
        }
        i += 1;
    }
    Err(ExportError::EngineNotFound)
}

/// Finds the tool `tool` of the engine: the first of its known places at
/// which something exists.
pub fn locate_tool(tool: &str) -> (r: Result<String, ExportError>)
    ensures
        match r {
            Ok(path) => engine_candidates(tool@).contains(path@),
            Err(e) => e == ExportError::EngineNotFound,
        },
{
    let paths = candidate_paths(tool);
    let found = probe_paths(&paths);
    let r = select_existing(&paths, &found);
    proof {
        crate::timeline::lemma_first_where(found@, is_found());
        if r is Ok {
            let i = first_where(found@, is_found())->Some_0;
            assert(texts(paths@)[i] == r->Ok_0@);
        }
    }
    r
}

/// Finds the engine's encoder.
pub fn get_ffmpeg_path() -> (r: Result<String, ExportError>)
    ensures
        match r {
            Ok(path) => engine_candidates("ffmpeg"@).contains(path@),
            Err(e) => e == ExportError::EngineNotFound,
        },
{
    locate_tool("ffmpeg")
}

/// Finds the engine's probe.
pub fn get_ffprobe_path() -> (r: Result<String, ExportError>)
    ensures
        match r {
            Ok(path) => engine_candidates("ffprobe"@).contains(path@),
            Err(e) => e == ExportError::EngineNotFound,
        },
{
    locate_tool("ffprobe")
}

} // verus!
