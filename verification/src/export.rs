//! An export from descriptors to the command that runs the engine, and from
//! what the engine did to what the caller is told.

use vstd::prelude::*;
use crate::compile::{compile, compiled_graph};
use crate::engine::{get_ffmpeg_path, engine_candidates, texts};
use crate::error::{ExportError, ValidationError};
use crate::graph::FilterGraph;
use crate::serialize::{graph_text, label_text, push_label, serialize};
use crate::theorems::theorem_compiled_graph_sound;
use crate::timeline::{
    clip_unreadable, first_where, main_parse_error, main_readings, normalize_resolution,
    normalized_resolution, parse_main_track, parse_secondary_track, pip_parse_error, pip_readings,
    pip_unreadable, track_fault, ClipData, ClipDescriptor, ExportRequest, ExportResolution,
    PipClipData,
};

verus! {

/// The engine and what it is started with.
#[derive(Clone, Debug, PartialEq, Eq)]
pub struct EngineCommand {
    pub program: String,
    pub args: Vec<String>,
}

/// Where the files of the main track are.
pub open spec fn clip_paths(main: Seq<ClipData>) -> Seq<Seq<char>> {
    main.map_values(|c: ClipData| c.path@)
}

/// Where the files of the secondary track are.
pub open spec fn pip_paths(secondary: Seq<PipClipData>) -> Seq<Seq<char>> {
    secondary.map_values(|c: PipClipData| c.clip.path@)
}

/// The arguments that name the input files: `-i` before each path.
pub open spec fn input_args(paths: Seq<Seq<char>>) -> Seq<Seq<char>> {
    Seq::new(
        2 * paths.len(),
        |k: int|
            if k % 2 == 0 {
                "-i"@
            } else {
                paths[k / 2]
            },
    )
}

/// The arguments after the input files: the graph, the stream to write, the
/// fixed encoding parameters, and the output path, overwriting what is there.
pub open spec fn encode_args(graph: Seq<char>, result: Seq<char>, output_path: Seq<char>) -> Seq<
    Seq<char>,
> {
    seq![
        "-filter_complex"@,
        graph,
        "-map"@,
        result,
        "-c:v"@,
        "libx264"@,
        "-preset"@,
        "fast"@,
        "-crf"@,
        "23"@,
        "-pix_fmt"@,
        "yuv420p"@,
        "-y"@,
        output_path,
    ]
}

/// Everything the engine is started with for a timeline: the files of the
/// main track, then those of the secondary track, so that the position of a
/// file is the number by which the graph names it; then the compiled graph
/// and the rest.
pub open spec fn command_args(
    main: Seq<ClipData>,
    secondary: Seq<PipClipData>,
    res: ExportResolution,
    output_path: Seq<char>,
) -> Seq<Seq<char>> {
    let graph = compiled_graph(main, secondary, res);
    input_args(clip_paths(main) + pip_paths(secondary)) + encode_args(
        graph_text(graph),
        label_text(graph.output, graph.main_sources),
        output_path,
    )
}

fn push_text(args: &mut Vec<String>, s: String)
    ensures
        texts(final(args)@) == texts(old(args)@).push(s@),
{
    assert(texts(args@.push(s)) =~= texts(args@).push(s@));
    args.push(s);
}

fn push_literal(args: &mut Vec<String>, s: &str)
    ensures
        texts(final(args)@) == texts(old(args)@).push(s@),
{
    push_text(args, s.to_owned());
}

/// Builds the arguments for an admitted timeline and its compiled graph.
pub fn build_args(request: &ExportRequest, graph: &FilterGraph, graph_text: String) -> (args: Vec<
    String,
>)
    requires
        graph@ == compiled_graph(
            request.main_track@,
            request.secondary_track@,
            request.resolution,
        ),
        graph_text@ == crate::serialize::graph_text(graph@),
    ensures
        texts(args@) == command_args(
            request.main_track@,
            request.secondary_track@,
            request.resolution,
            request.output_path@,
        ),
{
    let ghost main = request.main_track@;
    let ghost secondary = request.secondary_track@;
    let ghost paths = clip_paths(main) + pip_paths(secondary);
    let mut args: Vec<String> = Vec::new();
    assert(texts(args@) =~= input_args(paths).take(0));
    let mut i: usize = 0;
    while i < request.main_track.len()
        invariant
            i <= request.main_track.len(),
            main == request.main_track@,
            secondary == request.secondary_track@,
            paths == clip_paths(main) + pip_paths(secondary),
            texts(args@) == input_args(paths).take(2 * i),
        decreases request.main_track.len() - i,
    {
        push_literal(&mut args, "-i");
        push_text(&mut args, request.main_track[i].path.clone());
        assert(texts(args@) =~= input_args(paths).take(2 * (i + 1)));
        i += 1;
    }
    let mut j: usize = 0;
    while j < request.secondary_track.len()
        invariant
            j <= request.secondary_track.len(),
            i == request.main_track.len(),
            main == request.main_track@,
            secondary == request.secondary_track@,
            paths == clip_paths(main) + pip_paths(secondary),
            texts(args@) == input_args(paths).take(2 * (i + j)),
        decreases request.secondary_track.len() - j,
    {
        push_literal(&mut args, "-i");
        push_text(&mut args, request.secondary_track[j].clip.path.clone());
        assert(texts(args@) =~= input_args(paths).take(2 * (i + j + 1)));
        j += 1;
    }
    assert(input_args(paths).take(2 * (i + j)) =~= input_args(paths));
    let mut result: String = String::new();
    push_label(&mut result, graph.output, graph.main_sources);
    assert(result@ =~= label_text(graph@.output, graph@.main_sources));
    push_literal(&mut args, "-filter_complex");
    push_text(&mut args, graph_text);
    push_literal(&mut args, "-map");
    push_text(&mut args, result);
    push_literal(&mut args, "-c:v");
    push_literal(&mut args, "libx264");
    push_literal(&mut args, "-preset");
    push_literal(&mut args, "fast");
    push_literal(&mut args, "-crf");
    push_literal(&mut args, "23");
    push_literal(&mut args, "-pix_fmt");
    push_literal(&mut args, "yuv420p");
    push_literal(&mut args, "-y");
    push_text(&mut args, request.output_path.clone());
    assert(texts(args@) =~= command_args(
        main,
        secondary,
        request.resolution,
        request.output_path@,
    ));
    args
}

/// Compiles an admitted timeline and builds the command that runs the
/// engine on it. This cannot fail: a compiled graph is always sound.
pub fn plan_export(request: &ExportRequest, engine: String) -> (r: Result<
    EngineCommand,
    ExportError,
>)
    requires
        request.wf(),
    ensures
        r matches Ok(command) && command.program == engine && texts(command.args@)
            == command_args(
            request.main_track@,
            request.secondary_track@,
            request.resolution,
            request.output_path@,
        ),
{
    let graph = compile(request);
    proof {
        theorem_compiled_graph_sound(
            request.main_track@,
            request.secondary_track@,
            request.resolution,
        );
    }
    match serialize(&graph) {
        Ok(text) => {
            let args = build_args(request, &graph, text);
            Ok(EngineCommand { program: engine, args })
        },
        Err(e) => Err(e),
    }
}

/// Why a multi-track export is rejected before anything is compiled, if it
/// is. In this order: both tracks are empty; the resolution is out of
/// bounds; the engine was not found; the first descriptor of the main track
/// that cannot be read; the first such of the secondary track; the first
/// clip that keeps nothing.
pub open spec fn multi_track_rejection(
    main: Seq<ClipDescriptor>,
    secondary: Seq<ClipDescriptor>,
    width: Option<i32>,
    height: Option<i32>,
    engine_found: bool,
) -> Option<ExportError> {
    if main.len() == 0 && secondary.len() == 0 {
        Some(ExportError::Validation(ValidationError::EmptyTimeline))
    } else if normalized_resolution(width, height) is Err {
        Some(ExportError::Validation(normalized_resolution(width, height)->Err_0))
    } else if !engine_found {
        Some(ExportError::EngineNotFound)
    } else if first_where(main, clip_unreadable()) is Some {
        Some(main_parse_error(main, first_where(main, clip_unreadable())->Some_0))
    } else if first_where(secondary, pip_unreadable()) is Some {
        Some(pip_parse_error(secondary, first_where(secondary, pip_unreadable())->Some_0))
    } else {
        match track_fault(main_readings(main), pip_readings(secondary)) {
            Some(e) => Some(ExportError::Validation(e)),
            None => None,
        }
    }
}

/// Takes a multi-track export from descriptors to the command that runs
/// the engine, given where the engine was found, if it was. Rejects what
/// `multi_track_rejection` names, with that error and no command; for
/// everything else the command is owed.
pub fn prepare_multi_track_export(
    main: &Vec<ClipDescriptor>,
    secondary: &Vec<ClipDescriptor>,
    output_path: String,
    width: Option<i32>,
    height: Option<i32>,
    engine: Option<String>,
) -> (r: Result<EngineCommand, ExportError>)
    ensures
        match multi_track_rejection(main@, secondary@, width, height, engine is Some) {
            Some(e) => r == Err::<EngineCommand, ExportError>(e),
            None => r matches Ok(command) && command.program == engine->Some_0 && texts(
                command.args@,
            ) == command_args(
                main_readings(main@),
                pip_readings(secondary@),
                normalized_resolution(width, height)->Ok_0,
                output_path@,
            ),
        },
{
    if main.len() == 0 && secondary.len() == 0 {
        return Err(ExportError::Validation(ValidationError::EmptyTimeline));
    }
    let resolution: ExportResolution = match normalize_resolution(width, height) {
        Ok(resolution) => resolution,
        Err(e) => {
            return Err(ExportError::Validation(e));
        },
    };
    let program: String = match engine {
        Some(program) => program,
        None => {
            return Err(ExportError::EngineNotFound);
        },
    };
    let main_track: Vec<ClipData> = parse_main_track(main)?;
    let secondary_track: Vec<PipClipData> = parse_secondary_track(secondary)?;
    let ghost path = output_path@;
    let request: ExportRequest = match ExportRequest::new(
        main_track,
        secondary_track,
        output_path,
        resolution,
    ) {
        Ok(request) => request,
        Err(e) => {
            return Err(ExportError::Validation(e));
        },
    };
    plan_export(&request, program)
}

/// Takes a multi-track export from descriptors to the command that runs
/// the engine, looking for the engine where it is needed. What is rejected
/// and what the command holds is as `prepare_multi_track_export` says, for
/// whatever the search for the engine gave.
pub fn export_multi_track_video(
    main: &Vec<ClipDescriptor>,
    secondary: &Vec<ClipDescriptor>,
    output_path: String,
    width: Option<i32>,
    height: Option<i32>,
) -> (r: Result<EngineCommand, ExportError>)
    ensures
        match r {
            Ok(command) => {
                &&& multi_track_rejection(main@, secondary@, width, height, true) is None
                &&& engine_candidates("ffmpeg"@).contains(command.program@)
                &&& texts(command.args@) == command_args(
                    main_readings(main@),
                    pip_readings(secondary@),
                    normalized_resolution(width, height)->Ok_0,
                    output_path@,
                )
            },
            Err(e) => {
                ||| multi_track_rejection(main@, secondary@, width, height, true) == Some(e)
                ||| multi_track_rejection(main@, secondary@, width, height, false) == Some(e)
            },
        },
{
    if main.len() == 0 && secondary.len() == 0 {
        return Err(ExportError::Validation(ValidationError::EmptyTimeline));
    }
    if let Err(e) = normalize_resolution(width, height) {
        return Err(ExportError::Validation(e));
    }
    let engine: Option<String> = match get_ffmpeg_path() {
        Ok(path) => Some(path),
        Err(_) => None,
    };
    prepare_multi_track_export(main, secondary, output_path, width, height, engine)
}

/// Takes a single-track export from descriptors to the command that runs
/// the engine, given where the engine was found: a multi-track export with
/// an empty secondary track at the standard resolution.
pub fn prepare_export(clips: &Vec<ClipDescriptor>, output_path: String, engine: Option<String>) -> (r:
    Result<EngineCommand, ExportError>)
    ensures
        match multi_track_rejection(
            clips@,
            Seq::<ClipDescriptor>::empty(),
            None,
            None,
            engine is Some,
        ) {
            Some(e) => r == Err::<EngineCommand, ExportError>(e),
            None => r matches Ok(command) && command.program == engine->Some_0 && texts(
                command.args@,
            ) == command_args(
                main_readings(clips@),
                Seq::<PipClipData>::empty(),
                ExportResolution { width: 1280, height: 720 },
                output_path@,
            ),
        },
{
    let none: Vec<ClipDescriptor> = Vec::new();
    assert(none@ =~= Seq::<ClipDescriptor>::empty());
    assert(pip_readings(none@) =~= Seq::<PipClipData>::empty());
    prepare_multi_track_export(clips, &none, output_path, None, None, engine)
}

/// Takes a single-track export from descriptors to the command that runs
/// the engine, looking for the engine where it is needed.
pub fn export_video(clips: &Vec<ClipDescriptor>, output_path: String) -> (r: Result<
    EngineCommand,
    ExportError,
>)
    ensures
        match r {
            Ok(command) => {
                &&& multi_track_rejection(
                    clips@,
                    Seq::<ClipDescriptor>::empty(),
                    None,
                    None,
                    true,
                ) is None
                &&& engine_candidates("ffmpeg"@).contains(command.program@)
                &&& texts(command.args@) == command_args(
                    main_readings(clips@),
                    Seq::<PipClipData>::empty(),
                    ExportResolution { width: 1280, height: 720 },
                    output_path@,
                )
            },
            Err(e) => {
                ||| multi_track_rejection(
                    clips@,
                    Seq::<ClipDescriptor>::empty(),
                    None,
                    None,
                    true,
                ) == Some(e)
                ||| multi_track_rejection(
                    clips@,
                    Seq::<ClipDescriptor>::empty(),
                    None,
                    None,
                    false,
                ) == Some(e)
            },
        },
{
    if clips.len() == 0 {
        return Err(ExportError::Validation(ValidationError::EmptyTimeline));
    }
    let engine: Option<String> = match get_ffmpeg_path() {
        Ok(path) => Some(path),
        Err(_) => None,
    };
    prepare_export(clips, output_path, engine)
}

} // verus!
