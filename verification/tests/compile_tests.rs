use clipforge::compile::{compile, scale_extent, total_main_duration, total_secondary_duration};
use clipforge::error::{ExportError, TrackKind, ValidationError};
use clipforge::graph::{FilterGraph, FilterNode, FilterOp, Label, LabelKind};
use clipforge::serialize::{render, serialize};
use clipforge::timeline::{
    normalize_resolution, ClipData, ExportRequest, ExportResolution, PipClipData, PipSettings,
};

fn secs(s: f64) -> u64 {
    (s * 1_000_000.0).round() as u64
}

fn clip(path: &str, duration: f64, in_point: f64, out_point: f64) -> ClipData {
    ClipData {
        path: path.to_string(),
        duration: secs(duration),
        in_point: secs(in_point),
        out_point: secs(out_point),
        volume: 1_000_000,
        muted: false,
        source_offset: None,
    }
}

fn pip(path: &str, duration: f64, settings: Option<PipSettings>) -> PipClipData {
    PipClipData { clip: clip(path, duration, 0.0, duration), pip_settings: settings }
}

fn hd() -> ExportResolution {
    ExportResolution { width: 1280, height: 720 }
}

fn request(main: Vec<ClipData>, secondary: Vec<PipClipData>) -> ExportRequest {
    ExportRequest::new(main, secondary, "/tmp/out.mp4".to_string(), hd()).unwrap()
}

fn overlay_gates(graph: &FilterGraph) -> Vec<u128> {
    let mut gates = Vec::new();
    for node in &graph.nodes {
        if let FilterOp::Overlay { gate, .. } = node.op {
            gates.push(gate);
        }
    }
    gates
}

#[test]
fn resolution_is_rounded_down_to_even() {
    assert_eq!(
        normalize_resolution(Some(1281), Some(721)),
        Ok(ExportResolution { width: 1280, height: 720 })
    );
}

#[test]
fn resolution_below_minimum_is_rejected() {
    assert_eq!(normalize_resolution(Some(30), Some(30)), Err(ValidationError::ResolutionTooSmall));
}

#[test]
fn resolution_above_maximum_is_rejected() {
    assert_eq!(
        normalize_resolution(Some(8000), Some(5000)),
        Err(ValidationError::ResolutionTooLarge)
    );
}

#[test]
fn resolution_defaults_to_hd() {
    assert_eq!(normalize_resolution(None, None), Ok(hd()));
    assert_eq!(
        normalize_resolution(Some(1920), None),
        Ok(ExportResolution { width: 1920, height: 720 })
    );
}

#[test]
fn resolution_edges() {
    assert_eq!(
        normalize_resolution(Some(64), Some(65)),
        Ok(ExportResolution { width: 64, height: 64 })
    );
    assert_eq!(normalize_resolution(Some(63), Some(720)), Err(ValidationError::ResolutionTooSmall));
    assert_eq!(
        normalize_resolution(Some(7681), Some(4321)),
        Ok(ExportResolution { width: 7680, height: 4320 })
    );
    assert_eq!(
        normalize_resolution(Some(7682), Some(720)),
        Err(ValidationError::ResolutionTooLarge)
    );
    assert_eq!(
        normalize_resolution(Some(1280), Some(4322)),
        Err(ValidationError::ResolutionTooLarge)
    );
    assert_eq!(normalize_resolution(Some(-5), Some(720)), Err(ValidationError::ResolutionTooSmall));
    assert_eq!(
        normalize_resolution(Some(30), Some(9000)),
        Err(ValidationError::ResolutionTooSmall)
    );
}

#[test]
fn empty_timeline_is_rejected() {
    let r = ExportRequest::new(Vec::new(), Vec::new(), "/tmp/out.mp4".to_string(), hd());
    assert_eq!(r, Err(ValidationError::EmptyTimeline));
}

#[test]
fn clip_without_window_is_named() {
    let good = clip("a.mp4", 5.0, 0.0, 5.0);
    let bad = clip("b.mp4", 5.0, 3.0, 3.0);
    let r = ExportRequest::new(vec![good.clone(), bad], Vec::new(), "o.mp4".to_string(), hd());
    assert_eq!(
        r,
        Err(ValidationError::NonPositiveDuration { track: TrackKind::Main, index: 1 })
    );
    let mut late = clip("c.mp4", 5.0, 0.0, 5.0);
    late.source_offset = Some(secs(9.0));
    let r = ExportRequest::new(
        vec![good],
        vec![PipClipData { clip: late, pip_settings: None }],
        "o.mp4".to_string(),
        hd(),
    );
    assert_eq!(
        r,
        Err(ValidationError::NonPositiveDuration { track: TrackKind::Secondary, index: 0 })
    );
}

#[test]
fn effective_window_follows_offset_and_duration() {
    let mut c = clip("a.mp4", 10.0, 2.0, 12.0);
    assert_eq!(c.effective_start(), secs(2.0));
    assert_eq!(c.effective_duration(), Some(secs(8.0)));
    c.source_offset = Some(secs(4.0));
    assert_eq!(c.effective_start(), secs(4.0));
    assert_eq!(c.effective_duration(), Some(secs(6.0)));
    c.out_point = secs(7.5);
    assert_eq!(c.effective_duration(), Some(secs(3.5)));
    c.out_point = secs(2.0);
    assert_eq!(c.effective_duration(), None);
}

#[test]
fn main_track_only_has_chains_and_one_concat() {
    let req = request(
        vec![clip("a.mp4", 5.0, 0.0, 5.0), clip("b.mp4", 4.0, 1.0, 3.0), clip("c.mp4", 2.0, 0.0, 2.0)],
        Vec::new(),
    );
    let graph = compile(&req);
    assert_eq!(graph.nodes.len(), 4 * 3 + 1);
    let concats = graph.nodes.iter().filter(|n| matches!(n.op, FilterOp::Concat { .. })).count();
    assert_eq!(concats, 1);
    let pads = graph.nodes.iter().filter(|n| n.op == FilterOp::Pad { width: 1280, height: 720 }).count();
    assert_eq!(pads, 3);
    let last = graph.nodes.last().unwrap();
    assert_eq!(last.op, FilterOp::Concat { count: 3 });
    assert_eq!(last.output, graph.output);
    assert_eq!(last.inputs.len(), 3);
    assert_eq!(
        graph.nodes[4].op,
        FilterOp::Trim { start: secs(1.0), duration: secs(2.0) }
    );
    assert_eq!(graph.nodes[5].op, FilterOp::Retime);
    assert_eq!(
        graph.nodes[6].op,
        FilterOp::Scale { width: 1280, height: 720, preserve_aspect: true }
    );
    assert!(graph.check_integrity());
}

#[test]
fn main_track_only_text() {
    let req = request(vec![clip("a.mp4", 5.0, 0.5, 5.0)], Vec::new());
    let graph = compile(&req);
    assert_eq!(
        render(&graph),
        "[0:v]trim=start=0.5:duration=4.5[trim_m0];\
         [trim_m0]setpts=PTS-STARTPTS[retime_m0];\
         [retime_m0]scale=1280:720:force_original_aspect_ratio=decrease[fit_m0];\
         [fit_m0]pad=1280:720:(ow-iw)/2:(oh-ih)/2[clip_m0];\
         [clip_m0]concat=n=1:v=1:a=0[concat_m0]"
    );
    assert_eq!(serialize(&graph), Ok(render(&graph)));
}

#[test]
fn shorter_main_track_is_held() {
    let req = request(
        vec![clip("a.mp4", 10.0, 0.0, 10.0)],
        vec![pip("p.mp4", 15.0, None)],
    );
    assert_eq!(total_main_duration(&req.main_track), 10_000_000);
    assert_eq!(total_secondary_duration(&req.secondary_track), 15_000_000);
    let graph = compile(&req);
    let hold: Vec<&FilterNode> =
        graph.nodes.iter().filter(|n| matches!(n.op, FilterOp::Hold { .. })).collect();
    assert_eq!(hold.len(), 1);
    assert_eq!(hold[0].op, FilterOp::Hold { duration: 5_000_000 });
    assert_eq!(
        hold[0].inputs,
        vec![Label { kind: LabelKind::Concat, track: TrackKind::Main, index: 0 }]
    );
    let base = Label { kind: LabelKind::Base, track: TrackKind::Main, index: 0 };
    assert_eq!(hold[0].output, base);
    let overlay = graph.nodes.last().unwrap();
    assert_eq!(overlay.inputs[0], base);
    assert!(render(&graph).contains("[concat_m0]tpad=stop_mode=clone:stop_duration=5[base_m0]"));
}

#[test]
fn longer_main_track_is_passed_on() {
    let req = request(
        vec![clip("a.mp4", 10.0, 0.0, 10.0)],
        vec![pip("p.mp4", 4.0, None)],
    );
    let graph = compile(&req);
    assert!(graph.nodes.iter().all(|n| !matches!(n.op, FilterOp::Hold { .. })));
    let overlay = graph.nodes.last().unwrap();
    assert_eq!(
        overlay.inputs[0],
        Label { kind: LabelKind::Concat, track: TrackKind::Main, index: 0 }
    );
}

#[test]
fn empty_main_track_gets_a_background() {
    let req = request(Vec::new(), vec![pip("p.mp4", 3.0, None), pip("q.mp4", 4.5, None)]);
    let graph = compile(&req);
    assert_eq!(
        graph.nodes[0].op,
        FilterOp::ColorFill { width: 1280, height: 720, duration: 7_500_000 }
    );
    assert!(graph.nodes[0].inputs.is_empty());
    assert!(render(&graph).starts_with("color=black:size=1280x720:duration=7.5:rate=30[base_m0];"));
    assert!(graph.check_integrity());
}

#[test]
fn overlay_gates_are_cumulative() {
    let req = request(
        vec![clip("a.mp4", 20.0, 0.0, 20.0)],
        vec![pip("p.mp4", 3.0, None), pip("q.mp4", 4.0, None), pip("r.mp4", 2.0, None)],
    );
    let graph = compile(&req);
    assert_eq!(overlay_gates(&graph), vec![0, 3_000_000, 7_000_000]);
    let text = render(&graph);
    assert!(text.contains("enable='gte(t,0)'"));
    assert!(text.contains("enable='gte(t,3)'"));
    assert!(text.contains("enable='gte(t,7)'"));
}

#[test]
fn overlays_are_chained_in_track_order() {
    let req = request(
        vec![clip("a.mp4", 20.0, 0.0, 20.0)],
        vec![pip("p.mp4", 3.0, None), pip("q.mp4", 4.0, None)],
    );
    let graph = compile(&req);
    let overlays: Vec<&FilterNode> =
        graph.nodes.iter().filter(|n| matches!(n.op, FilterOp::Overlay { .. })).collect();
    assert_eq!(overlays.len(), 2);
    assert_eq!(overlays[1].inputs[0], overlays[0].output);
    assert_eq!(graph.output, overlays[1].output);
    assert_eq!(
        overlays[0].inputs[1],
        Label { kind: LabelKind::Placed, track: TrackKind::Secondary, index: 0 }
    );
    assert_eq!(graph.nodes.len(), 4 + 1 + 2 * 6);
}

#[test]
fn placement_is_rounded_to_pixels() {
    let place = PipSettings { x: 500_000, y: 333_333, width: 250_000, height: 100_000, opacity: 500_000 };
    let req = request(vec![clip("a.mp4", 5.0, 0.0, 5.0)], vec![pip("p.mp4", 5.0, Some(place))]);
    let graph = compile(&req);
    let n = graph.nodes.len();
    assert_eq!(
        graph.nodes[n - 1].op,
        FilterOp::Overlay { x: 640, y: 240, gate: 0, opacity: 500_000 }
    );
    assert_eq!(
        graph.nodes[n - 2].op,
        FilterOp::Scale { width: 320, height: 72, preserve_aspect: false }
    );
    assert_eq!(graph.nodes[n - 3].op, FilterOp::Pad { width: 1280, height: 720 });
    assert_eq!(graph.nodes[n - 2].inputs, vec![graph.nodes[n - 3].output]);
    assert_eq!(scale_extent(1280, 750_000), 960);
    assert_eq!(scale_extent(720, 750_000), 540);
    assert_eq!(scale_extent(3, 500_000), 2);
    assert_eq!(scale_extent(3, 499_999), 1);
    assert_eq!(scale_extent(1280, 0), 0);
    assert_eq!(scale_extent(1280, 1_000_000), 1280);
}

#[test]
fn default_placement_is_lower_right_quarter() {
    let req = request(vec![clip("a.mp4", 5.0, 0.0, 5.0)], vec![pip("p.mp4", 5.0, None)]);
    let graph = compile(&req);
    let text = render(&graph);
    assert!(text.ends_with(
        "[1:v]trim=start=0:duration=5[trim_s0];\
         [trim_s0]setpts=PTS-STARTPTS[retime_s0];\
         [retime_s0]scale=1280:720:force_original_aspect_ratio=decrease[fit_s0];\
         [fit_s0]pad=1280:720:(ow-iw)/2:(oh-ih)/2[clip_s0];\
         [clip_s0]scale=320:180[place_s0];\
         [concat_m0][place_s0]overlay=x=960:y=540:enable='gte(t,0)'[overlay_s0]"
    ));
}

#[test]
fn compiling_twice_gives_the_same_labels_once_each() {
    let req = request(
        vec![clip("a.mp4", 5.0, 0.0, 5.0), clip("b.mp4", 5.0, 0.0, 5.0)],
        vec![pip("p.mp4", 3.0, None), pip("q.mp4", 4.0, None)],
    );
    let first = compile(&req);
    let second = compile(&req);
    assert_eq!(first, second);
    for (i, a) in first.nodes.iter().enumerate() {
        for (j, b) in second.nodes.iter().enumerate() {
            if a.output == b.output {
                assert_eq!(i, j);
            }
        }
    }
    assert_eq!(render(&first), render(&second));
}

#[test]
fn dangling_input_fails_integrity() {
    let ghost = Label { kind: LabelKind::Clip, track: TrackKind::Main, index: 7 };
    let out = Label { kind: LabelKind::Concat, track: TrackKind::Main, index: 0 };
    let graph = FilterGraph {
        nodes: vec![FilterNode { op: FilterOp::Concat { count: 1 }, inputs: vec![ghost], output: out }],
        output: out,
        main_sources: 1,
        secondary_sources: 0,
    };
    assert!(!graph.check_integrity());
    assert_eq!(serialize(&graph), Err(ExportError::GraphIntegrity));
}

#[test]
fn repeated_output_fails_integrity() {
    let src = Label { kind: LabelKind::Source, track: TrackKind::Main, index: 0 };
    let out = Label { kind: LabelKind::Retimed, track: TrackKind::Main, index: 0 };
    let node = FilterNode { op: FilterOp::Retime, inputs: vec![src], output: out };
    let graph = FilterGraph {
        nodes: vec![node.clone(), node],
        output: out,
        main_sources: 1,
        secondary_sources: 0,
    };
    assert_eq!(serialize(&graph), Err(ExportError::GraphIntegrity));
}

#[test]
fn missing_source_fails_integrity() {
    let src = Label { kind: LabelKind::Source, track: TrackKind::Secondary, index: 0 };
    let out = Label { kind: LabelKind::Retimed, track: TrackKind::Secondary, index: 0 };
    let graph = FilterGraph {
        nodes: vec![FilterNode { op: FilterOp::Retime, inputs: vec![src], output: out }],
        output: out,
        main_sources: 1,
        secondary_sources: 0,
    };
    assert_eq!(serialize(&graph), Err(ExportError::GraphIntegrity));
}
