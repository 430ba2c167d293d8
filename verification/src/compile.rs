//! The compiler from an admitted timeline to a processing graph: a chain for
//! every clip, the main track joined and brought to length, and the clips of
//! the secondary track laid over it one after the other.

use vstd::prelude::*;
use crate::error::TrackKind;
use crate::graph::{node_views, FilterGraph, FilterNode, FilterOp, GraphView, Label, LabelKind, NodeView};
use crate::timeline::{ClipData, ExportRequest, ExportResolution, PipClipData, PipSettings};

verus! {

/// The sum of `s`.
pub open spec fn total(s: Seq<u64>) -> nat
    decreases s.len(),
{
    if s.len() == 0 {
        0
    } else {
        total(s.drop_last()) + s.last() as nat
    }
}

/// How long each clip of the main track plays.
pub open spec fn clip_durations(main: Seq<ClipData>) -> Seq<u64> {
    main.map_values(|c: ClipData| c.duration)
}

/// How long each clip of the secondary track plays.
pub open spec fn pip_durations(secondary: Seq<PipClipData>) -> Seq<u64> {
    secondary.map_values(|c: PipClipData| c.clip.duration)
}

/// How long the main track plays.
pub open spec fn main_duration(main: Seq<ClipData>) -> nat {
    total(clip_durations(main))
}

/// How long the secondary track plays.
pub open spec fn secondary_duration(secondary: Seq<PipClipData>) -> nat {
    total(pip_durations(secondary))
}

/// How long the export plays: as long as the longer track.
pub open spec fn target_duration(main: Seq<ClipData>, secondary: Seq<PipClipData>) -> nat {
    if main_duration(main) >= secondary_duration(secondary) {
        main_duration(main)
    } else {
        secondary_duration(secondary)
    }
}

/// When the secondary clip at `j` becomes visible: when those before it have
/// played.
pub open spec fn gate_time(secondary: Seq<PipClipData>, j: int) -> nat {
    total(pip_durations(secondary).take(j))
}

/// The part `fraction`, in millionths, of `extent` pixels, rounded to the
/// nearest pixel, halves upwards.
pub open spec fn scaled(extent: nat, fraction: nat) -> nat {
    (extent * fraction + 500_000) / 1_000_000
}

/// The label of the stream that step `kind` makes for the clip at `index` of
/// `track`.
pub open spec fn label(kind: LabelKind, track: TrackKind, index: int) -> Label {
    Label { kind, track, index: index as usize }
}

/// The four nodes of the chain of the clip at `i` of `track`: trim to the
/// window, restart the clock, scale to fit the canvas, pad to exactly the
/// canvas.
pub open spec fn chain_node(
    track: TrackKind,
    clip: ClipData,
    i: int,
    step: int,
    res: ExportResolution,
) -> NodeView {
    if step == 0 {
        NodeView {
            op: FilterOp::Trim {
                start: clip.trim_start() as u64,
                duration: clip.trim_duration() as u64,
            },
            inputs: seq![label(LabelKind::Source, track, i)],
            output: label(LabelKind::Trimmed, track, i),
        }
    } else if step == 1 {
        NodeView {
            op: FilterOp::Retime,
            inputs: seq![label(LabelKind::Trimmed, track, i)],
            output: label(LabelKind::Retimed, track, i),
        }
    } else if step == 2 {
        NodeView {
            op: FilterOp::Scale { width: res.width, height: res.height, preserve_aspect: true },
            inputs: seq![label(LabelKind::Retimed, track, i)],
            output: label(LabelKind::Fitted, track, i),
        }
    } else {
        NodeView {
            op: FilterOp::Pad { width: res.width, height: res.height },
            inputs: seq![label(LabelKind::Fitted, track, i)],
            output: label(LabelKind::Clip, track, i),
        }
    }
}

/// The chains of all clips of the main track, in track order.
pub open spec fn main_chains(main: Seq<ClipData>, res: ExportResolution) -> Seq<NodeView> {
    Seq::new(
        4 * main.len(),
        |k: int| chain_node(TrackKind::Main, main[k / 4], k / 4, k % 4, res),
    )
}

/// The outputs of the chains of the main track, in track order.
pub open spec fn main_clip_labels(count: nat) -> Seq<Label> {
    Seq::new(count, |i: int| label(LabelKind::Clip, TrackKind::Main, i))
}

/// The stream of the joined main track.
pub open spec fn concat_label() -> Label {
    label(LabelKind::Concat, TrackKind::Main, 0)
}

/// The stream made for the composition where the joined main track does not
/// do as it is.
pub open spec fn made_base_label() -> Label {
    label(LabelKind::Base, TrackKind::Main, 0)
}

/// The nodes that make the composition base for a main track of `count`
/// clips that plays `main_total`, in an export that plays `target`. With a
/// main track: its chains joined, and, where that is shorter than the
/// export, its last frame held for the difference. Without one: a background
/// of the full length.
pub open spec fn base_nodes_for(count: nat, main_total: nat, target: nat, res: ExportResolution)
    -> Seq<NodeView> {
    if count == 0 {
        seq![
            NodeView {
                op: FilterOp::ColorFill {
                    width: res.width,
                    height: res.height,
                    duration: target as u128,
                },
                inputs: Seq::<Label>::empty(),
                output: made_base_label(),
            },
        ]
    } else {
        let concat = NodeView {
            op: FilterOp::Concat { count: count as usize },
            inputs: main_clip_labels(count),
            output: concat_label(),
        };
        if main_total < target {
            seq![
                concat,
                NodeView {
                    op: FilterOp::Hold { duration: (target - main_total) as u128 },
                    inputs: seq![concat_label()],
                    output: made_base_label(),
                },
            ]
        } else {
            seq![concat]
        }
    }
}

/// The stream that `base_nodes_for` ends in.
pub open spec fn base_label_for(count: nat, main_total: nat, target: nat) -> Label {
    if count == 0 || main_total < target {
        made_base_label()
    } else {
        concat_label()
    }
}

/// The nodes that make the composition base of a timeline.
pub open spec fn base_nodes(
    main: Seq<ClipData>,
    secondary: Seq<PipClipData>,
    res: ExportResolution,
) -> Seq<NodeView> {
    base_nodes_for(main.len(), main_duration(main), target_duration(main, secondary), res)
}

/// The stream onto which the first secondary clip is laid.
pub open spec fn base_label(main: Seq<ClipData>, secondary: Seq<PipClipData>) -> Label {
    base_label_for(main.len(), main_duration(main), target_duration(main, secondary))
}

/// The composition as it stands before the secondary clip at `j` is laid on.
pub open spec fn composition_before(
    main: Seq<ClipData>,
    secondary: Seq<PipClipData>,
    j: int,
) -> Label {
    if j <= 0 {
        base_label(main, secondary)
    } else {
        label(LabelKind::Overlay, TrackKind::Secondary, j - 1)
    }
}

/// The six nodes for a secondary clip at `j`: its chain, which ends padded
/// to the canvas; the scaling of that to the rectangle of its placement,
/// whatever its shape; and the laying of the result onto the stream
/// `below`, visible from `gate` on.
pub open spec fn pip_chain_node(
    pip: PipClipData,
    j: int,
    step: int,
    below: Label,
    gate: nat,
    res: ExportResolution,
) -> NodeView {
    let place = pip.placement();
    if step < 4 {
        chain_node(TrackKind::Secondary, pip.clip, j, step, res)
    } else if step == 4 {
        NodeView {
            op: FilterOp::Scale {
                width: scaled(res.width as nat, place.width as nat) as u32,
                height: scaled(res.height as nat, place.height as nat) as u32,
                preserve_aspect: false,
            },
            inputs: seq![label(LabelKind::Clip, TrackKind::Secondary, j)],
            output: label(LabelKind::Placed, TrackKind::Secondary, j),
        }
    } else {
        NodeView {
            op: FilterOp::Overlay {
                x: scaled(res.width as nat, place.x as nat) as u32,
                y: scaled(res.height as nat, place.y as nat) as u32,
                gate: gate as u128,
                opacity: place.opacity,
            },
            inputs: seq![below, label(LabelKind::Placed, TrackKind::Secondary, j)],
            output: label(LabelKind::Overlay, TrackKind::Secondary, j),
        }
    }
}

/// Step `step` of the nodes for the secondary clip at `j` of a timeline.
pub open spec fn overlay_node(
    main: Seq<ClipData>,
    secondary: Seq<PipClipData>,
    j: int,
    step: int,
    res: ExportResolution,
) -> NodeView {
    pip_chain_node(
        secondary[j],
        j,
        step,
        composition_before(main, secondary, j),
        gate_time(secondary, j),
        res,
    )
}

/// The nodes for all clips of the secondary track, in track order.
pub open spec fn overlay_nodes(
    main: Seq<ClipData>,
    secondary: Seq<PipClipData>,
    res: ExportResolution,
) -> Seq<NodeView> {
    Seq::new(6 * secondary.len(), |k: int| overlay_node(main, secondary, k / 6, k % 6, res))
}

/// The graph that a timeline compiles to.
pub open spec fn compiled_graph(
    main: Seq<ClipData>,
    secondary: Seq<PipClipData>,
    res: ExportResolution,
) -> GraphView {
    GraphView {
        nodes: main_chains(main, res) + base_nodes(main, secondary, res) + overlay_nodes(
            main,
            secondary,
            res,
        ),
        output: composition_before(main, secondary, secondary.len() as int),
        main_sources: main.len(),
        secondary_sources: secondary.len(),
    }
}

/// The chain of one clip.
pub open spec fn clip_chain(track: TrackKind, clip: ClipData, i: int, res: ExportResolution) -> Seq<
    NodeView,
> {
    Seq::new(4, |step: int| chain_node(track, clip, i, step, res))
}

/// The nodes for one secondary clip.
pub open spec fn pip_chain(pip: PipClipData, j: int, below: Label, gate: nat, res: ExportResolution)
    -> Seq<NodeView> {
    Seq::new(6, |step: int| pip_chain_node(pip, j, step, below, gate, res))
}

fn make_label(kind: LabelKind, track: TrackKind, index: usize) -> (l: Label)
    ensures
        l == label(kind, track, index as int),
{
    Label { kind, track, index }
}

fn unary_node(op: FilterOp, input: Label, output: Label) -> (n: FilterNode)
    ensures
        n@ == (NodeView { op, inputs: seq![input], output }),
{
    let mut inputs: Vec<Label> = Vec::new();
    inputs.push(input);
    assert(inputs@ =~= seq![input]);
    FilterNode { op, inputs, output }
}

proof fn lemma_views_push(nodes: Seq<FilterNode>, n: FilterNode)
    ensures
        node_views(nodes.push(n)) == node_views(nodes).push(n@),
{
    assert(node_views(nodes.push(n)) =~= node_views(nodes).push(n@));
}

fn push_node(nodes: &mut Vec<FilterNode>, n: FilterNode)
    ensures
        node_views(final(nodes)@) == node_views(old(nodes)@).push(n@),
        final(nodes)@.len() == old(nodes)@.len() + 1,
{
    proof {
        lemma_views_push(nodes@, n);
    }
    nodes.push(n);
}

/// The part `fraction`, in millionths, of `extent` pixels, rounded to the
/// nearest pixel.
pub fn scale_extent(extent: u32, fraction: u64) -> (r: u32)
    requires
        fraction <= 1_000_000,
    ensures
        r == scaled(extent as nat, fraction as nat),
        r <= extent,
{
    assert(extent * fraction <= extent * 1_000_000) by (nonlinear_arith)
        requires
            fraction <= 1_000_000,
    ;
    let product: u128 = (extent as u128) * (fraction as u128);
    let rounded: u128 = (product + 500_000) / 1_000_000;
    rounded as u32
}

/// Emits the chain of the clip at `index` of `track`: trim to its window,
/// restart the clock, scale to fit the canvas, pad to exactly the canvas.
pub fn compile_clip_chain(
    nodes: &mut Vec<FilterNode>,
    track: TrackKind,
    clip: &ClipData,
    index: usize,
    res: ExportResolution,
)
    requires
        clip.has_window(),
    ensures
        node_views(final(nodes)@) == node_views(old(nodes)@) + clip_chain(
            track,
            *clip,
            index as int,
            res,
        ),
{
    let start: u64 = clip.effective_start();
    let duration: u64 = match clip.effective_duration() {
        Some(d) => d,
        None => 0,
    };
    let source: Label = make_label(LabelKind::Source, track, index);
    let trimmed: Label = make_label(LabelKind::Trimmed, track, index);
    let retimed: Label = make_label(LabelKind::Retimed, track, index);
    let fitted: Label = make_label(LabelKind::Fitted, track, index);
    let done: Label = make_label(LabelKind::Clip, track, index);
    push_node(nodes, unary_node(FilterOp::Trim { start, duration }, source, trimmed));
    push_node(nodes, unary_node(FilterOp::Retime, trimmed, retimed));
    push_node(
        nodes,
        unary_node(
            FilterOp::Scale { width: res.width, height: res.height, preserve_aspect: true },
            retimed,
            fitted,
        ),
    );
    push_node(nodes, unary_node(FilterOp::Pad { width: res.width, height: res.height }, fitted, done));
    assert(node_views(nodes@) =~= node_views(old(nodes)@) + clip_chain(
        track,
        *clip,
        index as int,
        res,
    ));
}

/// How long the main track plays.
pub fn total_main_duration(clips: &Vec<ClipData>) -> (t: u128)
    ensures
        t == main_duration(clips@),
{
    let ghost durations = clip_durations(clips@);
    let mut t: u128 = 0;
    let mut i: usize = 0;
    while i < clips.len()
        invariant
            i <= clips.len(),
            durations == clip_durations(clips@),
            t == total(durations.take(i as int)),
            t <= i * u64::MAX,
        decreases clips.len() - i,
    {
        proof {
            assert(durations.take(i + 1).drop_last() =~= durations.take(i as int));
            assert(durations.take(i + 1).last() == clips@[i as int].duration);
        }
        t = t + clips[i].duration as u128;
        i += 1;
    }
    assert(durations.take(clips.len() as int) =~= durations);
    t
}

/// How long the secondary track plays.
pub fn total_secondary_duration(clips: &Vec<PipClipData>) -> (t: u128)
    ensures
        t == secondary_duration(clips@),
{
    let ghost durations = pip_durations(clips@);
    let mut t: u128 = 0;
    let mut i: usize = 0;
    while i < clips.len()
        invariant
            i <= clips.len(),
            durations == pip_durations(clips@),
            t == total(durations.take(i as int)),
            t <= i * u64::MAX,
        decreases clips.len() - i,
    {
        proof {
            assert(durations.take(i + 1).drop_last() =~= durations.take(i as int));
            assert(durations.take(i + 1).last() == clips@[i as int].clip.duration);
        }
        t = t + clips[i].clip.duration as u128;
        i += 1;
    }
    assert(durations.take(clips.len() as int) =~= durations);
    t
}

fn clip_labels(count: usize) -> (labels: Vec<Label>)
    ensures
        labels@ == main_clip_labels(count as nat),
{
    let mut labels: Vec<Label> = Vec::new();
    let mut i: usize = 0;
    while i < count
        invariant
            i <= count,
            labels@.len() == i,
            forall|k: int| 0 <= k < i ==> labels@[k] == label(LabelKind::Clip, TrackKind::Main, k),
        decreases count - i,
    {
        labels.push(make_label(LabelKind::Clip, TrackKind::Main, i));
        i += 1;
    }
    assert(labels@ =~= main_clip_labels(count as nat));
    labels
}

/// Emits the composition base for a main track of `count` clips that plays
/// `main_total`, in an export that plays `target`, and returns its label:
/// the chains joined and, where needed, held; or a background where the main
/// track is empty.
pub fn compile_base(
    nodes: &mut Vec<FilterNode>,
    count: usize,
    main_total: u128,
    target: u128,
    res: ExportResolution,
) -> (base: Label)
    ensures
        node_views(final(nodes)@) == node_views(old(nodes)@) + base_nodes_for(
            count as nat,
            main_total as nat,
            target as nat,
            res,
        ),
        base == base_label_for(count as nat, main_total as nat, target as nat),
{
    let made: Label = make_label(LabelKind::Base, TrackKind::Main, 0);
    let joined: Label = make_label(LabelKind::Concat, TrackKind::Main, 0);
    if count == 0 {
        let fill = FilterNode {
            op: FilterOp::ColorFill { width: res.width, height: res.height, duration: target },
            inputs: Vec::new(),
            output: made,
        };
        assert(fill@.inputs =~= Seq::<Label>::empty());
        push_node(nodes, fill);
        assert(node_views(nodes@) =~= node_views(old(nodes)@) + base_nodes_for(
            count as nat,
            main_total as nat,
            target as nat,
            res,
        ));
        made
    } else {
        let concat = FilterNode {
            op: FilterOp::Concat { count },
            inputs: clip_labels(count),
            output: joined,
        };
        push_node(nodes, concat);
        if main_total < target {
            push_node(
                nodes,
                unary_node(FilterOp::Hold { duration: target - main_total }, joined, made),
            );
            assert(node_views(nodes@) =~= node_views(old(nodes)@) + base_nodes_for(
                count as nat,
                main_total as nat,
                target as nat,
                res,
            ));
            made
        } else {
            assert(node_views(nodes@) =~= node_views(old(nodes)@) + base_nodes_for(
                count as nat,
                main_total as nat,
                target as nat,
                res,
            ));
            joined
        }
    }
}

/// Emits the nodes for the secondary clip at `index` and returns the label
/// of the new composition: the chain of the clip, the scaling of its output
/// to the rectangle of its placement, and the laying of that onto `below`,
/// visible from `gate` on.
pub fn compile_overlay(
    nodes: &mut Vec<FilterNode>,
    pip: &PipClipData,
    index: usize,
    below: Label,
    gate: u128,
    res: ExportResolution,
) -> (above: Label)
    requires
        pip.clip.has_window(),
        pip.wf(),
    ensures
        node_views(final(nodes)@) == node_views(old(nodes)@) + pip_chain(
            *pip,
            index as int,
            below,
            gate as nat,
            res,
        ),
        above == label(LabelKind::Overlay, TrackKind::Secondary, index as int),
{
    let place: PipSettings = pip.resolve_placement();
    let done: Label = make_label(LabelKind::Clip, TrackKind::Secondary, index);
    let placed: Label = make_label(LabelKind::Placed, TrackKind::Secondary, index);
    let above: Label = make_label(LabelKind::Overlay, TrackKind::Secondary, index);
    compile_clip_chain(nodes, TrackKind::Secondary, &pip.clip, index, res);
    push_node(
        nodes,
        unary_node(
            FilterOp::Scale {
                width: scale_extent(res.width, place.width),
                height: scale_extent(res.height, place.height),
                preserve_aspect: false,
            },
            done,
            placed,
        ),
    );
    let mut inputs: Vec<Label> = Vec::new();
    inputs.push(below);
    inputs.push(placed);
    assert(inputs@ =~= seq![below, placed]);
    push_node(
        nodes,
        FilterNode {
            op: FilterOp::Overlay {
                x: scale_extent(res.width, place.x),
                y: scale_extent(res.height, place.y),
                gate,
                opacity: place.opacity,
            },
            inputs,
            output: above,
        },
    );
    assert(node_views(nodes@) =~= node_views(old(nodes)@) + pip_chain(
        *pip,
        index as int,
        below,
        gate as nat,
        res,
    ));
    above
}

/// Compiles an admitted timeline into its processing graph.
pub fn compile(request: &ExportRequest) -> (graph: FilterGraph)
    requires
        request.wf(),
    ensures
        graph@ == compiled_graph(
            request.main_track@,
            request.secondary_track@,
            request.resolution,
        ),
{
    let res: ExportResolution = request.resolution;
    let ghost main = request.main_track@;
    let ghost secondary = request.secondary_track@;
    proof {
        crate::timeline::lemma_first_where(main, crate::timeline::windowless());
        crate::timeline::lemma_first_where(secondary, crate::timeline::pip_windowless());
    }
    let mut nodes: Vec<FilterNode> = Vec::new();
    assert(node_views(nodes@) =~= main_chains(main, res).take(0));
    let mut i: usize = 0;
    while i < request.main_track.len()
        invariant
            i <= request.main_track.len(),
            main == request.main_track@,
            res == request.resolution,
            forall|k: int| 0 <= k < main.len() ==> (#[trigger] main[k]).has_window(),
            node_views(nodes@) == main_chains(main, res).take(4 * i),
        decreases request.main_track.len() - i,
    {
        compile_clip_chain(&mut nodes, TrackKind::Main, &request.main_track[i], i, res);
        assert(main_chains(main, res).take(4 * i) + clip_chain(
            TrackKind::Main,
            main[i as int],
            i as int,
            res,
        ) =~= main_chains(main, res).take(4 * (i + 1)));
        i += 1;
    }
    assert(main_chains(main, res).take(4 * i) =~= main_chains(main, res));
    let main_total: u128 = total_main_duration(&request.main_track);
    let secondary_total: u128 = total_secondary_duration(&request.secondary_track);
    let target: u128 = if main_total >= secondary_total {
        main_total
    } else {
        secondary_total
    };
    let mut below: Label = compile_base(
        &mut nodes,
        request.main_track.len(),
        main_total,
        target,
        res,
    );
    let ghost fixed = main_chains(main, res) + base_nodes(main, secondary, res);
    assert(node_views(nodes@) =~= fixed + overlay_nodes(main, secondary, res).take(0));
    let ghost durations = pip_durations(secondary);
    let mut gate: u128 = 0;
    let mut j: usize = 0;
    while j < request.secondary_track.len()
        invariant
            j <= request.secondary_track.len(),
            main == request.main_track@,
            secondary == request.secondary_track@,
            res == request.resolution,
            durations == pip_durations(secondary),
            fixed == main_chains(main, res) + base_nodes(main, secondary, res),
            forall|k: int| 0 <= k < secondary.len() ==> (#[trigger] secondary[k]).clip.has_window(),
            forall|k: int| 0 <= k < secondary.len() ==> (#[trigger] secondary[k]).wf(),
            node_views(nodes@) == fixed + overlay_nodes(main, secondary, res).take(6 * j),
            below == composition_before(main, secondary, j as int),
            gate == gate_time(secondary, j as int),
            gate <= j * u64::MAX,
        decreases request.secondary_track.len() - j,
    {
        let ghost before = node_views(nodes@);
        below = compile_overlay(&mut nodes, &request.secondary_track[j], j, below, gate, res);
        proof {
            assert(durations.take(j + 1).drop_last() =~= durations.take(j as int));
            assert(durations.take(j + 1).last() == secondary[j as int].clip.duration);
            assert(overlay_nodes(main, secondary, res).take(6 * j) + pip_chain(
                secondary[j as int],
                j as int,
                composition_before(main, secondary, j as int),
                gate as nat,
                res,
            ) =~= overlay_nodes(main, secondary, res).take(6 * (j + 1)));
            assert(node_views(nodes@) =~= fixed + overlay_nodes(main, secondary, res).take(
                6 * (j + 1),
            ));
        }
        gate = gate + request.secondary_track[j].clip.duration as u128;
        j += 1;
    }
    assert(overlay_nodes(main, secondary, res).take(6 * j) =~= overlay_nodes(
        main,
        secondary,
        res,
    ));
    let graph = FilterGraph {
        nodes,
        output: below,
        main_sources: request.main_track.len(),
        secondary_sources: request.secondary_track.len(),
    };
    graph
}

} // verus!
