//! What holds of every compiled graph.

use vstd::prelude::*;
use crate::compile::{
    base_nodes, compiled_graph, composition_before, concat_label, gate_time, label,
    chain_node, made_base_label, main_clip_labels, main_duration, overlay_node,
    pip_durations, secondary_duration, total,
};
use crate::error::TrackKind;
use crate::graph::{lemma_inputs_agree, lemma_producer_unique, Dims, FilterOp, GraphView, Label, LabelKind, NodeView};
use crate::timeline::{ClipData, ExportResolution, PipClipData};

verus! {

/// Where the nodes of a compiled graph stand: the chains of the main track
/// first, four nodes each; then the one or two nodes of the base; then the
/// nodes of the secondary track, six each.
pub proof fn lemma_layout(
    main: Seq<ClipData>,
    secondary: Seq<PipClipData>,
    res: ExportResolution,
    t: int,
)
    requires
        0 <= t < compiled_graph(main, secondary, res).nodes.len(),
    ensures
        ({
            let g = compiled_graph(main, secondary, res);
            let n = main.len() as int;
            let b = base_nodes(main, secondary, res).len() as int;
            &&& 1 <= b <= 2
            &&& g.nodes.len() == 4 * n + b + 6 * secondary.len()
            &&& t < 4 * n ==> g.nodes[t] == chain_node(
                TrackKind::Main,
                main[t / 4],
                t / 4,
                t % 4,
                res,
            )
            &&& 4 * n <= t < 4 * n + b ==> g.nodes[t] == base_nodes(main, secondary, res)[t - 4 * n]
            &&& 4 * n + b <= t ==> g.nodes[t] == overlay_node(
                main,
                secondary,
                (t - 4 * n - b) / 6,
                (t - 4 * n - b) % 6,
                res,
            )
        }),
{
}

/// The tracks are no longer than a machine can hold.
pub open spec fn fits(main: Seq<ClipData>, secondary: Seq<PipClipData>) -> bool {
    main.len() <= usize::MAX && secondary.len() <= usize::MAX
}

/// The kind of stream that step `step` of a chain makes.
pub open spec fn main_step_kind(step: int) -> LabelKind {
    if step == 0 {
        LabelKind::Trimmed
    } else if step == 1 {
        LabelKind::Retimed
    } else if step == 2 {
        LabelKind::Fitted
    } else {
        LabelKind::Clip
    }
}

/// The kind of stream that step `step` for a secondary clip makes.
pub open spec fn pip_step_kind(step: int) -> LabelKind {
    if step < 4 {
        main_step_kind(step)
    } else if step == 4 {
        LabelKind::Placed
    } else {
        LabelKind::Overlay
    }
}

/// The stream that node `t` of a compiled graph makes.
pub open spec fn output_at(main: Seq<ClipData>, secondary: Seq<PipClipData>, res: ExportResolution, t: int)
    -> Label {
    let n = main.len() as int;
    let b = base_nodes(main, secondary, res).len() as int;
    if t < 4 * n {
        label(main_step_kind(t % 4), TrackKind::Main, t / 4)
    } else if t < 4 * n + b {
        if n > 0 && t == 4 * n {
            concat_label()
        } else {
            made_base_label()
        }
    } else {
        label(pip_step_kind((t - 4 * n - b) % 6), TrackKind::Secondary, (t - 4 * n - b) / 6)
    }
}

/// Node `t` of a compiled graph makes the stream `output_at` says.
pub proof fn lemma_output_at(
    main: Seq<ClipData>,
    secondary: Seq<PipClipData>,
    res: ExportResolution,
    t: int,
)
    requires
        0 <= t < compiled_graph(main, secondary, res).nodes.len(),
    ensures
        compiled_graph(main, secondary, res).nodes[t].output == output_at(main, secondary, res, t),
{
    lemma_layout(main, secondary, res, t);
}

/// No two nodes of a compiled graph make the same stream.
pub proof fn lemma_outputs_distinct(
    main: Seq<ClipData>,
    secondary: Seq<PipClipData>,
    res: ExportResolution,
    s: int,
    t: int,
)
    requires
        fits(main, secondary),
        0 <= s < compiled_graph(main, secondary, res).nodes.len(),
        0 <= t < compiled_graph(main, secondary, res).nodes.len(),
        compiled_graph(main, secondary, res).nodes[s].output == compiled_graph(
            main,
            secondary,
            res,
        ).nodes[t].output,
    ensures
        s == t,
{
    lemma_layout(main, secondary, res, s);
    lemma_layout(main, secondary, res, t);
    lemma_output_at(main, secondary, res, s);
    lemma_output_at(main, secondary, res, t);
}

/// The node of a compiled graph that makes the composition as it stands
/// before the secondary clip at `j` is laid on.
pub open spec fn composition_node(
    main: Seq<ClipData>,
    secondary: Seq<PipClipData>,
    res: ExportResolution,
    j: int,
) -> int {
    let n = main.len() as int;
    let b = base_nodes(main, secondary, res).len() as int;
    if j <= 0 {
        4 * n + b - 1
    } else {
        4 * n + b + 6 * (j - 1) + 5
    }
}

proof fn lemma_composition_node(
    main: Seq<ClipData>,
    secondary: Seq<PipClipData>,
    res: ExportResolution,
    j: int,
)
    requires
        0 <= j <= secondary.len(),
    ensures
        ({
            let g = compiled_graph(main, secondary, res);
            let p = composition_node(main, secondary, res, j);
            &&& 0 <= p < g.nodes.len()
            &&& p < 4 * main.len() + base_nodes(main, secondary, res).len() + 6 * j
            &&& g.nodes[p].output == composition_before(main, secondary, j)
        }),
{
    let p = composition_node(main, secondary, res, j);
    lemma_layout(main, secondary, res, p);
    lemma_output_at(main, secondary, res, p);
}

proof fn lemma_node_sound(
    main: Seq<ClipData>,
    secondary: Seq<PipClipData>,
    res: ExportResolution,
    t: int,
)
    requires
        fits(main, secondary),
        0 <= t < compiled_graph(main, secondary, res).nodes.len(),
    ensures
        compiled_graph(main, secondary, res).node_ok(t),
{
    let g = compiled_graph(main, secondary, res);
    let n = main.len() as int;
    let b = base_nodes(main, secondary, res).len() as int;
    lemma_layout(main, secondary, res, t);
    lemma_output_at(main, secondary, res, t);
    assert(!g.produced_before(g.nodes[t].output, t)) by {
        if g.produced_before(g.nodes[t].output, t) {
            let j = choose|j: int|
                0 <= j < t && j < g.nodes.len() && (#[trigger] g.nodes[j]).output
                    == g.nodes[t].output;
            lemma_outputs_distinct(main, secondary, res, j, t);
        }
    }
    assert forall|k: int| 0 <= k < g.nodes[t].inputs.len() implies g.available(
        #[trigger] g.nodes[t].inputs[k],
        t,
    ) by {
        let wanted = g.nodes[t].inputs[k];
        if t < 4 * n {
            if t % 4 != 0 {
                lemma_output_at(main, secondary, res, t - 1);
                assert(g.nodes[t - 1].output == wanted);
            }
        } else if t < 4 * n + b {
            if n > 0 && t == 4 * n {
                lemma_output_at(main, secondary, res, 4 * k + 3);
                assert(g.nodes[4 * k + 3].output == wanted);
            } else if n > 0 {
                lemma_output_at(main, secondary, res, 4 * n);
                assert(g.nodes[4 * n].output == wanted);
            }
        } else {
            let u = t - 4 * n - b;
            if u % 6 == 0 {
                assert(g.is_source(wanted));
            } else if u % 6 == 5 && k == 0 {
                lemma_composition_node(main, secondary, res, u / 6);
                let p = composition_node(main, secondary, res, u / 6);
                assert(g.nodes[p].output == wanted);
            } else {
                lemma_output_at(main, secondary, res, t - 1);
                assert(g.nodes[t - 1].output == wanted);
            }
        }
    }
}

/// Every compiled graph is sound: each stream that is read is an input file
/// or made by exactly one earlier node, and so is the result. Serializing a
/// compiled graph therefore never fails.
pub proof fn theorem_compiled_graph_sound(
    main: Seq<ClipData>,
    secondary: Seq<PipClipData>,
    res: ExportResolution,
)
    requires
        fits(main, secondary),
    ensures
        compiled_graph(main, secondary, res).wf(),
{
    let g = compiled_graph(main, secondary, res);
    assert forall|t: int| 0 <= t < g.nodes.len() implies #[trigger] g.node_ok(t) by {
        lemma_node_sound(main, secondary, res, t);
    }
    lemma_composition_node(main, secondary, res, secondary.len() as int);
    let p = composition_node(main, secondary, res, secondary.len() as int);
    lemma_layout(main, secondary, res, p);
    assert(g.nodes[p].output == g.output);
}

/// The size of the canvas.
pub open spec fn canvas(res: ExportResolution) -> Dims {
    Dims { width: res.width as int, height: res.height as int }
}

proof fn lemma_producer_at(
    main: Seq<ClipData>,
    secondary: Seq<PipClipData>,
    res: ExportResolution,
    t: int,
    limit: int,
)
    requires
        fits(main, secondary),
        0 <= t < limit <= compiled_graph(main, secondary, res).nodes.len(),
    ensures
        compiled_graph(main, secondary, res).producer(
            compiled_graph(main, secondary, res).nodes[t].output,
            limit,
        ) == Some(t),
{
    let g = compiled_graph(main, secondary, res);
    assert forall|j: int| 0 <= j < limit && j != t implies (#[trigger] g.nodes[j]).output
        != g.nodes[t].output by {
        if g.nodes[j].output == g.nodes[t].output {
            lemma_outputs_distinct(main, secondary, res, j, t);
        }
    }
    lemma_producer_unique(g, g.nodes[t].output, t, limit);
}

proof fn lemma_clip_dims(main: Seq<ClipData>, secondary: Seq<PipClipData>, res: ExportResolution, i: int)
    requires
        0 <= i < main.len(),
    ensures
        compiled_graph(main, secondary, res).dims_at(4 * i + 3) == Some(canvas(res)),
{
    lemma_layout(main, secondary, res, 4 * i + 3);
}

proof fn lemma_base_dims(main: Seq<ClipData>, secondary: Seq<PipClipData>, res: ExportResolution)
    requires
        fits(main, secondary),
    ensures
        compiled_graph(main, secondary, res).dims_at(composition_node(main, secondary, res, 0))
            == Some(canvas(res)),
{
    let g = compiled_graph(main, secondary, res);
    let n = main.len() as int;
    let b = base_nodes(main, secondary, res).len() as int;
    lemma_layout(main, secondary, res, 4 * n);
    if n > 0 {
        assert forall|k: int| 0 <= k < g.nodes[4 * n].inputs.len() implies #[trigger] g.input_dims(
            4 * n,
            k,
        ) == Some(canvas(res)) by {
            lemma_layout(main, secondary, res, 4 * k + 3);
            lemma_output_at(main, secondary, res, 4 * k + 3);
            lemma_producer_at(main, secondary, res, 4 * k + 3, 4 * n);
            lemma_clip_dims(main, secondary, res, k);
        }
        assert(g.nodes[4 * n].op is Concat);
        assert(g.nodes[4 * n].inputs.len() == n);
        assert(g.input_dims(4 * n, 0) == Some(canvas(res)));
        assert(forall|k: int|
            0 <= k < g.nodes[4 * n].inputs.len() ==> #[trigger] g.input_dims(4 * n, k)
                == g.input_dims(4 * n, 0));
        lemma_inputs_agree(g, 4 * n, n);
        assert(g.dims_at(4 * n) == Some(canvas(res)));
        if b == 2 {
            lemma_layout(main, secondary, res, 4 * n + 1);
            lemma_output_at(main, secondary, res, 4 * n);
            lemma_producer_at(main, secondary, res, 4 * n, 4 * n + 1);
            assert(g.input_dims(4 * n + 1, 0) == Some(canvas(res)));
        }
    }
}

proof fn lemma_composition_dims(
    main: Seq<ClipData>,
    secondary: Seq<PipClipData>,
    res: ExportResolution,
    j: int,
)
    requires
        fits(main, secondary),
        0 <= j <= secondary.len(),
    ensures
        compiled_graph(main, secondary, res).dims_at(composition_node(main, secondary, res, j))
            == Some(canvas(res)),
    decreases j,
{
    let g = compiled_graph(main, secondary, res);
    if j == 0 {
        lemma_base_dims(main, secondary, res);
    } else {
        let t = composition_node(main, secondary, res, j);
        let p = composition_node(main, secondary, res, j - 1);
        lemma_composition_dims(main, secondary, res, j - 1);
        lemma_composition_node(main, secondary, res, j - 1);
        lemma_layout(main, secondary, res, t);
        lemma_producer_at(main, secondary, res, p, t);
        assert(g.nodes[t].inputs[0] == g.nodes[p].output);
        assert(g.input_dims(t, 0) == g.dims_at(p));
    }
}

/// The result of every compiled graph has exactly the size of the canvas:
/// every chain of the main track ends padded to it, joining and holding keep
/// it, a background is made with it, and laying a clip over a stream keeps
/// the size of that stream.
pub proof fn theorem_output_has_canvas_size(
    main: Seq<ClipData>,
    secondary: Seq<PipClipData>,
    res: ExportResolution,
)
    requires
        fits(main, secondary),
    ensures
        compiled_graph(main, secondary, res).output_dims() == Some(canvas(res)),
{
    let g = compiled_graph(main, secondary, res);
    let m = secondary.len() as int;
    let p = composition_node(main, secondary, res, m);
    lemma_composition_node(main, secondary, res, m);
    lemma_composition_dims(main, secondary, res, m);
    lemma_layout(main, secondary, res, p);
    lemma_producer_at(main, secondary, res, p, g.nodes.len() as int);
}

/// A timeline with only a main track of `n` clips compiles to exactly `n`
/// chains, in track order, and one node that joins their outputs and makes
/// the result, which has the size of the canvas.
pub proof fn theorem_main_track_only(main: Seq<ClipData>, res: ExportResolution)
    requires
        0 < main.len() <= usize::MAX,
    ensures
        ({
            let g = compiled_graph(main, Seq::<PipClipData>::empty(), res);
            let n = main.len() as int;
            &&& g.nodes.len() == 4 * n + 1
            &&& forall|i: int, step: int|
                0 <= i < n && 0 <= step < 4 ==> #[trigger] g.nodes[4 * i + step]
                    == chain_node(TrackKind::Main, main[i], i, step, res)
            &&& g.nodes[4 * n] == (NodeView {
                op: FilterOp::Concat { count: n as usize },
                inputs: main_clip_labels(n as nat),
                output: g.output,
            })
            &&& g.output_dims() == Some(canvas(res))
        }),
{
    let secondary = Seq::<PipClipData>::empty();
    let g = compiled_graph(main, secondary, res);
    let n = main.len() as int;
    assert(pip_durations(secondary) =~= Seq::<u64>::empty());
    assert(secondary_duration(secondary) == 0);
    theorem_output_has_canvas_size(main, secondary, res);
    lemma_layout(main, secondary, res, 4 * n);
    assert forall|i: int, step: int| 0 <= i < n && 0 <= step < 4 implies #[trigger] g.nodes[4 * i
        + step] == chain_node(TrackKind::Main, main[i], i, step, res) by {
        lemma_layout(main, secondary, res, 4 * i + step);
    }
}

/// A sum of durations is at most as many times the largest duration as
/// there are terms.
pub proof fn lemma_total_bound(s: Seq<u64>)
    ensures
        total(s) <= s.len() * u64::MAX,
    decreases s.len(),
{
    if s.len() > 0 {
        lemma_total_bound(s.drop_last());
    }
}

/// The base of a composition is as long as the export. A main track that is
/// shorter than the secondary track is joined and then held for exactly the
/// difference; one that is at least as long is joined and passed on as it
/// is; and where there is no main track, a background of the length of the
/// secondary track takes its place.
pub proof fn theorem_base_reconciles(
    main: Seq<ClipData>,
    secondary: Seq<PipClipData>,
    res: ExportResolution,
)
    requires
        fits(main, secondary),
    ensures
        ({
            let g = compiled_graph(main, secondary, res);
            let n = main.len() as int;
            let base = composition_before(main, secondary, 0);
            if n == 0 {
                &&& g.nodes[0] == (NodeView {
                    op: FilterOp::ColorFill {
                        width: res.width,
                        height: res.height,
                        duration: secondary_duration(secondary) as u128,
                    },
                    inputs: Seq::<Label>::empty(),
                    output: base,
                })
                &&& secondary_duration(secondary) <= u128::MAX
            } else if main_duration(main) < secondary_duration(secondary) {
                &&& g.nodes[4 * n].op == (FilterOp::Concat { count: n as usize })
                &&& g.nodes[4 * n].inputs == main_clip_labels(n as nat)
                &&& g.nodes[4 * n + 1] == (NodeView {
                    op: FilterOp::Hold {
                        duration: (secondary_duration(secondary) - main_duration(main)) as u128,
                    },
                    inputs: seq![g.nodes[4 * n].output],
                    output: base,
                })
                &&& secondary_duration(secondary) <= u128::MAX
            } else {
                &&& g.nodes[4 * n] == (NodeView {
                    op: FilterOp::Concat { count: n as usize },
                    inputs: main_clip_labels(n as nat),
                    output: base,
                })
                &&& base_nodes(main, secondary, res).len() == 1
            }
        }),
{
    let n = main.len() as int;
    lemma_total_bound(pip_durations(secondary));
    assert(secondary.len() * u64::MAX <= usize::MAX * u64::MAX) by (nonlinear_arith)
        requires
            secondary.len() <= usize::MAX,
    ;
    assert(usize::MAX * u64::MAX <= u128::MAX) by (nonlinear_arith);
    if n == 0 {
        assert(main_duration(main) == 0) by {
            assert(crate::compile::clip_durations(main) =~= Seq::<u64>::empty());
        }
        lemma_layout(main, secondary, res, 0);
    } else {
        lemma_layout(main, secondary, res, 4 * n);
        if main_duration(main) < secondary_duration(secondary) {
            lemma_layout(main, secondary, res, 4 * n + 1);
        }
    }
}

/// When the secondary clip at `j` becomes visible: the first at zero, each
/// later one when the one before it has played.
pub proof fn lemma_gate_step(secondary: Seq<PipClipData>, j: int)
    requires
        0 <= j < secondary.len(),
    ensures
        gate_time(secondary, 0) == 0,
        gate_time(secondary, j + 1) == gate_time(secondary, j) + secondary[j].clip.duration,
{
    let durations = pip_durations(secondary);
    assert(durations.take(0) =~= Seq::<u64>::empty());
    assert(durations.take(j + 1).drop_last() =~= durations.take(j));
}

/// Gate times never decrease along the track.
pub proof fn lemma_gates_monotonic(secondary: Seq<PipClipData>, j: int, k: int)
    requires
        0 <= j <= k <= secondary.len(),
    ensures
        gate_time(secondary, j) <= gate_time(secondary, k),
    decreases k - j,
{
    if j < k {
        lemma_gates_monotonic(secondary, j, k - 1);
        lemma_gate_step(secondary, k - 1);
    }
}

/// A part of an extent is no larger than the extent.
pub proof fn lemma_scaled_bound(extent: nat, fraction: nat)
    requires
        fraction <= 1_000_000,
    ensures
        crate::compile::scaled(extent, fraction) <= extent,
{
    assert(extent * fraction <= extent * 1_000_000) by (nonlinear_arith)
        requires
            fraction <= 1_000_000,
    ;
}

/// The secondary clips are laid on one after the other, in track order: the
/// clip at `j` ends its chain padded to the canvas, is scaled from there to
/// the rectangle of its placement, is laid onto the composition that the
/// clip before it left (the first onto the base), and is visible from the
/// time on at which all clips before it have played.
pub proof fn theorem_overlays_in_sequence(
    main: Seq<ClipData>,
    secondary: Seq<PipClipData>,
    res: ExportResolution,
    j: int,
)
    requires
        fits(main, secondary),
        0 <= j < secondary.len(),
        secondary[j].wf(),
    ensures
        ({
            let g = compiled_graph(main, secondary, res);
            let t = composition_node(main, secondary, res, j + 1);
            &&& 0 <= t < g.nodes.len()
            &&& g.nodes[t].op matches FilterOp::Overlay { x, y, gate, opacity }
            &&& gate == gate_time(secondary, j)
            &&& x == crate::compile::scaled(
                res.width as nat,
                secondary[j].placement().x as nat,
            )
            &&& y == crate::compile::scaled(
                res.height as nat,
                secondary[j].placement().y as nat,
            )
            &&& opacity == secondary[j].placement().opacity
            &&& g.nodes[t].inputs == seq![
                composition_before(main, secondary, j),
                g.nodes[t - 1].output,
            ]
            &&& g.nodes[t - 2].op == (FilterOp::Pad { width: res.width, height: res.height })
            &&& g.nodes[t - 1].inputs == seq![g.nodes[t - 2].output]
            &&& g.nodes[t - 1].op == (FilterOp::Scale {
                width: crate::compile::scaled(
                    res.width as nat,
                    secondary[j].placement().width as nat,
                ) as u32,
                height: crate::compile::scaled(
                    res.height as nat,
                    secondary[j].placement().height as nat,
                ) as u32,
                preserve_aspect: false,
            })
            &&& g.nodes[t].output == composition_before(main, secondary, j + 1)
        }),
{
    let t = composition_node(main, secondary, res, j + 1);
    lemma_composition_node(main, secondary, res, j + 1);
    lemma_layout(main, secondary, res, t);
    lemma_layout(main, secondary, res, t - 1);
    lemma_layout(main, secondary, res, t - 2);
    lemma_total_bound(pip_durations(secondary).take(j));
    let place = secondary[j].placement();
    lemma_scaled_bound(res.width as nat, place.x as nat);
    lemma_scaled_bound(res.height as nat, place.y as nat);
    lemma_scaled_bound(res.width as nat, place.width as nat);
    lemma_scaled_bound(res.height as nat, place.height as nat);
    assert(j * u64::MAX <= usize::MAX * u64::MAX) by (nonlinear_arith)
        requires
            0 <= j <= usize::MAX,
    ;
    assert(usize::MAX * u64::MAX <= u128::MAX) by (nonlinear_arith);
}

/// Compiling the same timeline twice gives two graphs that cannot be told
/// apart by a label: a label that both use names the same node at the same
/// place in both, so neither graph uses a label for anything but what the
/// other uses it for. Labels depend on the track and the position of a clip
/// alone, not on what was compiled before.
pub proof fn theorem_recompiling_gives_no_collision(
    main: Seq<ClipData>,
    secondary: Seq<PipClipData>,
    res: ExportResolution,
    first: GraphView,
    second: GraphView,
    i: int,
    j: int,
)
    requires
        fits(main, secondary),
        first == compiled_graph(main, secondary, res),
        second == compiled_graph(main, secondary, res),
        0 <= i < first.nodes.len(),
        0 <= j < second.nodes.len(),
        first.nodes[i].output == second.nodes[j].output,
    ensures
        i == j,
        first.nodes[i] == second.nodes[j],
{
    lemma_outputs_distinct(main, secondary, res, i, j);
}

/// No two nodes of a compiled graph make streams that read alike to the
/// engine: the labels are different, and different labels are written
/// differently.
pub proof fn theorem_written_labels_distinct(
    main: Seq<ClipData>,
    secondary: Seq<PipClipData>,
    res: ExportResolution,
    s: int,
    t: int,
)
    requires
        fits(main, secondary),
        0 <= s < compiled_graph(main, secondary, res).nodes.len(),
        0 <= t < compiled_graph(main, secondary, res).nodes.len(),
        s != t,
    ensures
        crate::serialize::label_text(
            compiled_graph(main, secondary, res).nodes[s].output,
            main.len(),
        ) != crate::serialize::label_text(
            compiled_graph(main, secondary, res).nodes[t].output,
            main.len(),
        ),
{
    let g = compiled_graph(main, secondary, res);
    lemma_output_at(main, secondary, res, s);
    lemma_output_at(main, secondary, res, t);
    if crate::serialize::label_text(g.nodes[s].output, main.len())
        == crate::serialize::label_text(g.nodes[t].output, main.len()) {
        crate::serialize::theorem_label_text_injective(
            g.nodes[s].output,
            g.nodes[t].output,
            main.len(),
        );
        lemma_outputs_distinct(main, secondary, res, s, t);
    }
}

} // verus!
