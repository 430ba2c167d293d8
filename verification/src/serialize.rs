//! The serializer: checks that a graph is sound and writes it in the
//! engine's textual form.

use vstd::prelude::*;
use crate::error::{ExportError, TrackKind};
use crate::graph::{node_views, FilterGraph, FilterNode, FilterOp, GraphView, Label, LabelKind, NodeView};
use crate::text::{
    decimal, fixed_text, is_digit, lemma_decimal_digits, lemma_decimal_injective, push_decimal,
    push_fixed,
};

verus! {

/// The word that stands for a kind of stream in a label; an input file has
/// none.
pub open spec fn kind_word(kind: LabelKind) -> Seq<char> {
    match kind {
        LabelKind::Source => Seq::<char>::empty(),
        LabelKind::Trimmed => "trim"@,
        LabelKind::Retimed => "retime"@,
        LabelKind::Fitted => "fit"@,
        LabelKind::Clip => "clip"@,
        LabelKind::Placed => "place"@,
        LabelKind::Concat => "concat"@,
        LabelKind::Base => "base"@,
        LabelKind::Overlay => "overlay"@,
    }
}

/// The letters that stand for a track in a label.
pub open spec fn track_word(track: TrackKind) -> Seq<char> {
    match track {
        TrackKind::Main => "_m"@,
        TrackKind::Secondary => "_s"@,
    }
}

/// The position among all input files of the file that `label` names: those
/// of the main track come first.
pub open spec fn source_index(label: Label, main_sources: nat) -> nat {
    match label.track {
        TrackKind::Main => label.index as nat,
        TrackKind::Secondary => main_sources + label.index as nat,
    }
}

/// A label as the engine reads it. An input file is named by its position
/// among all input files; any other stream by the step that makes it,
/// followed by the track and the position of the clip it is made for.
pub open spec fn label_text(label: Label, main_sources: nat) -> Seq<char> {
    if label.kind == LabelKind::Source {
        "["@ + decimal(source_index(label, main_sources)) + ":v]"@
    } else {
        "["@ + kind_word(label.kind) + track_word(label.track) + decimal(label.index as nat)
            + "]"@
    }
}

/// The labels of `labels`, one after the other.
pub open spec fn labels_text(labels: Seq<Label>, main_sources: nat) -> Seq<char>
    decreases labels.len(),
{
    if labels.len() == 0 {
        Seq::<char>::empty()
    } else {
        labels_text(labels.drop_last(), main_sources) + label_text(labels.last(), main_sources)
    }
}

/// An operation with its parameters as the engine reads it. Opacity is not
/// written: the engine's overlay takes none.
pub open spec fn op_text(op: FilterOp) -> Seq<char> {
    match op {
        FilterOp::Trim { start, duration } => "trim=start="@ + fixed_text(start as nat)
            + ":duration="@ + fixed_text(duration as nat),
        FilterOp::Retime => "setpts=PTS-STARTPTS"@,
        FilterOp::Scale { width, height, preserve_aspect } => if preserve_aspect {
            "scale="@ + decimal(width as nat) + ":"@ + decimal(height as nat)
                + ":force_original_aspect_ratio=decrease"@
        } else {
            "scale="@ + decimal(width as nat) + ":"@ + decimal(height as nat)
        },
        FilterOp::Pad { width, height } => "pad="@ + decimal(width as nat) + ":"@ + decimal(
            height as nat,
        ) + ":(ow-iw)/2:(oh-ih)/2"@,
        FilterOp::Concat { count } => "concat=n="@ + decimal(count as nat) + ":v=1:a=0"@,
        FilterOp::Hold { duration } => "tpad=stop_mode=clone:stop_duration="@ + fixed_text(
            duration as nat,
        ),
        FilterOp::ColorFill { width, height, duration } => "color=black:size="@ + decimal(
            width as nat,
        ) + "x"@ + decimal(height as nat) + ":duration="@ + fixed_text(duration as nat)
            + ":rate=30"@,
        FilterOp::Overlay { x, y, gate, opacity } => "overlay=x="@ + decimal(x as nat) + ":y="@
            + decimal(y as nat) + ":enable='gte(t,"@ + fixed_text(gate as nat) + ")'"@,
    }
}

/// A node as the engine reads it: the labels it reads, the operation, the
/// label it makes.
pub open spec fn node_text(node: NodeView, main_sources: nat) -> Seq<char> {
    labels_text(node.inputs, main_sources) + op_text(node.op) + label_text(
        node.output,
        main_sources,
    )
}

/// The nodes as the engine reads them, in order, with a semicolon between
/// one and the next.
pub open spec fn nodes_text(nodes: Seq<NodeView>, main_sources: nat) -> Seq<char>
    decreases nodes.len(),
{
    if nodes.len() == 0 {
        Seq::<char>::empty()
    } else if nodes.len() == 1 {
        node_text(nodes[0], main_sources)
    } else {
        nodes_text(nodes.drop_last(), main_sources) + ";"@ + node_text(nodes.last(), main_sources)
    }
}

/// A graph as the engine reads it.
pub open spec fn graph_text(graph: GraphView) -> Seq<char> {
    nodes_text(graph.nodes, graph.main_sources)
}

fn push_kind(out: &mut String, kind: LabelKind)
    ensures
        final(out)@ == old(out)@ + kind_word(kind),
{
    match kind {
        LabelKind::Source => {
            assert(out@ + Seq::<char>::empty() =~= out@);
        },
        LabelKind::Trimmed => out.append("trim"),
        LabelKind::Retimed => out.append("retime"),
        LabelKind::Fitted => out.append("fit"),
        LabelKind::Clip => out.append("clip"),
        LabelKind::Placed => out.append("place"),
        LabelKind::Concat => out.append("concat"),
        LabelKind::Base => out.append("base"),
        LabelKind::Overlay => out.append("overlay"),
    }
}

/// Appends `label` as the engine reads it.
pub fn push_label(out: &mut String, label: Label, main_sources: usize)
    ensures
        final(out)@ == old(out)@ + label_text(label, main_sources as nat),
{
    out.append("[");
    match label.kind {
        LabelKind::Source => {
            let position: u128 = match label.track {
                TrackKind::Main => label.index as u128,
                TrackKind::Secondary => main_sources as u128 + label.index as u128,
            };
            push_decimal(out, position);
            out.append(":v]");
        },
        _ => {
            push_kind(out, label.kind);
            match label.track {
                TrackKind::Main => out.append("_m"),
                TrackKind::Secondary => out.append("_s"),
            }
            push_decimal(out, label.index as u128);
            out.append("]");
        },
    }
    assert(out@ =~= old(out)@ + label_text(label, main_sources as nat));
}

/// Appends `op` with its parameters as the engine reads it.
pub fn push_op(out: &mut String, op: FilterOp)
    ensures
        final(out)@ == old(out)@ + op_text(op),
{
    match op {
        FilterOp::Trim { start, duration } => {
            out.append("trim=start=");
            push_fixed(out, start as u128);
            out.append(":duration=");
            push_fixed(out, duration as u128);
        },
        FilterOp::Retime => {
            out.append("setpts=PTS-STARTPTS");
        },
        FilterOp::Scale { width, height, preserve_aspect } => {
            out.append("scale=");
            push_decimal(out, width as u128);
            out.append(":");
            push_decimal(out, height as u128);
            if preserve_aspect {
                out.append(":force_original_aspect_ratio=decrease");
            }
        },
        FilterOp::Pad { width, height } => {
            out.append("pad=");
            push_decimal(out, width as u128);
            out.append(":");
            push_decimal(out, height as u128);
            out.append(":(ow-iw)/2:(oh-ih)/2");
        },
        FilterOp::Concat { count } => {
            out.append("concat=n=");
            push_decimal(out, count as u128);
            out.append(":v=1:a=0");
        },
        FilterOp::Hold { duration } => {
            out.append("tpad=stop_mode=clone:stop_duration=");
            push_fixed(out, duration);
        },
        FilterOp::ColorFill { width, height, duration } => {
            out.append("color=black:size=");
            push_decimal(out, width as u128);
            out.append("x");
            push_decimal(out, height as u128);
            out.append(":duration=");
            push_fixed(out, duration);
            out.append(":rate=30");
        },
        FilterOp::Overlay { x, y, gate, opacity } => {
            out.append("overlay=x=");
            push_decimal(out, x as u128);
            out.append(":y=");
            push_decimal(out, y as u128);
            out.append(":enable='gte(t,");
            push_fixed(out, gate);
            out.append(")'");
        },
    }
    assert(out@ =~= old(out)@ + op_text(op));
}

/// Appends `node` as the engine reads it.
pub fn push_node_text(out: &mut String, node: &FilterNode, main_sources: usize)
    ensures
        final(out)@ == old(out)@ + node_text(node@, main_sources as nat),
{
    let mut k: usize = 0;
    assert(node.inputs@.take(0) =~= Seq::<Label>::empty());
    assert(out@ =~= old(out)@ + labels_text(node.inputs@.take(0), main_sources as nat));
    while k < node.inputs.len()
        invariant
            k <= node.inputs.len(),
            out@ == old(out)@ + labels_text(node.inputs@.take(k as int), main_sources as nat),
        decreases node.inputs.len() - k,
    {
        let ghost before = out@;
        push_label(out, node.inputs[k], main_sources);
        proof {
            let next = node.inputs@.take(k + 1);
            assert(next.drop_last() =~= node.inputs@.take(k as int));
            assert(next.last() == node.inputs@[k as int]);
            assert(out@ =~= old(out)@ + labels_text(next, main_sources as nat));
        }
        k += 1;
    }
    assert(node.inputs@.take(k as int) =~= node.inputs@);
    push_op(out, node.op);
    push_label(out, node.output, main_sources);
    assert(out@ =~= old(out)@ + node_text(node@, main_sources as nat));
}

/// Writes a graph in the engine's textual form.
pub fn render(graph: &FilterGraph) -> (out: String)
    ensures
        out@ == graph_text(graph@),
{
    let mut out: String = String::new();
    let ghost views = node_views(graph.nodes@);
    let mut i: usize = 0;
    assert(views.take(0) =~= Seq::<NodeView>::empty());
    while i < graph.nodes.len()
        invariant
            i <= graph.nodes.len(),
            views == node_views(graph.nodes@),
            out@ == nodes_text(views.take(i as int), graph.main_sources as nat),
        decreases graph.nodes.len() - i,
    {
        if i > 0 {
            out.append(";");
        }
        push_node_text(&mut out, &graph.nodes[i], graph.main_sources);
        proof {
            let next = views.take(i + 1);
            assert(next.drop_last() =~= views.take(i as int));
            assert(next.last() == graph.nodes@[i as int]@);
            if i == 0 {
                assert(out@ =~= node_text(next[0], graph.main_sources as nat));
            } else {
                assert(out@ =~= nodes_text(next, graph.main_sources as nat));
            }
        }
        i += 1;
    }
    assert(views.take(i as int) =~= views);
    out
}

/// Checks a graph and writes it in the engine's textual form. Fails, and
/// only then, where a stream that is read is neither an input file nor made
/// by exactly one earlier node.
pub fn serialize(graph: &FilterGraph) -> (r: Result<String, ExportError>)
    ensures
        match r {
            Ok(out) => graph@.wf() && out@ == graph_text(graph@),
            Err(e) => !graph@.wf() && e == ExportError::GraphIntegrity,
        },
{
    if graph.check_integrity() {
        Ok(render(graph))
    } else {
        Err(ExportError::GraphIntegrity)
    }
}

/// A label that, where it names an input file of the main track, names one
/// that exists among `main_sources` files.
pub open spec fn nameable(label: Label, main_sources: nat) -> bool {
    label.kind == LabelKind::Source && label.track == TrackKind::Main ==> label.index
        < main_sources
}

proof fn lemma_kind_words()
    ensures
        "trim"@.len() == 4 && "trim"@[0] == 't',
        "retime"@.len() == 6 && "retime"@[0] == 'r',
        "fit"@.len() == 3 && "fit"@[0] == 'f',
        "clip"@.len() == 4 && "clip"@[0] == 'c',
        "place"@.len() == 5 && "place"@[0] == 'p',
        "concat"@.len() == 6 && "concat"@[0] == 'c',
        "base"@.len() == 4 && "base"@[0] == 'b',
        "overlay"@.len() == 7 && "overlay"@[0] == 'o',
        forall|k: int| 0 <= k < 4 ==> "trim"@[k] != '_',
        forall|k: int| 0 <= k < 6 ==> "retime"@[k] != '_',
        forall|k: int| 0 <= k < 3 ==> "fit"@[k] != '_',
        forall|k: int| 0 <= k < 4 ==> "clip"@[k] != '_',
        forall|k: int| 0 <= k < 5 ==> "place"@[k] != '_',
        forall|k: int| 0 <= k < 6 ==> "concat"@[k] != '_',
        forall|k: int| 0 <= k < 4 ==> "base"@[k] != '_',
        forall|k: int| 0 <= k < 7 ==> "overlay"@[k] != '_',
        "_m"@.len() == 2 && "_m"@[0] == '_' && "_m"@[1] == 'm',
        "_s"@.len() == 2 && "_s"@[0] == '_' && "_s"@[1] == 's',
        "["@.len() == 1 && "["@[0] == '[',
        "]"@.len() == 1 && "]"@[0] == ']',
        ":v]"@.len() == 3 && ":v]"@[0] == ':',
{
    reveal_strlit("trim");
    reveal_strlit("retime");
    reveal_strlit("fit");
    reveal_strlit("clip");
    reveal_strlit("place");
    reveal_strlit("concat");
    reveal_strlit("base");
    reveal_strlit("overlay");
    reveal_strlit("_m");
    reveal_strlit("_s");
    reveal_strlit("[");
    reveal_strlit("]");
    reveal_strlit(":v]");
}

/// How a label that names no input file is put together.
proof fn lemma_made_label_shape(label: Label, main_sources: nat)
    requires
        label.kind != LabelKind::Source,
    ensures
        ({
            let t = label_text(label, main_sources);
            let w = kind_word(label.kind);
            let d = decimal(label.index as nat);
            let lw = w.len() as int;
            &&& 3 <= lw <= 7
            &&& t.len() == 1 + lw + 2 + d.len() + 1
            &&& t[1] == w[0]
            &&& forall|k: int| 1 <= k < 1 + lw ==> #[trigger] t[k] != '_'
            &&& t[1 + lw] == '_'
            &&& t[2 + lw] == track_word(label.track)[1]
            &&& t.subrange(3 + lw, t.len() - 1) == d
        }),
{
    lemma_kind_words();
    let t = label_text(label, main_sources);
    let w = kind_word(label.kind);
    let d = decimal(label.index as nat);
    let lw = w.len() as int;
    assert forall|k: int| 1 <= k < 1 + lw implies #[trigger] t[k] != '_' by {
        assert(t[k] == w[k - 1]);
    }
    assert(t.subrange(3 + lw, t.len() - 1) =~= d);
}

/// How a label that names an input file is put together.
proof fn lemma_source_label_shape(label: Label, main_sources: nat)
    requires
        label.kind == LabelKind::Source,
    ensures
        ({
            let t = label_text(label, main_sources);
            let d = decimal(source_index(label, main_sources));
            &&& t.len() == 1 + d.len() + 3
            &&& is_digit(t[1])
            &&& t.subrange(1, t.len() - 3) == d
        }),
{
    lemma_kind_words();
    let t = label_text(label, main_sources);
    let d = decimal(source_index(label, main_sources));
    lemma_decimal_digits(source_index(label, main_sources));
    assert(t[1] == d[0]);
    assert(t.subrange(1, t.len() - 3) =~= d);
}

/// No two labels are written alike: labels that read the same to the engine
/// are the same label.
pub proof fn theorem_label_text_injective(a: Label, b: Label, main_sources: nat)
    requires
        nameable(a, main_sources),
        nameable(b, main_sources),
        label_text(a, main_sources) == label_text(b, main_sources),
    ensures
        a == b,
{
    lemma_kind_words();
    let ta = label_text(a, main_sources);
    let tb = label_text(b, main_sources);
    if a.kind == LabelKind::Source && b.kind == LabelKind::Source {
        lemma_source_label_shape(a, main_sources);
        lemma_source_label_shape(b, main_sources);
        lemma_decimal_injective(source_index(a, main_sources), source_index(b, main_sources));
    } else if a.kind == LabelKind::Source {
        lemma_source_label_shape(a, main_sources);
        lemma_made_label_shape(b, main_sources);
    } else if b.kind == LabelKind::Source {
        lemma_source_label_shape(b, main_sources);
        lemma_made_label_shape(a, main_sources);
    } else {
        lemma_made_label_shape(a, main_sources);
        lemma_made_label_shape(b, main_sources);
        let la = kind_word(a.kind).len() as int;
        let lb = kind_word(b.kind).len() as int;
        if la < lb {
            assert(tb[1 + la] != '_');
        } else if lb < la {
            assert(ta[1 + lb] != '_');
        }
        assert(la == lb);
        assert(a.kind == b.kind);
        assert(a.track == b.track);
        lemma_decimal_injective(a.index as nat, b.index as nat);
    }
}

} // verus!
