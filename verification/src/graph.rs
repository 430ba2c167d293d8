//! The processing graph: labelled streams, the operations that produce them,
//! and what makes a graph sound.

use vstd::prelude::*;
use crate::error::TrackKind;

verus! {

/// What a labelled stream is, by the step that produces it.
#[derive(Clone, Copy, Debug, PartialEq, Eq, Structural)]
pub enum LabelKind {
    /// The video of an input file, as the engine reads it.
    Source,
    /// A clip cut to its trim window.
    Trimmed,
    /// A trimmed clip whose clock starts at zero again.
    Retimed,
    /// A clip scaled to fit the canvas.
    Fitted,
    /// A clip at the end of its chain: padded to exactly the canvas.
    Clip,
    /// A secondary clip scaled to the rectangle of its placement.
    Placed,
    /// The clips of a track joined end to end.
    Concat,
    /// The stream onto which the secondary clips are laid.
    Base,
    /// The composition after a secondary clip was laid onto it.
    Overlay,
}

/// The name of a stream: the step that produces it, with the track and the
/// position on the track of the clip it is produced for.
#[derive(Clone, Copy, Debug, PartialEq, Eq, Structural)]
pub struct Label {
    pub kind: LabelKind,
    pub track: TrackKind,
    pub index: usize,
}

/// An operation of the engine, with its parameters. Times are in
/// microseconds, sizes and positions in pixels, opacity in millionths.
#[derive(Clone, Copy, Debug, PartialEq, Eq, Structural)]
pub enum FilterOp {
    /// Keeps `duration` of the input from `start` on.
    Trim { start: u64, duration: u64 },
    /// Restarts the clock of the input at zero.
    Retime,
    /// Scales to `width` by `height`; with `preserve_aspect`, to the largest
    /// size of the input's shape that fits into them.
    Scale { width: u32, height: u32, preserve_aspect: bool },
    /// Centres the input on a canvas of exactly `width` by `height`.
    Pad { width: u32, height: u32 },
    /// Plays its `count` inputs one after the other.
    Concat { count: usize },
    /// Holds the last frame of the input for another `duration`.
    Hold { duration: u128 },
    /// A plain background of `width` by `height` that lasts `duration`.
    ColorFill { width: u32, height: u32, duration: u128 },
    /// Lays the second input onto the first at `x`, `y`, visible from the
    /// time `gate` on.
    Overlay { x: u32, y: u32, gate: u128, opacity: u64 },
}

/// One operation of a graph with the streams it reads and the one it makes.
#[derive(Clone, Debug, PartialEq, Eq)]
pub struct FilterNode {
    pub op: FilterOp,
    pub inputs: Vec<Label>,
    pub output: Label,
}

/// A node as a mathematical value.
pub struct NodeView {
    pub op: FilterOp,
    pub inputs: Seq<Label>,
    pub output: Label,
}

impl View for FilterNode {
    type V = NodeView;

    open spec fn view(&self) -> NodeView {
        NodeView { op: self.op, inputs: self.inputs@, output: self.output }
    }
}

/// The nodes of a graph in the order in which they were built, the stream
/// that is the result, and how many input files each track brings.
#[derive(Clone, Debug, PartialEq, Eq)]
pub struct FilterGraph {
    pub nodes: Vec<FilterNode>,
    pub output: Label,
    pub main_sources: usize,
    pub secondary_sources: usize,
}

/// A graph as a mathematical value.
pub struct GraphView {
    pub nodes: Seq<NodeView>,
    pub output: Label,
    pub main_sources: nat,
    pub secondary_sources: nat,
}

/// The nodes as mathematical values.
pub open spec fn node_views(nodes: Seq<FilterNode>) -> Seq<NodeView> {
    nodes.map_values(|n: FilterNode| n@)
}

impl View for FilterGraph {
    type V = GraphView;

    open spec fn view(&self) -> GraphView {
        GraphView {
            nodes: node_views(self.nodes@),
            output: self.output,
            main_sources: self.main_sources as nat,
            secondary_sources: self.secondary_sources as nat,
        }
    }
}

/// The width and height of a stream.
pub struct Dims {
    pub width: int,
    pub height: int,
}

impl GraphView {
    /// `label` names the video of an input file that the graph has.
    pub open spec fn is_source(self, label: Label) -> bool {
        &&& label.kind == LabelKind::Source
        &&& match label.track {
            TrackKind::Main => label.index < self.main_sources,
            TrackKind::Secondary => label.index < self.secondary_sources,
        }
    }

    /// One of the first `limit` nodes makes `label`.
    pub open spec fn produced_before(self, label: Label, limit: int) -> bool {
        exists|j: int| 0 <= j < limit && j < self.nodes.len() && (#[trigger] self.nodes[j]).output
            == label
    }

    /// `label` can be read at node `limit`: it is an input file or an earlier
    /// node makes it.
    pub open spec fn available(self, label: Label, limit: int) -> bool {
        self.is_source(label) || self.produced_before(label, limit)
    }

    /// Node `i` makes a stream that is no input file and that no earlier node
    /// makes, and reads only streams that are available to it.
    pub open spec fn node_ok(self, i: int) -> bool {
        &&& self.nodes[i].output.kind != LabelKind::Source
        &&& !self.produced_before(self.nodes[i].output, i)
        &&& forall|k: int|
            0 <= k < self.nodes[i].inputs.len() ==> self.available(
                #[trigger] self.nodes[i].inputs[k],
                i,
            )
    }

    /// The graph is sound: every stream that is read is an input file or made
    /// by exactly one earlier node, and the result is such a stream too.
    pub open spec fn wf(self) -> bool {
        &&& forall|i: int| 0 <= i < self.nodes.len() ==> #[trigger] self.node_ok(i)
        &&& self.available(self.output, self.nodes.len() as int)
    }

    /// The node among the first `limit` that makes `label`, if there is one.
    pub open spec fn producer(self, label: Label, limit: int) -> Option<int>
        decreases limit,
    {
        if limit <= 0 {
            None
        } else if limit <= self.nodes.len() && self.nodes[limit - 1].output == label {
            Some(limit - 1)
        } else {
            self.producer(label, limit - 1)
        }
    }

    /// What is known of the size of the stream that node `i` makes: the given
    /// size after padding, exact scaling and colour fill; nothing after
    /// scaling to fit; the size of the first input after the rest, where for
    /// a concatenation all inputs must have that size.
    pub open spec fn dims_at(self, i: int) -> Option<Dims>
        decreases i, 2int, 0int,
    {
        if i < 0 || i >= self.nodes.len() {
            None
        } else {
            match self.nodes[i].op {
                FilterOp::Pad { width, height } => Some(
                    Dims { width: width as int, height: height as int },
                ),
                FilterOp::ColorFill { width, height, duration } => Some(
                    Dims { width: width as int, height: height as int },
                ),
                FilterOp::Scale { width, height, preserve_aspect } => if preserve_aspect {
                    None
                } else {
                    Some(Dims { width: width as int, height: height as int })
                },
                FilterOp::Concat { count } => if self.inputs_agree(
                    i,
                    self.nodes[i].inputs.len() as int,
                ) {
                    self.input_dims(i, 0)
                } else {
                    None
                },
                _ => self.input_dims(i, 0),
            }
        }
    }

    /// The same is known of the size of each of the first `upto` inputs of
    /// node `i`.
    pub open spec fn inputs_agree(self, i: int, upto: int) -> bool
        decreases i, 1int, upto,
    {
        if upto <= 0 {
            true
        } else {
            self.input_dims(i, upto - 1) == self.input_dims(i, 0) && self.inputs_agree(
                i,
                upto - 1,
            )
        }
    }

    /// What is known of the size of input `k` of node `i`.
    pub open spec fn input_dims(self, i: int, k: int) -> Option<Dims>
        decreases i, 0int, 0int,
    {
        if 0 <= i < self.nodes.len() && 0 <= k < self.nodes[i].inputs.len() {
            match self.producer(self.nodes[i].inputs[k], i) {
                Some(p) => if 0 <= p < i {
                    self.dims_at(p)
                } else {
                    None
                },
                None => None,
            }
        } else {
            None
        }
    }

    /// What is known of the size of the result.
    pub open spec fn output_dims(self) -> Option<Dims> {
        match self.producer(self.output, self.nodes.len() as int) {
            Some(p) => self.dims_at(p),
            None => None,
        }
    }
}

impl Label {
    /// Whether two labels are the same.
    pub fn same(self, other: Label) -> (r: bool)
        ensures
            r == (self == other),
    {
        self == other
    }
}

impl FilterGraph {
    /// Whether `label` names the video of an input file that the graph has.
    pub fn is_source(&self, label: Label) -> (r: bool)
        ensures
            r == self@.is_source(label),
    {
        match label.kind {
            LabelKind::Source => match label.track {
                TrackKind::Main => label.index < self.main_sources,
                TrackKind::Secondary => label.index < self.secondary_sources,
            },
            _ => false,
        }
    }

    /// Whether one of the first `limit` nodes makes `label`.
    pub fn produced_before(&self, label: Label, limit: usize) -> (r: bool)
        ensures
            r == self@.produced_before(label, limit as int),
    {
        let mut j: usize = 0;
        while j < limit && j < self.nodes.len()
            invariant
                forall|k: int|
                    0 <= k < j && k < self.nodes@.len() ==> (#[trigger] self@.nodes[k]).output
                        != label,
            decreases self.nodes.len() - j,
        {
            if self.nodes[j].output.same(label) {
                assert(self@.nodes[j as int].output == label);
                return true;
            }
            j += 1;
        }
        false
    }

    /// Whether `label` can be read at node `limit`.
    pub fn available(&self, label: Label, limit: usize) -> (r: bool)
        ensures
            r == self@.available(label, limit as int),
    {
        self.is_source(label) || self.produced_before(label, limit)
    }

    /// Whether node `i` is sound.
    pub fn node_ok(&self, i: usize) -> (r: bool)
        requires
            i < self.nodes.len(),
        ensures
            r == self@.node_ok(i as int),
    {
        let node = &self.nodes[i];
        assert(self@.nodes[i as int] == node@);
        match node.output.kind {
            LabelKind::Source => {
                return false;
            },
            _ => {},
        }
        if self.produced_before(node.output, i) {
            return false;
        }
        let mut k: usize = 0;
        while k < node.inputs.len()
            invariant
                k <= node.inputs.len(),
                i < self.nodes.len(),
                self@.nodes[i as int] == node@,
                forall|m: int| 0 <= m < k ==> self@.available(#[trigger] node@.inputs[m], i as int),
            decreases node.inputs.len() - k,
        {
            if !self.available(node.inputs[k], i) {
                assert(!self@.available(self@.nodes[i as int].inputs[k as int], i as int));
                return false;
            }
            k += 1;
        }
        true
    }

    /// Whether the graph is sound: every stream that is read is an input
    /// file or made by exactly one earlier node.
    pub fn check_integrity(&self) -> (r: bool)
        ensures
            r == self@.wf(),
    {
        let mut i: usize = 0;
        while i < self.nodes.len()
            invariant
                i <= self.nodes.len(),
                forall|m: int| 0 <= m < i ==> #[trigger] self@.node_ok(m),
            decreases self.nodes.len() - i,
        {
            if !self.node_ok(i) {
                return false;
            }
            i += 1;
        }
        self.available(self.output, self.nodes.len())
    }
}

/// Where only node `t` among the first `limit` makes `label`, `producer`
/// finds it.
pub proof fn lemma_producer_unique(g: GraphView, wanted: Label, t: int, limit: int)
    requires
        0 <= t < limit <= g.nodes.len(),
        g.nodes[t].output == wanted,
        forall|j: int| 0 <= j < limit && j != t ==> (#[trigger] g.nodes[j]).output != wanted,
    ensures
        g.producer(wanted, limit) == Some(t),
    decreases limit,
{
    if limit - 1 != t {
        lemma_producer_unique(g, wanted, t, limit - 1);
    }
}

/// Where the same is known of each of the first `upto` inputs of node `i`,
/// they agree.
pub proof fn lemma_inputs_agree(g: GraphView, i: int, upto: int)
    requires
        forall|k: int| 0 <= k < upto ==> #[trigger] g.input_dims(i, k) == g.input_dims(i, 0),
    ensures
        g.inputs_agree(i, upto),
    decreases upto,
{
    if upto > 0 {
        lemma_inputs_agree(g, i, upto - 1);
        assert(g.input_dims(i, upto - 1) == g.input_dims(i, 0));
    }
}

/// In a sound graph no two nodes make the same stream.
pub proof fn lemma_sound_outputs_differ(g: GraphView, i: int, j: int)
    requires
        g.wf(),
        0 <= i < j < g.nodes.len(),
    ensures
        g.nodes[i].output != g.nodes[j].output,
{
    assert(g.node_ok(j));
}

} // verus!
