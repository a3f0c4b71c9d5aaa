use vstd::prelude::*;
use crate::state::Trigger;

verus! {

/// The direction in which a panel lays out its children.
#[derive(PartialEq, Eq, Structural, Clone, Copy, Debug, Hash)]
pub enum Direction {
    Row,
    Column,
}

/// A length: left to the layout engine, a share of the free space, or a
/// number of pixels.
#[derive(PartialEq, Eq, Structural, Clone, Copy, Debug, Hash)]
pub enum Extent {
    Auto,
    Stretch(u32),
    Pixels(u32),
}

/// How a panel places its children. `spacing` is the gap in pixels between
/// two children along `direction`.
#[derive(PartialEq, Eq, Structural, Clone, Copy, Debug, Hash)]
pub struct Layout {
    pub direction: Direction,
    pub width: Extent,
    pub height: Extent,
    pub spacing: u32,
    pub padding_left: u32,
}

/// The layout a panel has when nothing is said of it.
pub open spec fn plain_layout() -> Layout {
    Layout {
        direction: Direction::Column,
        width: Extent::Auto,
        height: Extent::Auto,
        spacing: 0,
        padding_left: 0,
    }
}

impl Layout {
    pub fn plain() -> (r: Layout)
        ensures
            r == plain_layout(),
    {
        Layout {
            direction: Direction::Column,
            width: Extent::Auto,
            height: Extent::Auto,
            spacing: 0,
            padding_left: 0,
        }
    }
}

/// One element of a UI tree. An empty `key` means the element has none.
#[derive(Clone, Debug, PartialEq, Eq)]
pub enum Element {
    Panel { key: String, layout: Layout },
    Label { text: String, size: u32 },
    Button { key: String, text: String, trigger: Trigger },
}

impl Element {
    /// A copy of the element.
    pub fn copy(&self) -> (r: Element)
        ensures
            r@ == self@,
    {
        match self {
            Element::Panel { key, layout } => Element::Panel { key: key.clone(), layout: *layout },
            Element::Label { text, size } => Element::Label { text: text.clone(), size: *size },
            Element::Button { key, text, trigger } => Element::Button {
                key: key.clone(),
                text: text.clone(),
                trigger: *trigger,
            },
        }
    }
}

/// An element with its strings seen as sequences of characters.
pub enum ElementView {
    Panel { key: Seq<char>, layout: Layout },
    Label { text: Seq<char>, size: u32 },
    Button { key: Seq<char>, text: Seq<char>, trigger: Trigger },
}

impl View for Element {
    type V = ElementView;

    open spec fn view(&self) -> ElementView {
        match self {
            Element::Panel { key, layout } => ElementView::Panel { key: key@, layout: *layout },
            Element::Label { text, size } => ElementView::Label { text: text@, size: *size },
            Element::Button { key, text, trigger } => ElementView::Button {
                key: key@,
                text: text@,
                trigger: *trigger,
            },
        }
    }
}

/// An element at a depth of a tree: 0 for the root, one more for each
/// panel above it.
#[derive(Clone, Debug, PartialEq, Eq)]
pub struct UiNode {
    pub depth: u32,
    pub element: Element,
}

pub struct NodeView {
    pub depth: nat,
    pub element: ElementView,
}

impl View for UiNode {
    type V = NodeView;

    open spec fn view(&self) -> NodeView {
        NodeView { depth: self.depth as nat, element: self.element@ }
    }
}

/// A UI tree, its nodes listed in pre-order: each node is followed by its
/// children and their descendants, before its next sibling.
#[derive(Clone, Debug, PartialEq, Eq)]
pub struct UiTree {
    pub nodes: Vec<UiNode>,
}

impl View for UiTree {
    type V = Seq<NodeView>;

    open spec fn view(&self) -> Seq<NodeView> {
        self.nodes@.map_values(|n: UiNode| n@)
    }
}

/// A pre-order list of nodes is a tree when it has one root, at depth 0,
/// each node is at most one level below the one before it, and only a panel
/// is followed by a deeper node.
pub open spec fn is_tree(s: Seq<NodeView>) -> bool {
    &&& s.len() > 0
    &&& s[0].depth == 0
    &&& forall|i: int| 0 < i < s.len() ==> #[trigger] s[i].depth >= 1
    &&& forall|i: int|
        0 < i < s.len() ==> #[trigger] s[i].depth <= s[i - 1].depth + 1
    &&& forall|i: int|
        0 < i < s.len() && s[i].depth == s[i - 1].depth + 1 ==> (#[trigger] s[i - 1].element) is Panel
}

/// The nodes of `s`, each one level deeper.
pub open spec fn nested(s: Seq<NodeView>) -> Seq<NodeView> {
    s.map_values(|n: NodeView| NodeView { depth: n.depth + 1, element: n.element })
}

impl UiTree {
    pub open spec fn max_depth_below(&self, bound: nat) -> bool {
        forall|i: int| 0 <= i < self.nodes@.len() ==> (#[trigger] self.nodes@[i]).depth < bound
    }

    /// Moves the nodes of `self` one level down, after the nodes of `out`.
    pub fn append_nested(self, out: &mut Vec<UiNode>)
        requires
            self.max_depth_below(u32::MAX as nat),
        ensures
            final(out)@.map_values(|n: UiNode| n@) =~= old(out)@.map_values(|n: UiNode| n@)
                + nested(self@),
    {
        let UiTree { nodes } = self;
        let n = nodes.len();
        let ghost start = out@;
        let mut i: usize = 0;
        while i < n
            invariant
                n == nodes@.len(),
                i <= n,
                forall|k: int| 0 <= k < n ==> (#[trigger] nodes@[k]).depth < u32::MAX,
                out@.len() == start.len() + i,
                forall|k: int| 0 <= k < start.len() ==> (#[trigger] out@[k]) == start[k],
                forall|k: int|
                    0 <= k < i ==> (#[trigger] out@[start.len() + k])@ == (NodeView {
                        depth: nodes@[k]@.depth + 1,
                        element: nodes@[k]@.element,
                    }),
            decreases n - i,
        {
            let node = &nodes[i];
            out.push(UiNode { depth: node.depth + 1, element: node.element.copy() });
            i += 1;
        }
        proof {
            let lhs = out@.map_values(|x: UiNode| x@);
            let rhs = start.map_values(|x: UiNode| x@) + nested(nodes@.map_values(|x: UiNode| x@));
            assert forall|k: int| 0 <= k < lhs.len() implies lhs[k] == rhs[k] by {
                if k >= start.len() {
                    assert(out@[start.len() + (k - start.len())] == out@[k]);
                }
            }
            assert(lhs =~= rhs);
        }
    }
}

} // verus!
