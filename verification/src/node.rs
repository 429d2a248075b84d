//! The output of a layout pass: a positioned size plus child nodes.

use vstd::prelude::*;
use crate::geometry::{Point, Rectangle, Size};

verus! {

/// The mathematical model of a layout node: its bounds, relative to the
/// parent, and the models of its children in order.
#[verifier::ext_equal]
pub ghost struct LayoutModel {
    pub bounds: Rectangle,
    pub children: Seq<LayoutModel>,
}

impl LayoutModel {
    /// The size of the modelled node.
    pub open spec fn size(self) -> Size {
        Size { width: self.bounds.width, height: self.bounds.height }
    }
}

/// One node of a computed layout tree: an axis-aligned rectangle, relative
/// to the parent's origin, and the nodes of the children.
///
/// A node is built bottom-up during one layout call and immutable
/// afterwards; it is consumed later for event hit-testing and for drawing.
#[derive(Debug)]
pub struct Node {
    pub bounds: Rectangle,
    pub children: Vec<Node>,
}

/// The models of a sequence of nodes, in order.
pub open spec fn models(nodes: Seq<Node>) -> Seq<LayoutModel>
    decreases nodes,
{
    if nodes.len() == 0 {
        Seq::<LayoutModel>::empty()
    } else {
        seq![nodes[0].model()] + models(nodes.subrange(1, nodes.len() as int))
    }
}

impl Node {
    /// The model of the node: the same tree with the children as a sequence.
    pub open spec fn model(self) -> LayoutModel
        decreases self,
    {
        proof {
            assert(decreases_to!(self => self.children@));
        }
        LayoutModel { bounds: self.bounds, children: models(self.children@) }
    }

    /// Creates a childless node of the given size, placed at the origin.
    pub fn new(size: Size) -> (r: Node)
        ensures
            r.model() == (LayoutModel {
                bounds: Rectangle { x: 0, y: 0, width: size.width, height: size.height },
                children: Seq::<LayoutModel>::empty(),
            }),
    {
        let r = Node {
            bounds: Rectangle { x: 0, y: 0, width: size.width, height: size.height },
            children: Vec::new(),
        };
        proof {
            assert(r.model().children =~= Seq::<LayoutModel>::empty());
        }
        r
    }

    /// Creates a node of the given size with the given children, placed at
    /// the origin.
    pub fn with_children(size: Size, children: Vec<Node>) -> (r: Node)
        ensures
            r.bounds == (Rectangle { x: 0, y: 0, width: size.width, height: size.height }),
            r.children == children,
    {
        Node {
            bounds: Rectangle { x: 0, y: 0, width: size.width, height: size.height },
            children,
        }
    }

    /// The size of the node.
    pub fn size(&self) -> (s: Size)
        ensures
            s == self.model().size(),
    {
        Size { width: self.bounds.width, height: self.bounds.height }
    }

    /// The bounds of the node, relative to its parent's origin.
    pub fn bounds(&self) -> (b: Rectangle)
        ensures
            b == self.bounds,
    {
        self.bounds
    }
}

/// A view into one node of a layout tree, carrying the absolute position
/// that the ambient parents contribute.
pub struct Layout<'a> {
    pub position: Point,
    pub node: &'a Node,
}

impl<'a> Layout<'a> {
    /// The absolute bounds of the viewed node. The position saturates at
    /// the edge of the representable space.
    pub open spec fn spec_bounds(self) -> Rectangle {
        Rectangle {
            x: self.position.x,
            y: self.position.y,
            width: self.node.bounds.width,
            height: self.node.bounds.height,
        }
    }

    /// Creates a view of a whole layout tree, whose own bounds become
    /// absolute.
    pub fn new(node: &'a Node) -> (r: Layout<'a>)
        ensures
            r.position == (Point { x: node.bounds.x, y: node.bounds.y }),
            r.node == node,
    {
        Layout { position: Point { x: node.bounds.x, y: node.bounds.y }, node }
    }

    /// The absolute bounds of the viewed node.
    pub fn bounds(&self) -> (b: Rectangle)
        ensures
            b == self.spec_bounds(),
    {
        Rectangle {
            x: self.position.x,
            y: self.position.y,
            width: self.node.bounds.width,
            height: self.node.bounds.height,
        }
    }

    /// How many children the viewed node has.
    pub fn children_len(&self) -> (n: usize)
        ensures
            n == self.node.children@.len(),
    {
        self.node.children.len()
    }

    /// A view of the `i`-th child, positioned relative to this node's
    /// absolute origin; the position saturates at the edge of the
    /// representable space.
    pub fn child(&self, i: usize) -> (r: Layout<'a>)
        requires
            i < self.node.children@.len(),
        ensures
            r.node == &self.node.children@[i as int],
            r.position.x == self.position.x.saturating_add(self.node.children@[i as int].bounds.x),
            r.position.y == self.position.y.saturating_add(self.node.children@[i as int].bounds.y),
    {
        let child = &self.node.children[i];
        Layout {
            position: Point {
                x: self.position.x.saturating_add(child.bounds.x),
                y: self.position.y.saturating_add(child.bounds.y),
            },
            node: child,
        }
    }
}

} // verus!
