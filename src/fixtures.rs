use crate::context::Context;
use crate::node::{fold_children, min_of, size_of, Node};
use crate::style::Style;
use crate::types::{Direction, Rectangle, Scalar, ScalarUnit, Size};
use vstd::prelude::*;

verus! {

/// `n` is a fresh node without children, with only `width` and `height`
/// set in its style.
pub open spec fn is_leaf(n: Node, width: Option<Scalar>, height: Option<Scalar>) -> bool {
    &&& n.children@.len() == 0
    &&& n.style == (Style { width, height, ..Style::spec_new() })
    &&& n.computed == Rectangle::spec_zero()
    &&& n.min_size == Size::spec_zero()
    &&& n.measure == None::<Size>
    &&& n.dirty
}

/// `n` is a fresh node with only `width` and `height` set in its style,
/// whatever its children.
pub open spec fn is_fresh(n: Node, width: Option<Scalar>, height: Option<Scalar>) -> bool {
    &&& n.style == (Style { width, height, ..Style::spec_new() })
    &&& n.computed == Rectangle::spec_zero()
    &&& n.min_size == Size::spec_zero()
    &&& n.measure == None::<Size>
    &&& n.dirty
}

/// The sizes of the two nested trees below, in a 1000 x 1000 root: the
/// column is 150 x 100 (its second box resolves to 30 x 50), and the root
/// takes the widest child and stacks the heights.
proof fn lemma_nested_sizes(r: Node, ctx: Context, second_height: Option<Scalar>, expected_height: i32)
    requires
        ctx.root_width == 1000,
        ctx.root_height == 1000,
        ctx.sized_ancestor_width == 1000,
        ctx.sized_ancestor_height == 1000,
        is_fresh(r, None, None),
        r.children@.len() == 2,
        is_fresh(r.children@[0], Some((150, ScalarUnit::Px)), None),
        r.children@[0].children@.len() == 2,
        is_leaf(r.children@[0].children@[0], Some((50, ScalarUnit::Px)), Some((50, ScalarUnit::Px))),
        is_leaf(r.children@[0].children@[1], Some((20, ScalarUnit::Percent)), Some((5, ScalarUnit::Vw))),
        is_leaf(r.children@[1], Some((200, ScalarUnit::Px)), second_height),
        second_height == Some((10i32, ScalarUnit::Vh)) ==> ctx.desired_height == 0 && expected_height == 200,
        second_height is None ==> ctx.desired_height == 1000 && expected_height == 1000,
        second_height is None || second_height == Some((10i32, ScalarUnit::Vh)),
        ctx.desired_width == 0 || ctx.desired_width == 1000,
    ensures
        size_of(r, ctx) == (Size { width: 200, height: expected_height }),
{
    reveal_with_fuel(fold_children, 3);
    let cc = ctx.for_children(r.style, r.computed);
    let column = r.children@[0];
    let cm = cc.minimum();
    let gc = cm.for_children(column.style, column.computed);
    assert(gc.sized_ancestor_width == 150);
    let a = column.children@[0];
    let b = column.children@[1];
    assert(size_of(a, gc.minimum()) == (Size { width: 50, height: 50 }));
    assert(min_of(a, gc) == (Size { width: 50, height: 50 }));
    assert(size_of(b, gc.minimum()) == (Size { width: 30, height: 50 }));
    assert(min_of(b, gc) == (Size { width: 30, height: 50 }));
    assert(fold_children(column.children@, Direction::Y, gc, 2) == (Size { width: 50, height: 100 }));
    assert(size_of(column, cm) == (Size { width: 150, height: 100 }));
    assert(min_of(column, cc) == (Size { width: 150, height: 100 }));
    let second = r.children@[1];
    if second_height is None {
        assert(size_of(second, cc.minimum()) == (Size { width: 200, height: 0 }));
        assert(min_of(second, cc) == (Size { width: 200, height: 0 }));
        assert(fold_children(r.children@, Direction::Y, cc, 2) == (Size { width: 200, height: 100 }));
    } else {
        assert(size_of(second, cc.minimum()) == (Size { width: 200, height: 100 }));
        assert(min_of(second, cc) == (Size { width: 200, height: 100 }));
        assert(fold_children(r.children@, Direction::Y, cc, 2) == (Size { width: 200, height: 200 }));
    }
}

/// One node, 100 px wide and 10 % high.
pub fn single_node_fixture() -> (r: Node)
    ensures
        is_leaf(r, Some((100, ScalarUnit::Px)), Some((10, ScalarUnit::Percent))),
{
    Node::new().width((100, ScalarUnit::Px)).height((10, ScalarUnit::Percent))
}

/// A 200 px wide column of three children, 50 px, 25 % and 5 vw high.
pub fn vertical_stack_fixture() -> (r: Node)
    ensures
        is_fresh(r, Some((200, ScalarUnit::Px)), None),
        r.children@.len() == 3,
        is_leaf(r.children@[0], None, Some((50, ScalarUnit::Px))),
        is_leaf(r.children@[1], None, Some((25, ScalarUnit::Percent))),
        is_leaf(r.children@[2], None, Some((5, ScalarUnit::Vw))),
{
    let child1 = Node::new().height((50, ScalarUnit::Px));
    let child2 = Node::new().height((25, ScalarUnit::Percent));
    let child3 = Node::new().height((5, ScalarUnit::Vw));

    Node::new().width((200, ScalarUnit::Px)).add_child(child1).add_child(child2).add_child(child3)
}

/// A 200 px high column of three children, 10 %, 100 px and 10 vw wide.
pub fn horizontal_stack_fixture() -> (r: Node)
    ensures
        is_fresh(r, None, Some((200, ScalarUnit::Px))),
        r.children@.len() == 3,
        is_leaf(r.children@[0], Some((10, ScalarUnit::Percent)), None),
        is_leaf(r.children@[1], Some((100, ScalarUnit::Px)), None),
        is_leaf(r.children@[2], Some((10, ScalarUnit::Vw)), None),
{
    let child1 = Node::new().width((10, ScalarUnit::Percent));
    let child2 = Node::new().width((100, ScalarUnit::Px));
    let child3 = Node::new().width((10, ScalarUnit::Vw));

    Node::new().height((200, ScalarUnit::Px)).add_child(child1).add_child(child2).add_child(child3)
}

/// A 150 px wide column of a 50 x 50 px box and a 20 % x 5 vw box, over
/// a 200 px x 10 vh box.
pub fn nested_layout_fixture() -> (r: Node)
    ensures
        is_fresh(r, None, None),
        r.children@.len() == 2,
        is_fresh(r.children@[0], Some((150, ScalarUnit::Px)), None),
        r.children@[0].children@.len() == 2,
        is_leaf(r.children@[0].children@[0], Some((50, ScalarUnit::Px)), Some((50, ScalarUnit::Px))),
        is_leaf(r.children@[0].children@[1], Some((20, ScalarUnit::Percent)), Some((5, ScalarUnit::Vw))),
        is_leaf(r.children@[1], Some((200, ScalarUnit::Px)), Some((10, ScalarUnit::Vh))),
        size_of(r, Context::spec_new(1000, 1000).minimum()) == (Size { width: 200, height: 200 }),
{
    let inner_child1 = Node::new().width((50, ScalarUnit::Px)).height((50, ScalarUnit::Px));
    let inner_child2 = Node::new().width((20, ScalarUnit::Percent)).height((5, ScalarUnit::Vw));
    let inner_vertical_stack = Node::new().width((150, ScalarUnit::Px)).add_child(inner_child1).add_child(
        inner_child2,
    );

    let outer_child = Node::new().width((200, ScalarUnit::Px)).height((10, ScalarUnit::Vh));

    let r = Node::new().add_child(inner_vertical_stack).add_child(outer_child);
    proof {
        lemma_nested_sizes(r, Context::spec_new(1000, 1000).minimum(), Some((10, ScalarUnit::Vh)), 200);
    }
    r
}

/// As `nested_layout_fixture`, with no height on the second box.
pub fn vertical_stretch_layout_fixture() -> (r: Node)
    ensures
        is_fresh(r, None, None),
        r.children@.len() == 2,
        is_fresh(r.children@[0], Some((150, ScalarUnit::Px)), None),
        r.children@[0].children@.len() == 2,
        is_leaf(r.children@[0].children@[0], Some((50, ScalarUnit::Px)), Some((50, ScalarUnit::Px))),
        is_leaf(r.children@[0].children@[1], Some((20, ScalarUnit::Percent)), Some((5, ScalarUnit::Vw))),
        is_leaf(r.children@[1], Some((200, ScalarUnit::Px)), None),
        size_of(r, Context::spec_new(1000, 1000)) == (Size { width: 200, height: 1000 }),
{
    let inner_child1 = Node::new().width((50, ScalarUnit::Px)).height((50, ScalarUnit::Px));
    let inner_child2 = Node::new().width((20, ScalarUnit::Percent)).height((5, ScalarUnit::Vw));
    let inner_vertical_stack = Node::new().width((150, ScalarUnit::Px)).add_child(inner_child1).add_child(
        inner_child2,
    );

    let outer_child = Node::new().width((200, ScalarUnit::Px));

    let r = Node::new().add_child(inner_vertical_stack).add_child(outer_child);
    proof {
        lemma_nested_sizes(r, Context::spec_new(1000, 1000), None, 1000);
    }
    r
}

} // verus!
