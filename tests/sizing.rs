use stack_layout::context::Context;
use stack_layout::fixtures::{
    horizontal_stack_fixture, nested_layout_fixture, single_node_fixture, vertical_stack_fixture,
    vertical_stretch_layout_fixture,
};
use stack_layout::node::Node;
use stack_layout::style::Style;
use stack_layout::types::{Direction, Rectangle, ScalarUnit, Size};

fn leaf(width: i32, height: i32) -> Node {
    Node::new().width((width, ScalarUnit::Px)).height((height, ScalarUnit::Px))
}

#[test]
fn test_minimum_size() {
    let mut node = nested_layout_fixture();

    let size = node.compute_size(Context::new(1000, 1000).as_minimum());

    assert_eq!(size.width, 200);
    assert_eq!(size.height, 200);
}

#[test]
fn test_natural_size() {
    let mut node = vertical_stretch_layout_fixture();

    let size = node.compute_size(Context::new(1000, 1000));

    assert_eq!(size.width, 200);
    assert_eq!(size.height, 1000);
}

#[test]
fn combine_along_x() {
    let mut node = Node::new().direction(Direction::X).add_child(leaf(30, 40)).add_child(leaf(50, 20));
    let size = node.compute_size(Context::new(1000, 1000).as_minimum());
    assert_eq!(size, Size::new(80, 40));
}

#[test]
fn combine_along_y() {
    let mut node = Node::new().direction(Direction::Y).add_child(leaf(30, 40)).add_child(leaf(50, 20));
    let size = node.compute_size(Context::new(1000, 1000).as_minimum());
    assert_eq!(size, Size::new(50, 60));
}

#[test]
fn combine_along_z() {
    let mut node = Node::new().direction(Direction::Z).add_child(leaf(30, 40)).add_child(leaf(50, 20));
    let size = node.compute_size(Context::new(1000, 1000).as_minimum());
    assert_eq!(size, Size::new(50, 40));
}

#[test]
fn size_add_each_direction() {
    let a = Size::new(30, 40);
    let b = Size::new(50, 20);
    assert_eq!(a.add(b, Direction::X), Size::new(80, 40));
    assert_eq!(a.add(b, Direction::Y), Size::new(50, 60));
    assert_eq!(a.add(b, Direction::Z), Size::new(50, 40));
}

#[test]
fn size_add_saturates() {
    let a = Size::new(i32::MAX - 1, 5);
    let b = Size::new(10, 7);
    assert_eq!(a.add(b, Direction::X), Size::new(i32::MAX, 7));
}

#[test]
fn gap_only_on_axis() {
    let mut node = Node::new()
        .direction(Direction::Y)
        .gap(10)
        .add_child(leaf(10, 10))
        .add_child(leaf(20, 10))
        .add_child(leaf(30, 10));
    let size = node.compute_size(Context::new(1000, 1000).as_minimum());
    assert_eq!(size, Size::new(30, 50));
}

#[test]
fn gap_along_x() {
    let mut node = Node::new().direction(Direction::X).gap(7).add_child(leaf(10, 10)).add_child(leaf(20, 15));
    let size = node.compute_size(Context::new(1000, 1000).as_minimum());
    assert_eq!(size, Size::new(37, 15));
}

#[test]
fn gap_ignored_for_z() {
    let mut node = Node::new().direction(Direction::Z).gap(7).add_child(leaf(10, 10)).add_child(leaf(20, 15));
    let size = node.compute_size(Context::new(1000, 1000).as_minimum());
    assert_eq!(size, Size::new(20, 15));
}

#[test]
fn gap_with_one_child_adds_nothing() {
    let mut node = Node::new().gap(10).add_child(leaf(10, 10));
    let size = node.compute_size(Context::new(1000, 1000).as_minimum());
    assert_eq!(size, Size::new(10, 10));
}

#[test]
fn padding_on_both_axes() {
    for direction in [Direction::X, Direction::Y, Direction::Z] {
        let mut node = Node::new().direction(direction).padding(5).add_child(leaf(10, 20));
        let size = node.compute_size(Context::new(1000, 1000).as_minimum());
        assert_eq!(size, Size::new(20, 30));
    }
}

#[test]
fn explicit_width_overrides_content() {
    let mut node = Node::new()
        .direction(Direction::X)
        .width((100, ScalarUnit::Px))
        .add_child(leaf(50, 10))
        .add_child(leaf(30, 10));
    let size = node.compute_size(Context::new(1000, 1000).as_minimum());
    assert_eq!(size.width, 100);
    assert_eq!(size.height, 10);
}

#[test]
fn min_width_wins_over_max_width() {
    let mut node = Node::new()
        .min_width((150, ScalarUnit::Px))
        .max_width((100, ScalarUnit::Px))
        .add_child(leaf(120, 10));
    let size = node.compute_size(Context::new(1000, 1000).as_minimum());
    assert_eq!(size.width, 150);
}

#[test]
fn max_height_clamps_content() {
    let mut node = Node::new().max_height((25, ScalarUnit::Px)).add_child(leaf(10, 20)).add_child(leaf(10, 20));
    let size = node.compute_size(Context::new(1000, 1000).as_minimum());
    assert_eq!(size.height, 25);
}

#[test]
fn min_height_raises_content() {
    let mut node = Node::new().min_height((10, ScalarUnit::Vh)).add_child(leaf(10, 20));
    let size = node.compute_size(Context::new(1000, 800).as_minimum());
    assert_eq!(size.height, 80);
}

#[test]
fn percent_uses_nearest_sized_ancestor() {
    let root = Context::new(1000, 1000);
    let ancestor = Node::new().width((200, ScalarUnit::Px));
    let intermediate = Node::new();
    let ctx = root.child_context(&ancestor).child_context(&intermediate);
    assert_eq!(ctx.pixelize_width((50, ScalarUnit::Percent)), 100);
}

#[test]
fn percent_through_unsized_intermediate_in_tree() {
    let descendant = Node::new().width((50, ScalarUnit::Percent)).height((1, ScalarUnit::Px));
    let intermediate = Node::new().add_child(descendant);
    let mut ancestor = Node::new().width((200, ScalarUnit::Px)).add_child(intermediate);
    let size = ancestor.compute_size(Context::new(1000, 1000).as_minimum());
    assert_eq!(size, Size::new(200, 1));
    assert_eq!(ancestor.children[0].min_size, Size::new(100, 1));
    assert_eq!(ancestor.children[0].children[0].min_size, Size::new(100, 1));
}

#[test]
fn percent_height_uses_ancestor_height() {
    let ctx = Context::new(1000, 600).child_context(&Node::new().height((300, ScalarUnit::Px)));
    assert_eq!(ctx.pixelize_height((50, ScalarUnit::Percent)), 150);
    assert_eq!(ctx.pixelize_width((50, ScalarUnit::Percent)), 500);
}

#[test]
fn viewport_width_unit_for_height() {
    let root = Context::new(1000, 400);
    let ctx = root.child_context(&Node::new().height((30, ScalarUnit::Px)));
    assert_eq!(ctx.pixelize_height((10, ScalarUnit::Vw)), 100);
    assert_eq!(ctx.pixelize_height((10, ScalarUnit::Vh)), 40);
    assert_eq!(root.pixelize_width((10, ScalarUnit::Vh)), 40);
}

#[test]
fn percent_truncates_toward_zero() {
    let ctx = Context::new(999, 999);
    assert_eq!(ctx.pixelize_width((33, ScalarUnit::Percent)), 329);
    assert_eq!(ctx.pixelize_width((-33, ScalarUnit::Percent)), -329);
    assert_eq!(ctx.pixelize_width((-7, ScalarUnit::Px)), -7);
}

#[test]
fn percent_saturates() {
    let ctx = Context::new(i32::MAX, i32::MAX);
    assert_eq!(ctx.pixelize_width((1000, ScalarUnit::Vw)), i32::MAX);
    assert_eq!(ctx.pixelize_width((-1000, ScalarUnit::Vw)), i32::MIN);
}

#[test]
fn as_minimum_clears_desired_only() {
    let ctx = Context::new(800, 600);
    let min = ctx.as_minimum();
    assert_eq!(min.desired_width, 0);
    assert_eq!(min.desired_height, 0);
    assert_eq!(min.root_width, 800);
    assert_eq!(min.sized_ancestor_height, 600);
}

#[test]
fn child_context_passes_root_and_computed_box() {
    let mut node = Node::new().width((50, ScalarUnit::Percent));
    node.computed = Rectangle::new(1, 2, 30, 40);
    let ctx = Context::new(800, 600).child_context(&node);
    assert_eq!(ctx.root_width, 800);
    assert_eq!(ctx.root_height, 600);
    assert_eq!(ctx.sized_ancestor_width, 400);
    assert_eq!(ctx.sized_ancestor_height, 600);
    assert_eq!(ctx.desired_width, 30);
    assert_eq!(ctx.desired_height, 40);
}

#[test]
fn repeated_sizing_is_idempotent() {
    let mut node = nested_layout_fixture();
    let ctx = Context::new(1000, 1000).as_minimum();
    let first = node.compute_size(ctx);
    let second = node.compute_size(ctx);
    assert_eq!(first, second);

    let mut natural = vertical_stretch_layout_fixture();
    let a = natural.compute_size(Context::new(1000, 1000));
    let b = natural.compute_size(Context::new(1000, 1000));
    assert_eq!(a, b);
}

#[test]
fn measure_overrides_children() {
    let mut node = Node::new().add_child(leaf(500, 500));
    node.set_measure(Size::new(12, 34));
    let size = node.compute_size(Context::new(1000, 1000).as_minimum());
    assert_eq!(size, Size::new(12, 34));
    assert_eq!(node.min_size, Size::new(12, 34));
    assert_eq!(node.children[0].min_size, Size::zero());
}

#[test]
fn minimum_size_caches_nonzero_result() {
    let mut node = leaf(10, 20);
    node.minimum_size(&Context::new(1000, 1000));
    assert_eq!(node.min_size, Size::new(10, 20));
    node.style = Style::new().width((99, ScalarUnit::Px));
    node.minimum_size(&Context::new(1000, 1000));
    assert_eq!(node.min_size, Size::new(10, 20));
}

#[test]
fn natural_context_fills_only_own_axis() {
    let mut node = Node::new().direction(Direction::X).add_child(leaf(10, 20));
    let size = node.compute_size(Context::new(300, 200));
    assert_eq!(size, Size::new(300, 20));
}

#[test]
fn empty_node_is_zero() {
    let mut node = Node::new();
    assert_eq!(node.compute_size(Context::new(1000, 1000).as_minimum()), Size::zero());
}

#[test]
fn fixtures_sizes() {
    let ctx = Context::new(1000, 1000).as_minimum();
    assert_eq!(single_node_fixture().compute_size(ctx), Size::new(100, 100));
    assert_eq!(vertical_stack_fixture().compute_size(ctx), Size::new(200, 350));
    assert_eq!(horizontal_stack_fixture().compute_size(ctx), Size::new(100, 200));
}

#[test]
fn compute_size_caches_own_and_children_sizes() {
    let mut node = Node::new().direction(Direction::X).padding(1).add_child(leaf(30, 40)).add_child(leaf(50, 20));
    let size = node.compute_size(Context::new(1000, 1000).as_minimum());
    assert_eq!(size, Size::new(82, 42));
    assert_eq!(node.min_size, size);
    assert_eq!(node.children[0].min_size, Size::new(30, 40));
    assert_eq!(node.children[1].min_size, Size::new(50, 20));
}

#[test]
fn minimum_size_with_cache_leaves_children_alone() {
    let mut node = Node::new().add_child(leaf(30, 40));
    node.min_size = Size::new(7, 8);
    node.minimum_size(&Context::new(1000, 1000));
    assert_eq!(node.min_size, Size::new(7, 8));
    assert_eq!(node.children[0].min_size, Size::zero());
}
