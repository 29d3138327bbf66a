use crate::context::Context;
use crate::style::Style;
use crate::types::{clamp_i32, max_i32, Align, Direction, FixedScalar, Rectangle, Scalar, Size};
use vstd::prelude::*;

verus! {

broadcast use vstd::std_specs::vec::group_vec_axioms, vstd::seq::group_seq_axioms;

/// A box in the layout tree. It owns its children, in order.
///
/// `min_size` caches the node's minimum size, the zero size meaning "not yet
/// computed"; `dirty` says that the placed box `computed` is stale.
/// `measure`, when set, is the node's intrinsic size (text, images) and takes
/// the place of anything its children would give.
pub struct Node {
    pub children: Vec<Node>,
    pub style: Style,
    pub computed: Rectangle,
    pub min_size: Size,
    pub dirty: bool,
    pub measure: Option<Size>,
}

/// `gap` is counted once between each two neighbouring children.
pub open spec fn gap_count(count: int) -> int {
    if count > 1 { count - 1 } else { 0 }
}

/// The size of a node with this style, `count` children whose combined
/// size is `folded`, in the context `ctx`: padding on both axes, gaps on the
/// stacking axis only (saturated to `i32`), then the node's own constraints,
/// width first. On its stacking axis a node without a declared size grows to
/// the box that the context offers, where that is larger; the minimum
/// context offers none.
pub open spec fn finish(style: Style, count: int, ctx: Context, folded: Size) -> Size {
    let pad: int = match style.padding {
        Some(p) => p as int,
        None => 0,
    };
    let gaps: int = match style.gap {
        Some(g) => g * gap_count(count),
        None => 0,
    };
    let w = clamp_i32(folded.width + 2 * pad + if style.direction == Direction::X { gaps } else { 0 });
    let h = clamp_i32(folded.height + 2 * pad + if style.direction == Direction::Y { gaps } else { 0 });
    Size {
        width: ctx.settle_width(style, w, style.direction == Direction::X),
        height: ctx.settle_height(style, h, style.direction == Direction::Y),
    }
}

/// The minimum size of `n` as its parent reads it in the child context
/// `ctx`: the cached value where one is held, else the size computed in the
/// minimum variant of `ctx`.
pub open spec fn min_of(n: Node, ctx: Context) -> Size
    decreases n, 2nat, 0int,
{
    if n.min_size == Size::spec_zero() {
        size_of(n, ctx.minimum())
    } else {
        n.min_size
    }
}

/// The first `i` children's minimum sizes combined along `direction`,
/// starting from the zero size.
pub open spec fn fold_children(children: Seq<Node>, direction: Direction, ctx: Context, i: int) -> Size
    decreases children, 0nat, i,
{
    if i <= 0 || i > children.len() {
        Size::spec_zero()
    } else {
        fold_children(children, direction, ctx, i - 1).combine(min_of(children[i - 1], ctx), direction)
    }
}

/// The children of `n` combined along its own direction, in the context
/// that `n` hands them.
pub open spec fn content_of(n: Node, ctx: Context) -> Size {
    fold_children(n.children@, n.style.direction, ctx.for_children(n.style, n.computed), n.children@.len() as int)
}

/// The size that `compute_size` gives `n` in the context `ctx`: the
/// intrinsic size where one is set, else the children's combined size
/// finished by the node's own padding, gap and constraints.
pub open spec fn size_of(n: Node, ctx: Context) -> Size
    decreases n, 1nat, 0int,
{
    match n.measure {
        Some(m) => m,
        None => finish(
            n.style,
            n.children@.len() as int,
            ctx,
            fold_children(n.children@, n.style.direction, ctx.for_children(n.style, n.computed), n.children@.len() as int),
        ),
    }
}

/// What sizing keeps of a node: its style, placed box, intrinsic size,
/// dirty flag and number of children.
pub open spec fn keeps_shape(a: Node, b: Node) -> bool {
    &&& b.style == a.style
    &&& b.computed == a.computed
    &&& b.measure == a.measure
    &&& b.dirty == a.dirty
    &&& b.children.len() == a.children.len()
}

/// The minimum size of child `i` of `n`, as `n` reads it in the context `ctx`.
pub open spec fn child_min(n: Node, ctx: Context, i: int) -> Size {
    min_of(n.children@[i], ctx.for_children(n.style, n.computed))
}

/// `n` with a different gap.
pub open spec fn with_gap(n: Node, gap: Option<i32>) -> Node {
    Node { style: Style { gap, ..n.style }, ..n }
}

/// `n` with a different padding.
pub open spec fn with_padding(n: Node, padding: Option<i32>) -> Node {
    Node { style: Style { padding, ..n.style }, ..n }
}

/// Two children combine as sums on the stacking axis and maxima across it:
/// `(w1 + w2, max(h1, h2))` along `X`, `(max(w1, w2), h1 + h2)` along `Y`
/// and `(max(w1, w2), max(h1, h2))` along `Z`. Folding starts from the zero
/// size, so this holds of children whose sizes are not negative, and of sums
/// that fit in an `i32`.
pub proof fn lemma_axis_combination(n: Node, ctx: Context)
    requires
        n.children.len() == 2,
        child_min(n, ctx, 0).width >= 0,
        child_min(n, ctx, 0).height >= 0,
        child_min(n, ctx, 1).width >= 0,
        child_min(n, ctx, 1).height >= 0,
        child_min(n, ctx, 0).width + child_min(n, ctx, 1).width <= i32::MAX,
        child_min(n, ctx, 0).height + child_min(n, ctx, 1).height <= i32::MAX,
    ensures
        ({
            let (a, b) = (child_min(n, ctx, 0), child_min(n, ctx, 1));
            content_of(n, ctx) == match n.style.direction {
                Direction::X => Size { width: (a.width + b.width) as i32, height: max_i32(a.height, b.height) },
                Direction::Y => Size { width: max_i32(a.width, b.width), height: (a.height + b.height) as i32 },
                Direction::Z => Size { width: max_i32(a.width, b.width), height: max_i32(a.height, b.height) },
            }
        }),
{
    reveal_with_fuel(fold_children, 3);
}

/// A gap changes a node's size on its stacking axis only. Where that axis
/// is not constrained, nothing is offered to fill and nothing saturates, it
/// adds `gap * (k - 1)` for `k` children.
pub proof fn lemma_gap_on_axis(n: Node, ctx: Context, gap: i32)
    requires
        n.measure is None,
        n.style.gap == Some(gap),
    ensures
        n.style.direction != Direction::X ==> size_of(n, ctx).width == size_of(with_gap(n, None), ctx).width,
        n.style.direction != Direction::Y ==> size_of(n, ctx).height == size_of(with_gap(n, None), ctx).height,
        ({
            let pad: int = match n.style.padding { Some(p) => p as int, None => 0 };
            let base = content_of(n, ctx).height + 2 * pad;
            let added = gap * gap_count(n.children.len() as int);
            n.style.direction == Direction::Y && n.style.height is None && n.style.max_height is None
                && n.style.min_height is None && ctx.desired_height <= 0 && i32::MIN <= base <= i32::MAX
                && i32::MIN <= base + added <= i32::MAX
                ==> size_of(n, ctx).height == size_of(with_gap(n, None), ctx).height + added
        }),
        ({
            let pad: int = match n.style.padding { Some(p) => p as int, None => 0 };
            let base = content_of(n, ctx).width + 2 * pad;
            let added = gap * gap_count(n.children.len() as int);
            n.style.direction == Direction::X && n.style.width is None && n.style.max_width is None
                && n.style.min_width is None && ctx.desired_width <= 0 && i32::MIN <= base <= i32::MAX
                && i32::MIN <= base + added <= i32::MAX
                ==> size_of(n, ctx).width == size_of(with_gap(n, None), ctx).width + added
        }),
{
    let m = with_gap(n, None);
    assert(ctx.for_children(m.style, m.computed) == ctx.for_children(n.style, n.computed));
}

/// Padding `p` adds `2 * p` to both width and height, whatever the
/// direction, where neither axis is constrained, nothing is offered to fill
/// and nothing saturates.
pub proof fn lemma_padding_both_axes(n: Node, ctx: Context, padding: i32)
    requires
        n.measure is None,
        n.style.padding == Some(padding),
        n.style.width is None,
        n.style.max_width is None,
        n.style.min_width is None,
        n.style.height is None,
        n.style.max_height is None,
        n.style.min_height is None,
        ctx.desired_width <= 0,
        ctx.desired_height <= 0,
        ({
            let gaps: int = match n.style.gap { Some(g) => g * gap_count(n.children.len() as int), None => 0 };
            let w = content_of(n, ctx).width + if n.style.direction == Direction::X { gaps } else { 0 };
            let h = content_of(n, ctx).height + if n.style.direction == Direction::Y { gaps } else { 0 };
            &&& i32::MIN <= w <= i32::MAX
            &&& i32::MIN <= h <= i32::MAX
            &&& i32::MIN <= w + 2 * padding <= i32::MAX
            &&& i32::MIN <= h + 2 * padding <= i32::MAX
        }),
    ensures
        size_of(n, ctx).width == size_of(with_padding(n, None), ctx).width + 2 * padding,
        size_of(n, ctx).height == size_of(with_padding(n, None), ctx).height + 2 * padding,
{
    let m = with_padding(n, None);
    assert(ctx.for_children(m.style, m.computed) == ctx.for_children(n.style, n.computed));
}

/// A declared width replaces the width that the content gives, unless a
/// maximum or minimum width bounds it.
pub proof fn lemma_explicit_width(n: Node, ctx: Context, width: Scalar)
    requires
        n.measure is None,
        n.style.width == Some(width),
        n.style.max_width is None,
        n.style.min_width is None,
    ensures
        size_of(n, ctx).width == ctx.width_px(width),
{
}

/// A declared height replaces the height that the content gives, unless a
/// maximum or minimum height bounds it.
pub proof fn lemma_explicit_height(n: Node, ctx: Context, height: Scalar)
    requires
        n.measure is None,
        n.style.height == Some(height),
        n.style.max_height is None,
        n.style.min_height is None,
    ensures
        size_of(n, ctx).height == ctx.height_px(height),
{
}

/// Where a minimum width exceeds the maximum width, the minimum wins.
pub proof fn lemma_min_width_dominates(n: Node, ctx: Context, min: Scalar, max: Scalar)
    requires
        n.measure is None,
        n.style.min_width == Some(min),
        n.style.max_width == Some(max),
        ctx.width_px(min) >= ctx.width_px(max),
    ensures
        size_of(n, ctx).width == ctx.width_px(min),
{
}

/// Where a minimum height exceeds the maximum height, the minimum wins.
pub proof fn lemma_min_height_dominates(n: Node, ctx: Context, min: Scalar, max: Scalar)
    requires
        n.measure is None,
        n.style.min_height == Some(min),
        n.style.max_height == Some(max),
        ctx.height_px(min) >= ctx.height_px(max),
    ensures
        size_of(n, ctx).height == ctx.height_px(min),
{
}

proof fn lemma_fold_congruent(a: Seq<Node>, b: Seq<Node>, direction: Direction, ctx: Context, i: int)
    requires
        a.len() == b.len(),
        0 <= i <= a.len(),
        forall|j: int| 0 <= j < i ==> min_of(#[trigger] a[j], ctx) == min_of(b[j], ctx),
    ensures
        fold_children(a, direction, ctx, i) == fold_children(b, direction, ctx, i),
    decreases i,
{
    if i > 0 {
        lemma_fold_congruent(a, b, direction, ctx, i - 1);
    }
}

impl Node {
    /// The minimum size of this node, computed in the minimum variant of
    /// `context` and cached, unless a nonzero size is cached already.
    pub fn minimum_size(&mut self, context: &Context)
        ensures
            final(self).min_size == min_of(*old(self), *context),
            min_of(*final(self), *context) == min_of(*old(self), *context),
            keeps_shape(*old(self), *final(self)),
            old(self).min_size != Size::spec_zero() ==> *final(self) == *old(self),
        decreases *old(self), 2nat,
    {
        if self.min_size == Size::zero() {
            let s = self.compute_size(context.as_minimum());
            self.min_size = s;
            assert(size_of(*self, context.minimum()) == s);
        }
    }

    /// The smallest box this node can occupy in `context`. Each child's
    /// minimum size is computed (and cached) first, in the context this node
    /// hands its children, then combined along this node's direction and
    /// finished as `finish` says; the result is cached in `min_size`. A node
    /// with an intrinsic size caches and returns that, and leaves its
    /// children alone. Asked again in the same context, the node gives the
    /// same size.
    pub fn compute_size(&mut self, context: Context) -> (r: Size)
        ensures
            r == size_of(*old(self), context),
            size_of(*final(self), context) == r,
            final(self).min_size == r,
            keeps_shape(*old(self), *final(self)),
            old(self).measure is Some ==> *final(self) == (Node { min_size: r, ..*old(self) }),
            old(self).measure is None ==> forall|i: int|
                0 <= i < old(self).children.len() ==> {
                    &&& #[trigger] final(self).children@[i].min_size == child_min(*old(self), context, i)
                    &&& keeps_shape(old(self).children@[i], final(self).children@[i])
                },
        decreases *old(self), 1nat,
    {
        if let Some(m) = self.measure {
            self.min_size = m;
            return m;
        }
        let ghost pre = *self;
        let child_context = context.child_context(self);
        let direction = self.style.direction;
        let n = self.children.len();
        let mut folded = Size::zero();
        let mut i: usize = 0;
        while i < n
            invariant
                0 <= i <= n,
                pre == *old(self),
                n == pre.children.len(),
                self.children.len() == n,
                self.style == pre.style,
                self.computed == pre.computed,
                self.measure == pre.measure,
                self.dirty == pre.dirty,
                self.min_size == pre.min_size,
                direction == pre.style.direction,
                child_context == context.for_children(pre.style, pre.computed),
                folded == fold_children(pre.children@, direction, child_context, i as int),
                forall|j: int| 0 <= j < i ==> min_of(#[trigger] self.children@[j], child_context) == min_of(pre.children@[j], child_context),
                forall|j: int|
                    0 <= j < i ==> {
                        &&& (#[trigger] self.children@[j]).min_size == min_of(pre.children@[j], child_context)
                        &&& keeps_shape(pre.children@[j], self.children@[j])
                    },
                forall|j: int| i <= j < n ==> #[trigger] self.children@[j] == pre.children@[j],
            decreases n - i,
        {
            let child = &mut self.children[i];
            proof {
                assert(decreases_to!(pre => pre.children));
                assert(decreases_to!(pre.children => pre.children@));
                assert(decreases_to!(pre.children@ => pre.children@[i as int]));
            }
            child.minimum_size(&child_context);
            folded = folded.add(self.children[i].min_size, direction);
            i += 1;
        }
        proof {
            lemma_fold_congruent(self.children@, pre.children@, direction, child_context, n as int);
        }
        let pad: i128 = match self.style.padding {
            Some(p) => p as i128,
            None => 0,
        };
        let gaps: usize = if n > 1 { n - 1 } else { 0 };
        let gap_total: i128 = match self.style.gap {
            Some(g) => {
                assert(-0x8000_0000_0000_0000_0000_0000 <= g as i128 * gaps as i128 <= 0x8000_0000_0000_0000_0000_0000) by (nonlinear_arith)
                    requires
                        -0x8000_0000 <= g < 0x8000_0000,
                        0 <= gaps < 0x1_0000_0000_0000_0000,
                ;
                g as i128 * gaps as i128
            },
            None => 0,
        };
        let wide_width = folded.width as i128 + 2 * pad + if direction == Direction::X { gap_total } else { 0 };
        let wide_height = folded.height as i128 + 2 * pad + if direction == Direction::Y { gap_total } else { 0 };
        let width = context.constrain_width(&self.style, crate::types::saturate(wide_width), direction == Direction::X);
        let height = context.constrain_height(&self.style, crate::types::saturate(wide_height), direction == Direction::Y);
        let r = Size { width, height };
        self.min_size = r;
        r
    }
}

/// `b` is `a` marked dirty, with nothing else changed; with `deep`, every
/// descendant is marked the same way.
pub open spec fn marked(a: Node, b: Node, deep: bool) -> bool
    decreases a,
{
    &&& b.dirty
    &&& b.style == a.style
    &&& b.computed == a.computed
    &&& b.min_size == a.min_size
    &&& b.measure == a.measure
    &&& if deep {
        &&& b.children.len() == a.children.len()
        &&& forall|i: int| 0 <= i < a.children.len() ==> marked(#[trigger] a.children@[i], b.children@[i], true)
    } else {
        b.children == a.children
    }
}

impl Node {
    pub fn new() -> (r: Self)
        ensures
            r.children@ == Seq::<Node>::empty(),
            r.style == Style::spec_new(),
            r.computed == Rectangle::spec_zero(),
            r.min_size == Size::spec_zero(),
            r.dirty,
            r.measure == None::<Size>,
    {
        Self {
            children: Vec::new(),
            style: Style::new(),
            computed: Rectangle::zero(),
            min_size: Size::zero(),
            dirty: true,
            measure: None,
        }
    }

    /// Brings the placed box up to date if it is stale. Placement is not
    /// computed yet: the box is the zero rectangle.
    pub fn compute_layout(&mut self, _context: &Context)
        ensures
            old(self).dirty ==> *final(self) == (Node { computed: Rectangle::spec_zero(), dirty: false, ..*old(self) }),
            !old(self).dirty ==> *final(self) == *old(self),
    {
        if self.dirty {
            self.computed = self.compute_self();
            self.dirty = false;
        }
    }

    /// The placed box of this node: the zero rectangle, placement being
    /// outside the sizing pass.
    pub fn compute_self(&mut self) -> (r: Rectangle)
        ensures
            r == Rectangle::spec_zero(),
            *final(self) == *old(self),
    {
        Rectangle::zero()
    }

    pub fn add_child(self, child: Node) -> (r: Self)
        ensures
            r.children@ == self.children@.push(child),
            r.dirty,
            r.style == self.style,
            r.computed == self.computed,
            r.min_size == self.min_size,
            r.measure == self.measure,
    {
        let mut node = self;
        node.children.push(child);
        node.dirty = true;
        node
    }

    /// Removes the child at `index`; an index out of range changes nothing.
    pub fn remove_child(&mut self, index: usize)
        ensures
            index < old(self).children.len() ==> {
                &&& final(self).children@ == old(self).children@.remove(index as int)
                &&& final(self).dirty
                &&& final(self).style == old(self).style
                &&& final(self).computed == old(self).computed
                &&& final(self).min_size == old(self).min_size
                &&& final(self).measure == old(self).measure
            },
            index >= old(self).children.len() ==> *final(self) == *old(self),
    {
        if index < self.children.len() {
            self.children.remove(index);
            self.dirty = true;
        }
    }

    pub fn get_child(&self, index: usize) -> (r: Option<&Node>)
        ensures
            match r {
                Some(c) => index < self.children.len() && *c == self.children@[index as int],
                None => index >= self.children.len(),
            },
    {
        if index < self.children.len() {
            Some(&self.children[index])
        } else {
            None
        }
    }

    pub fn get_child_mut(&mut self, index: usize) -> (r: Option<&mut Node>)
        ensures
            match r {
                Some(c) => {
                    &&& index < old(self).children.len()
                    &&& *c == old(self).children@[index as int]
                    &&& final(self).children@ == old(self).children@.update(index as int, *final(c))
                    &&& final(self).style == old(self).style
                    &&& final(self).computed == old(self).computed
                    &&& final(self).min_size == old(self).min_size
                    &&& final(self).dirty == old(self).dirty
                    &&& final(self).measure == old(self).measure
                },
                None => index >= old(self).children.len() && *final(self) == *old(self),
            },
    {
        if index < self.children.len() {
            Some(&mut self.children[index])
        } else {
            None
        }
    }

    pub fn set_style(&mut self, style: Style) -> (r: &mut Self)
        ensures
            *r == (Node { style, dirty: true, ..*old(self) }),
            *final(self) == *final(r),
    {
        self.style = style;
        self.dirty = true;
        self
    }

    /// Gives the node an intrinsic size, which from then on replaces the
    /// size its children would give.
    pub fn set_measure(&mut self, measure: Size) -> (r: &mut Self)
        ensures
            *r == (Node { measure: Some(measure), dirty: true, ..*old(self) }),
            *final(self) == *final(r),
    {
        self.measure = Some(measure);
        self.dirty = true;
        self
    }

    /// Marks the node dirty, and with `deep` every node beneath it too.
    pub fn mark_dirty(&mut self, deep: bool) -> (r: &mut Self)
        ensures
            marked(*old(self), *r, deep),
            *final(self) == *final(r),
        decreases *old(self),
    {
        self.dirty = true;
        if deep {
            let ghost pre = *self;
            let n = self.children.len();
            let mut i: usize = 0;
            while i < n
                invariant
                    0 <= i <= n,
                    pre == (Node { dirty: true, ..*old(self) }),
                    self.children.len() == n,
                    n == pre.children.len(),
                    self.dirty,
                    self.style == pre.style,
                    self.computed == pre.computed,
                    self.min_size == pre.min_size,
                    self.measure == pre.measure,
                    forall|j: int| 0 <= j < i ==> marked(#[trigger] pre.children@[j], self.children@[j], true),
                    forall|j: int| i <= j < n ==> #[trigger] self.children@[j] == pre.children@[j],
                decreases n - i,
            {
                let child = &mut self.children[i];
                proof {
                    assert(decreases_to!(pre => pre.children));
                    assert(decreases_to!(pre.children => pre.children@));
                    assert(decreases_to!(pre.children@ => pre.children@[i as int]));
                }
                child.mark_dirty(true);
                i += 1;
            }
        }
        self
    }
}

impl Node {
    // Builders: each sets one style property and marks the node dirty.

    pub fn width(self, width: Scalar) -> (r: Self)
        ensures
            r == (Node { style: Style { width: Some(width), ..self.style }, dirty: true, ..self }),
    {
        let mut node = self;
        node.style = node.style.width(width);
        node.dirty = true;
        node
    }

    pub fn height(self, height: Scalar) -> (r: Self)
        ensures
            r == (Node { style: Style { height: Some(height), ..self.style }, dirty: true, ..self }),
    {
        let mut node = self;
        node.style = node.style.height(height);
        node.dirty = true;
        node
    }

    pub fn min_width(self, min_width: Scalar) -> (r: Self)
        ensures
            r == (Node { style: Style { min_width: Some(min_width), ..self.style }, dirty: true, ..self }),
    {
        let mut node = self;
        node.style = node.style.min_width(min_width);
        node.dirty = true;
        node
    }

    pub fn max_width(self, max_width: Scalar) -> (r: Self)
        ensures
            r == (Node { style: Style { max_width: Some(max_width), ..self.style }, dirty: true, ..self }),
    {
        let mut node = self;
        node.style = node.style.max_width(max_width);
        node.dirty = true;
        node
    }

    pub fn min_height(self, min_height: Scalar) -> (r: Self)
        ensures
            r == (Node { style: Style { min_height: Some(min_height), ..self.style }, dirty: true, ..self }),
    {
        let mut node = self;
        node.style = node.style.min_height(min_height);
        node.dirty = true;
        node
    }

    pub fn max_height(self, max_height: Scalar) -> (r: Self)
        ensures
            r == (Node { style: Style { max_height: Some(max_height), ..self.style }, dirty: true, ..self }),
    {
        let mut node = self;
        node.style = node.style.max_height(max_height);
        node.dirty = true;
        node
    }

    pub fn padding(self, padding: FixedScalar) -> (r: Self)
        ensures
            r == (Node { style: Style { padding: Some(padding), ..self.style }, dirty: true, ..self }),
    {
        let mut node = self;
        node.style = node.style.padding(padding);
        node.dirty = true;
        node
    }

    pub fn gap(self, gap: FixedScalar) -> (r: Self)
        ensures
            r == (Node { style: Style { gap: Some(gap), ..self.style }, dirty: true, ..self }),
    {
        let mut node = self;
        node.style = node.style.gap(gap);
        node.dirty = true;
        node
    }

    pub fn align(self, align: Align) -> (r: Self)
        ensures
            r == (Node { style: Style { align: Some(align), ..self.style }, dirty: true, ..self }),
    {
        let mut node = self;
        node.style = node.style.align(align);
        node.dirty = true;
        node
    }

    pub fn anchor(self, anchor: Align) -> (r: Self)
        ensures
            r == (Node { style: Style { anchor: Some(anchor), ..self.style }, dirty: true, ..self }),
    {
        let mut node = self;
        node.style = node.style.anchor(anchor);
        node.dirty = true;
        node
    }

    pub fn direction(self, direction: Direction) -> (r: Self)
        ensures
            r == (Node { style: Style { direction, ..self.style }, dirty: true, ..self }),
    {
        let mut node = self;
        node.style = node.style.direction(direction);
        node.dirty = true;
        node
    }
}

} // verus!
