use crate::node::Node;
use crate::style::Style;
use crate::types::{clamp_i32, max_i32, min_i32, FixedScalar, Rectangle, Scalar, ScalarUnit};
use vstd::prelude::*;

verus! {

/// The frame against which relative lengths resolve during one traversal.
///
/// `sized_ancestor_*` is the size of the nearest ancestor (or the root) that
/// declares that dimension in its style; `desired_*` is the box that the
/// node's parent offers it, zero in a minimum context.
#[derive(Clone, Copy)]
pub struct Context {
    pub root_width: FixedScalar,
    pub root_height: FixedScalar,
    pub sized_ancestor_width: FixedScalar,
    pub sized_ancestor_height: FixedScalar,
    pub desired_width: FixedScalar,
    pub desired_height: FixedScalar,
}

/// `value` percent of `base`, truncated toward zero, saturated to `i32`.
pub open spec fn percent_of(value: int, base: int) -> i32 {
    let p = value * base;
    clamp_i32(if p >= 0 { p / 100 } else { -((-p) / 100) })
}

fn scale_percent(value: i32, base: i32) -> (r: FixedScalar)
    ensures
        r == percent_of(value as int, base as int),
{
    let v = value as i64;
    let b = base as i64;
    assert(-0x4000_0000_0000_0000 <= v * b <= 0x4000_0000_0000_0000) by (nonlinear_arith)
        requires
            -0x8000_0000 <= v < 0x8000_0000,
            -0x8000_0000 <= b < 0x8000_0000,
    ;
    let p: i64 = v * b;
    let q: i64 = if p >= 0 { p / 100 } else { -((-p) / 100) };
    if q < i32::MIN as i64 {
        i32::MIN
    } else if q > i32::MAX as i64 {
        i32::MAX
    } else {
        q as i32
    }
}

/// A percent width resolves against the nearest ancestor that declares a
/// width: through a node that declares none, the base passes unchanged, so
/// the root's width is not used in its place.
pub proof fn lemma_percent_nearest_sized_width(
    ctx: Context,
    sized: Style,
    sized_box: Rectangle,
    between: Style,
    between_box: Rectangle,
    width: Scalar,
    percent: i32,
)
    requires
        sized.width == Some(width),
        between.width is None,
    ensures
        ctx.for_children(sized, sized_box).for_children(between, between_box).width_px(
            (percent, ScalarUnit::Percent),
        ) == percent_of(percent as int, ctx.width_px(width) as int),
{
}

/// A percent height resolves against the nearest ancestor that declares a
/// height, as for widths.
pub proof fn lemma_percent_nearest_sized_height(
    ctx: Context,
    sized: Style,
    sized_box: Rectangle,
    between: Style,
    between_box: Rectangle,
    height: Scalar,
    percent: i32,
)
    requires
        sized.height == Some(height),
        between.height is None,
    ensures
        ctx.for_children(sized, sized_box).for_children(between, between_box).height_px(
            (percent, ScalarUnit::Percent),
        ) == percent_of(percent as int, ctx.height_px(height) as int),
{
}

/// Viewport units resolve against the root alone, on either axis and at any
/// depth: `Vw` against the root's width, also for a height, and `Vh`
/// against the root's height. No ancestor's size enters.
pub proof fn lemma_viewport_ignores_ancestors(ctx: Context, style: Style, computed: Rectangle, value: i32)
    ensures
        ctx.for_children(style, computed).root_width == ctx.root_width,
        ctx.for_children(style, computed).root_height == ctx.root_height,
        ctx.height_px((value, ScalarUnit::Vw)) == percent_of(value as int, ctx.root_width as int),
        ctx.width_px((value, ScalarUnit::Vw)) == percent_of(value as int, ctx.root_width as int),
        ctx.height_px((value, ScalarUnit::Vh)) == percent_of(value as int, ctx.root_height as int),
        ctx.width_px((value, ScalarUnit::Vh)) == percent_of(value as int, ctx.root_height as int),
{
}

impl Context {
    /// The context of a root of the given size: the root is its own sized
    /// ancestor and offers its whole box.
    pub open spec fn spec_new(root_width: i32, root_height: i32) -> Context {
        Context {
            root_width,
            root_height,
            sized_ancestor_width: root_width,
            sized_ancestor_height: root_height,
            desired_width: root_width,
            desired_height: root_height,
        }
    }

    /// The same frame with nothing offered to fill.
    pub open spec fn minimum(self) -> Context {
        Context { desired_width: 0, desired_height: 0, ..self }
    }

    /// A width resolved to pixels: percent against the sized ancestor's width,
    /// `Vw` against the root's width, `Vh` against the root's height.
    pub open spec fn width_px(self, value: Scalar) -> i32 {
        match value.1 {
            ScalarUnit::Px => value.0,
            ScalarUnit::Percent => percent_of(value.0 as int, self.sized_ancestor_width as int),
            ScalarUnit::Vw => percent_of(value.0 as int, self.root_width as int),
            ScalarUnit::Vh => percent_of(value.0 as int, self.root_height as int),
        }
    }

    /// A height resolved to pixels: percent against the sized ancestor's height,
    /// `Vw` against the root's width, `Vh` against the root's height.
    pub open spec fn height_px(self, value: Scalar) -> i32 {
        match value.1 {
            ScalarUnit::Px => value.0,
            ScalarUnit::Percent => percent_of(value.0 as int, self.sized_ancestor_height as int),
            ScalarUnit::Vw => percent_of(value.0 as int, self.root_width as int),
            ScalarUnit::Vh => percent_of(value.0 as int, self.root_height as int),
        }
    }

    /// The context handed to the children of a node with this style and
    /// placed box: a declared width or height (resolved here) becomes the
    /// sized ancestor's, an undeclared one is passed on unchanged.
    pub open spec fn for_children(self, style: Style, computed: Rectangle) -> Context {
        Context {
            root_width: self.root_width,
            root_height: self.root_height,
            sized_ancestor_width: match style.width {
                Some(w) => self.width_px(w),
                None => self.sized_ancestor_width,
            },
            sized_ancestor_height: match style.height {
                Some(h) => self.height_px(h),
                None => self.sized_ancestor_height,
            },
            desired_width: computed.width,
            desired_height: computed.height,
        }
    }

    pub fn new(root_width: FixedScalar, root_height: FixedScalar) -> (r: Self)
        ensures
            r == Context::spec_new(root_width, root_height),
    {
        Self {
            root_width,
            root_height,
            sized_ancestor_width: root_width,
            sized_ancestor_height: root_height,
            desired_width: root_width,
            desired_height: root_height,
        }
    }

    pub fn as_minimum(&self) -> (r: Self)
        ensures
            r == self.minimum(),
    {
        Self {
            root_width: self.root_width,
            root_height: self.root_height,
            sized_ancestor_width: self.sized_ancestor_width,
            sized_ancestor_height: self.sized_ancestor_height,
            desired_width: 0,
            desired_height: 0,
        }
    }

    pub fn pixelize_width(&self, value: Scalar) -> (r: FixedScalar)
        ensures
            r == self.width_px(value),
    {
        match value.1 {
            ScalarUnit::Px => value.0,
            ScalarUnit::Percent => scale_percent(value.0, self.sized_ancestor_width),
            ScalarUnit::Vw => scale_percent(value.0, self.root_width),
            ScalarUnit::Vh => scale_percent(value.0, self.root_height),
        }
    }

    pub fn pixelize_height(&self, value: Scalar) -> (r: FixedScalar)
        ensures
            r == self.height_px(value),
    {
        match value.1 {
            ScalarUnit::Px => value.0,
            ScalarUnit::Percent => scale_percent(value.0, self.sized_ancestor_height),
            ScalarUnit::Vw => scale_percent(value.0, self.root_width),
            ScalarUnit::Vh => scale_percent(value.0, self.root_height),
        }
    }
    /// A node's width from its content width `content`: a declared width
    /// replaces it; otherwise, where `fill` is set, the box that the context
    /// offers replaces it if larger. Then `max_width` bounds it from above and
    /// `min_width`, applied last, from below, so the minimum wins a conflict.
    pub open spec fn settle_width(self, style: Style, content: i32, fill: bool) -> i32 {
        let w = match style.width {
            Some(v) => self.width_px(v),
            None => if fill && self.desired_width > 0 && self.desired_width > content {
                self.desired_width
            } else {
                content
            },
        };
        let w = match style.max_width {
            Some(v) => min_i32(w, self.width_px(v)),
            None => w,
        };
        match style.min_width {
            Some(v) => max_i32(w, self.width_px(v)),
            None => w,
        }
    }

    /// A node's height from its content height, as `settle_width` does for
    /// the width.
    pub open spec fn settle_height(self, style: Style, content: i32, fill: bool) -> i32 {
        let h = match style.height {
            Some(v) => self.height_px(v),
            None => if fill && self.desired_height > 0 && self.desired_height > content {
                self.desired_height
            } else {
                content
            },
        };
        let h = match style.max_height {
            Some(v) => min_i32(h, self.height_px(v)),
            None => h,
        };
        match style.min_height {
            Some(v) => max_i32(h, self.height_px(v)),
            None => h,
        }
    }

    pub fn child_context(&self, node: &Node) -> (r: Self)
        ensures
            r == self.for_children(node.style, node.computed),
    {
        let sized_ancestor_width = match node.style.width {
            Some(width) => self.pixelize_width(width),
            None => self.sized_ancestor_width,
        };
        let sized_ancestor_height = match node.style.height {
            Some(height) => self.pixelize_height(height),
            None => self.sized_ancestor_height,
        };
        Self {
            root_width: self.root_width,
            root_height: self.root_height,
            sized_ancestor_width,
            sized_ancestor_height,
            desired_width: node.computed.width,
            desired_height: node.computed.height,
        }
    }

    pub(crate) fn constrain_width(&self, style: &Style, content: i32, fill: bool) -> (r: i32)
        ensures
            r == self.settle_width(*style, content, fill),
    {
        let mut w = match style.width {
            Some(v) => self.pixelize_width(v),
            None => if fill && self.desired_width > 0 && self.desired_width > content {
                self.desired_width
            } else {
                content
            },
        };
        if let Some(v) = style.max_width {
            let m = self.pixelize_width(v);
            if m < w {
                w = m;
            }
        }
        if let Some(v) = style.min_width {
            let m = self.pixelize_width(v);
            if m > w {
                w = m;
            }
        }
        w
    }

    pub(crate) fn constrain_height(&self, style: &Style, content: i32, fill: bool) -> (r: i32)
        ensures
            r == self.settle_height(*style, content, fill),
    {
        let mut h = match style.height {
            Some(v) => self.pixelize_height(v),
            None => if fill && self.desired_height > 0 && self.desired_height > content {
                self.desired_height
            } else {
                content
            },
        };
        if let Some(v) = style.max_height {
            let m = self.pixelize_height(v);
            if m < h {
                h = m;
            }
        }
        if let Some(v) = style.min_height {
            let m = self.pixelize_height(v);
            if m > h {
                h = m;
            }
        }
        h
    }
}

} // verus!
