use vstd::prelude::*;

verus! {

/// The unit a length is written in.
#[derive(Debug, PartialEq, Eq, Structural, Copy, Clone)]
pub enum ScalarUnit {
    /// Pixels, taken as they are.
    Px,
    /// Percent of the root's height.
    Vh,
    /// Percent of the root's width.
    Vw,
    /// Percent of the nearest explicitly sized ancestor, on the same axis.
    Percent,
}

/// The axis along which a node stacks its children.
#[derive(Debug, PartialEq, Eq, Structural, Copy, Clone)]
pub enum Direction {
    /// Side by side: widths add up, the tallest child gives the height.
    X,
    /// One above the other: heights add up, the widest child gives the width.
    Y,
    /// On top of each other: the largest child gives both.
    Z,
}

/// A length together with its unit.
pub type Scalar = (i32, ScalarUnit);

/// A length in pixels, with its unit already resolved.
pub type FixedScalar = i32;

#[derive(Debug, PartialEq, Eq, Structural, Copy, Clone)]
pub enum HAlign {
    Start,
    Center,
    End,
    Wide,
}

#[derive(Debug, PartialEq, Eq, Structural, Copy, Clone)]
pub enum VAlign {
    Top,
    Center,
    Bottom,
    Tall,
}

/// Placement along one or both axes; kept on a style, not used for sizing.
#[derive(Debug, PartialEq, Eq, Structural, Copy, Clone)]
pub enum Align {
    HAlign(HAlign),
    VAlign(VAlign),
    Both(HAlign, VAlign),
}

/// A placed box.
#[derive(Debug, PartialEq, Eq, Structural, Copy, Clone)]
pub struct Rectangle {
    pub x: FixedScalar,
    pub y: FixedScalar,
    pub width: FixedScalar,
    pub height: FixedScalar,
}

/// A width and a height in pixels.
#[derive(Debug, PartialEq, Eq, Structural, Copy, Clone)]
pub struct Size {
    pub width: FixedScalar,
    pub height: FixedScalar,
}

/// `x` held to the range of `i32`: the nearest bound where it lies outside.
pub open spec fn clamp_i32(x: int) -> i32 {
    if x < i32::MIN {
        i32::MIN
    } else if x > i32::MAX {
        i32::MAX
    } else {
        x as i32
    }
}

pub open spec fn max_i32(a: i32, b: i32) -> i32 {
    if a >= b { a } else { b }
}

pub open spec fn min_i32(a: i32, b: i32) -> i32 {
    if a <= b { a } else { b }
}

/// Saturates a wide intermediate result to a pixel length.
pub(crate) fn saturate(x: i128) -> (r: i32)
    ensures
        r == clamp_i32(x as int),
{
    if x < i32::MIN as i128 {
        i32::MIN
    } else if x > i32::MAX as i128 {
        i32::MAX
    } else {
        x as i32
    }
}

impl Rectangle {
    pub open spec fn spec_zero() -> Rectangle {
        Rectangle { x: 0, y: 0, width: 0, height: 0 }
    }

    pub fn zero() -> (r: Self)
        ensures
            r == Rectangle::spec_zero(),
    {
        Self { x: 0, y: 0, width: 0, height: 0 }
    }

    pub fn new(x: FixedScalar, y: FixedScalar, width: FixedScalar, height: FixedScalar) -> (r: Self)
        ensures
            r == (Rectangle { x, y, width, height }),
    {
        Self { x, y, width, height }
    }
}

impl Size {
    /// The all-zero size, which also marks a minimum size not yet computed.
    pub open spec fn spec_zero() -> Size {
        Size { width: 0, height: 0 }
    }

    /// Two sizes combined along `direction`: summed on the stacking axis
    /// (saturating), the larger taken across it; both larger ones for `Z`.
    pub open spec fn combine(self, other: Size, direction: Direction) -> Size {
        match direction {
            Direction::X => Size {
                width: clamp_i32(self.width + other.width),
                height: max_i32(self.height, other.height),
            },
            Direction::Y => Size {
                width: max_i32(self.width, other.width),
                height: clamp_i32(self.height + other.height),
            },
            Direction::Z => Size {
                width: max_i32(self.width, other.width),
                height: max_i32(self.height, other.height),
            },
        }
    }

    pub fn zero() -> (r: Self)
        ensures
            r == Size::spec_zero(),
    {
        Self { width: 0, height: 0 }
    }

    pub fn new(width: FixedScalar, height: FixedScalar) -> (r: Self)
        ensures
            r == (Size { width, height }),
    {
        Self { width, height }
    }

    pub fn add(self, other: Self, direction: Direction) -> (r: Self)
        ensures
            r == self.combine(other, direction),
    {
        match direction {
            Direction::X => Self {
                width: saturate(self.width as i128 + other.width as i128),
                height: if self.height >= other.height { self.height } else { other.height },
            },
            Direction::Y => Self {
                width: if self.width >= other.width { self.width } else { other.width },
                height: saturate(self.height as i128 + other.height as i128),
            },
            Direction::Z => Self {
                width: if self.width >= other.width { self.width } else { other.width },
                height: if self.height >= other.height { self.height } else { other.height },
            },
        }
    }
}

} // verus!
