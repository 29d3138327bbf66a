use crate::types::{Align, Direction, FixedScalar, Scalar};
use vstd::prelude::*;

verus! {

/// The box-model properties of one node. Every constraint is optional:
/// an absent one places no bound on its axis.
pub struct Style {
    pub width: Option<Scalar>,
    pub height: Option<Scalar>,
    pub min_width: Option<Scalar>,
    pub max_width: Option<Scalar>,
    pub min_height: Option<Scalar>,
    pub max_height: Option<Scalar>,
    /// Added on every side.
    pub padding: Option<FixedScalar>,
    /// Added between each two neighbouring children, on the stacking axis.
    pub gap: Option<FixedScalar>,
    pub align: Option<Align>,
    pub anchor: Option<Align>,
    pub direction: Direction,
}

impl Style {
    /// No constraint set, stacking along `Y`.
    pub open spec fn spec_new() -> Style {
        Style {
            width: None,
            height: None,
            min_width: None,
            max_width: None,
            min_height: None,
            max_height: None,
            padding: None,
            gap: None,
            align: None,
            anchor: None,
            direction: Direction::Y,
        }
    }

    pub fn new() -> (r: Self)
        ensures
            r == Style::spec_new(),
    {
        Self {
            width: None,
            height: None,
            min_width: None,
            max_width: None,
            min_height: None,
            max_height: None,
            padding: None,
            gap: None,
            align: None,
            anchor: None,
            direction: Direction::Y,
        }
    }

    pub fn width(self, width: Scalar) -> (r: Self)
        ensures
            r == (Style { width: Some(width), ..self }),
    {
        Self { width: Some(width), ..self }
    }

    pub fn height(self, height: Scalar) -> (r: Self)
        ensures
            r == (Style { height: Some(height), ..self }),
    {
        Self { height: Some(height), ..self }
    }

    pub fn min_width(self, min_width: Scalar) -> (r: Self)
        ensures
            r == (Style { min_width: Some(min_width), ..self }),
    {
        Self { min_width: Some(min_width), ..self }
    }

    pub fn max_width(self, max_width: Scalar) -> (r: Self)
        ensures
            r == (Style { max_width: Some(max_width), ..self }),
    {
        Self { max_width: Some(max_width), ..self }
    }

    pub fn min_height(self, min_height: Scalar) -> (r: Self)
        ensures
            r == (Style { min_height: Some(min_height), ..self }),
    {
        Self { min_height: Some(min_height), ..self }
    }

    pub fn max_height(self, max_height: Scalar) -> (r: Self)
        ensures
            r == (Style { max_height: Some(max_height), ..self }),
    {
        Self { max_height: Some(max_height), ..self }
    }

    pub fn padding(self, padding: FixedScalar) -> (r: Self)
        ensures
            r == (Style { padding: Some(padding), ..self }),
    {
        Self { padding: Some(padding), ..self }
    }

    pub fn gap(self, gap: FixedScalar) -> (r: Self)
        ensures
            r == (Style { gap: Some(gap), ..self }),
    {
        Self { gap: Some(gap), ..self }
    }

    pub fn align(self, align: Align) -> (r: Self)
        ensures
            r == (Style { align: Some(align), ..self }),
    {
        Self { align: Some(align), ..self }
    }

    pub fn anchor(self, anchor: Align) -> (r: Self)
        ensures
            r == (Style { anchor: Some(anchor), ..self }),
    {
        Self { anchor: Some(anchor), ..self }
    }

    pub fn direction(self, direction: Direction) -> (r: Self)
        ensures
            r == (Style { direction, ..self }),
    {
        Self { direction, ..self }
    }
}

} // verus!
