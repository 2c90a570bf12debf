use vstd::prelude::*;
use crate::dot::Dot;
use crate::text_path::ArcStyle;

verus! {

/// The colours of a document, as CSS colour strings.
#[derive(Clone, Debug, PartialEq)]
pub struct DrawingColors {
    pub stroke_color: String,
    pub background_color: String,
}

/// The document-wide defaults: always fully populated.
#[derive(Clone, Debug)]
pub struct DrawingStyle {
    pub color: DrawingColors,
    pub default_zero_dot_style: Dot,
    pub default_one_dot_style: Dot,
    pub default_arc_style: ArcStyle,
}

} // verus!
