use vstd::prelude::*;
use crate::decimal::{
    half_thousandths_text, push_half_thousandths, push_thousandths, thousandths_text,
};
use crate::svg_drawable::{translate_svg, translated_text, SvgFragment, SvgRenderer};

verus! {

/// The marker of one bit: a filled disk and a concentric ring.
/// Lengths are counted in thousandths.
#[derive(Clone, Copy, Debug, PartialEq, Eq, Structural)]
pub struct Dot {
    pub circle_radius: u32,
    pub ring_radius: u32,
    pub ring_stroke_width: u32,
}

pub open spec fn max_int(a: int, b: int) -> int {
    if a >= b {
        a
    } else {
        b
    }
}

impl Dot {
    /// The radius of the smallest disk that holds the dot, in half-thousandths:
    /// the larger of the disk's radius and the ring's outer edge.
    pub open spec fn bounding_radius(self) -> int {
        max_int(2 * self.circle_radius, 2 * self.ring_radius + self.ring_stroke_width)
    }

    /// The dot's bounding radius, in half-thousandths.
    pub fn get_bounding_radius(&self) -> (r: u64)
        ensures
            r == self.bounding_radius(),
    {
        let ring_radius: u64 = 2 * self.ring_radius as u64 + self.ring_stroke_width as u64;
        let circle_radius: u64 = 2 * self.circle_radius as u64;
        if circle_radius >= ring_radius {
            circle_radius
        } else {
            ring_radius
        }
    }
}

impl Dot {
    /// The dot's description, `Dot(circle radius, ring radius, ring stroke width)`.
    pub open spec fn description(self) -> Seq<char> {
        "Dot("@ + thousandths_text(self.circle_radius as nat) + ", "@ + thousandths_text(
            self.ring_radius as nat,
        ) + ", "@ + thousandths_text(self.ring_stroke_width as nat) + ")"@
    }

    /// Describes the dot, `Dot(circle radius, ring radius, ring stroke width)`.
    pub fn to_string(&self) -> (r: String)
        ensures
            r@ == self.description(),
    {
        let mut out = String::from_str("Dot(");
        push_thousandths(&mut out, self.circle_radius);
        out.append(", ");
        push_thousandths(&mut out, self.ring_radius);
        out.append(", ");
        push_thousandths(&mut out, self.ring_stroke_width);
        out.append(")");
        out
    }
}

/// The markup of a dot centred on the origin: the disk filled with the stroke
/// colour, and the ring stroked with it.
pub open spec fn dot_fragment_text(dot: Dot, stroke_color: Seq<char>) -> Seq<char> {
    "<circle r=\""@ + thousandths_text(dot.circle_radius as nat) + "\" fill=\""@ + stroke_color
        + "\" />"@ + "<circle r=\""@ + thousandths_text(dot.ring_radius as nat)
        + "\" fill=\"transparent\" stroke=\""@ + stroke_color + "\" stroke-width=\""@
        + thousandths_text(dot.ring_stroke_width as nat) + "\" />"@
}

/// The markup of a document that shows a dot alone, sized to its bounding square.
pub open spec fn dot_document_text(dot: Dot, stroke_color: Seq<char>) -> Seq<char> {
    let side = 2 * dot.bounding_radius();
    "<svg xmlns='http://www.w3.org/2000/svg' viewBox='0 0 "@ + half_thousandths_text(side as nat)
        + " "@ + half_thousandths_text(side as nat) + "'>"@ + translated_text(
        dot_fragment_text(dot, stroke_color),
        dot.bounding_radius() as nat,
        dot.bounding_radius() as nat,
    ) + "</svg>"@
}

impl<'a> SvgFragment<&'a str> for Dot {
    open spec fn svg_fragment_text(&self, style: &&'a str) -> Seq<char> {
        dot_fragment_text(*self, (*style)@)
    }

    fn as_svg_fragment(&self, style: &&'a str) -> (r: String) {
        let stroke_color: &str = *style;
        let mut out = String::from_str("<circle r=\"");
        push_thousandths(&mut out, self.circle_radius);
        out.append("\" fill=\"");
        out.append(stroke_color);
        out.append("\" />");
        out.append("<circle r=\"");
        push_thousandths(&mut out, self.ring_radius);
        out.append("\" fill=\"transparent\" stroke=\"");
        out.append(stroke_color);
        out.append("\" stroke-width=\"");
        push_thousandths(&mut out, self.ring_stroke_width);
        out.append("\" />");
        out
    }
}

impl<'a> SvgRenderer<&'a str> for Dot {
    open spec fn standalone_svg_text(&self, style: &&'a str) -> Seq<char> {
        dot_document_text(*self, (*style)@)
    }

    fn as_standalone_svg(&self, style: &&'a str) -> (r: String) {
        let radius: u64 = self.get_bounding_radius();
        let side: u64 = 2 * radius;
        let base_svg: String = self.as_svg_fragment(style);
        let mut out = String::from_str("<svg xmlns='http://www.w3.org/2000/svg' viewBox='0 0 ");
        push_half_thousandths(&mut out, side);
        out.append(" ");
        push_half_thousandths(&mut out, side);
        out.append("'>");
        let placed: String = translate_svg(base_svg.as_str(), radius, radius);
        out.append(placed.as_str());
        out.append("</svg>");
        out
    }
}

} // verus!
