use vstd::prelude::*;
use crate::decimal::{half_thousandths_text, push_half_thousandths};

verus! {

/// Renders a value as an SVG fragment centred on the origin.
pub trait SvgFragment<TStyle> {
    /// The markup of the fragment.
    spec fn svg_fragment_text(&self, style: &TStyle) -> Seq<char>;

    fn as_svg_fragment(&self, style: &TStyle) -> (r: String)
        ensures
            r@ == self.svg_fragment_text(style),
    ;
}

/// Renders a value as a complete SVG document.
pub trait SvgRenderer<TStyle> {
    /// The markup of the document.
    spec fn standalone_svg_text(&self, style: &TStyle) -> Seq<char>;

    fn as_standalone_svg(&self, style: &TStyle) -> (r: String)
        ensures
            r@ == self.standalone_svg_text(style),
    ;
}

/// A fragment moved by `(x, y)`, both in half-thousandths.
pub open spec fn translated_text(fragment: Seq<char>, x: nat, y: nat) -> Seq<char> {
    "<g transform=\"translate("@ + half_thousandths_text(x) + ","@ + half_thousandths_text(y)
        + ")\">"@ + fragment + "</g>"@
}

/// Wraps `fragment` in a group moved by `(x, y)`, both in half-thousandths.
pub fn translate_svg(fragment: &str, x: u64, y: u64) -> (r: String)
    requires
        x <= u64::MAX / 5,
        y <= u64::MAX / 5,
    ensures
        r@ == translated_text(fragment@, x as nat, y as nat),
{
    let mut out = String::from_str("<g transform=\"translate(");
    push_half_thousandths(&mut out, x);
    out.append(",");
    push_half_thousandths(&mut out, y);
    out.append(")\">");
    out.append(fragment);
    out.append("</g>");
    out
}

} // verus!
