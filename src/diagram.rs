use vstd::prelude::*;
use crate::decimal::{half_thousandths_text, push_half_thousandths};
use crate::dot::max_int;
use crate::drawing_style::DrawingStyle;
use crate::geom::{Rect, Vector2};
use crate::svg_drawable::{translate_svg, translated_text, SvgFragment};
use crate::text_path::TextPath;
use crate::xml_text::{
    escaped_text, lemma_escaped_has_no_apostrophe, lemma_unescape_escaped, push_escaped,
    unescaped_text,
};

verus! {

/// The content of a document: its lines, laid out concentrically, and the padding
/// around them (in thousandths).
#[derive(Clone, Debug)]
pub struct Diagram {
    pub paths: Vec<TextPath>,
    pub diagram_padding: u32,
}

/// The smallest bounding radius of a diagram, one unit, in half-thousandths.
pub const MIN_BOUNDING_RADIUS: u64 = 2000;

/// The largest bounding radius of the first `k` lines, and never less than one unit.
pub open spec fn bounding_radius_of(paths: Seq<TextPath>, style: DrawingStyle, k: nat) -> int
    decreases k,
{
    if k == 0 {
        MIN_BOUNDING_RADIUS as int
    } else {
        max_int(
            bounding_radius_of(paths, style, (k - 1) as nat),
            paths[k - 1].bounding_radius(style),
        )
    }
}

/// The first `k` lines' markup, each moved to the centre `(c, c)`.
pub open spec fn paths_text(paths: Seq<TextPath>, style: DrawingStyle, c: nat, k: nat) -> Seq<
    char,
>
    decreases k,
{
    if k == 0 {
        Seq::<char>::empty()
    } else {
        paths_text(paths, style, c, (k - 1) as nat) + translated_text(
            paths[k - 1].fragment_text(style),
            c,
            c,
        )
    }
}

/// A bound on every line's bounding radius, whatever its fields hold.
pub const MAX_BOUNDING_RADIUS: u64 = 0x20_0000_0000;

pub proof fn lemma_path_bounding_radius_bounded(p: TextPath, style: DrawingStyle)
    ensures
        0 <= p.bounding_radius(style) <= MAX_BOUNDING_RADIUS,
{
}

/// How every exported document opens, up to its embedded state.
pub open spec fn document_prefix() -> Seq<char> {
    "<svg xmlns='http://www.w3.org/2000/svg' xmlns:dots='dots' dots:config='"@
}

/// An exported document carries the state it was given as its `dots:config`
/// attribute: escaped, closed by the first apostrophe after it, and read back
/// unchanged.
pub proof fn lemma_exported_state_reads_back(d: Diagram, style: DrawingStyle, state: Seq<char>)
    ensures
        ({
            let doc = d.document_text(style, state);
            let p = document_prefix().len() as int;
            let e = escaped_text(state);
            &&& doc.take(p) == document_prefix()
            &&& doc.subrange(p, p + e.len() as int) == e
            &&& doc[p + e.len() as int] == '\''
        }),
        !escaped_text(state).contains('\''),
        unescaped_text(escaped_text(state)) == state,
{
    reveal_strlit("' viewBox='0 0 ");
    lemma_escaped_has_no_apostrophe(state);
    lemma_unescape_escaped(state);
    let doc = d.document_text(style, state);
    let p = document_prefix().len() as int;
    let e = escaped_text(state);
    let rest = doc.skip(p + e.len() as int);
    assert(doc =~= document_prefix() + e + rest);
    assert(doc.take(p) =~= document_prefix());
    assert(doc.subrange(p, p + e.len() as int) =~= e);
    assert(rest[0] == '\'');
}

/// The opening of a document of the given side: the root element carrying the
/// embedded state, and the background square.
pub open spec fn document_head_text(state: Seq<char>, side: nat, background: Seq<char>) -> Seq<
    char,
> {
    let side = half_thousandths_text(side);
    document_prefix() + escaped_text(state) + "' viewBox='0 0 "@ + side + " "@ + side + "'>"@ + "<rect x=\"0\" y=\"0\" width=\""@
        + side + "\" height=\""@ + side + "\" fill=\""@ + background + "\" />"@
}

fn document_head(state: &str, side: u64, background: &str) -> (r: String)
    requires
        side <= u64::MAX / 5,
    ensures
        r@ == document_head_text(state@, side as nat, background@),
{
    let mut out = String::from_str(
        "<svg xmlns='http://www.w3.org/2000/svg' xmlns:dots='dots' dots:config='",
    );
    push_escaped(&mut out, state);
    out.append("' viewBox='0 0 ");
    push_half_thousandths(&mut out, side);
    out.append(" ");
    push_half_thousandths(&mut out, side);
    out.append("'>");
    out.append("<rect x=\"0\" y=\"0\" width=\"");
    push_half_thousandths(&mut out, side);
    out.append("\" height=\"");
    push_half_thousandths(&mut out, side);
    out.append("\" fill=\"");
    out.append(background);
    out.append("\" />");
    out
}

impl Diagram {
    /// The diagram's bounding radius, in half-thousandths.
    pub open spec fn bounding_radius(self, style: DrawingStyle) -> int {
        bounding_radius_of(self.paths@, style, self.paths@.len())
    }

    /// The side of the diagram's bounding square, in half-thousandths: twice the
    /// bounding radius plus the padding.
    pub open spec fn bounding_side(self, style: DrawingStyle) -> int {
        2 * (self.bounding_radius(style) + 2 * self.diagram_padding)
    }

    /// The markup of the complete document, with `state` embedded as its
    /// `dots:config` attribute.
    pub open spec fn document_text(self, style: DrawingStyle, state: Seq<char>) -> Seq<char> {
        let center = (self.bounding_radius(style) + 2 * self.diagram_padding) as nat;
        document_head_text(
            state,
            self.bounding_side(style) as nat,
            style.color.background_color@,
        ) + paths_text(self.paths@, style, center, self.paths@.len()) + "</svg>"@
    }

    /// The diagram's bounding radius, in half-thousandths.
    pub fn get_bounding_radius(&self, style: &DrawingStyle) -> (r: u64)
        ensures
            r == self.bounding_radius(*style),
            MIN_BOUNDING_RADIUS <= r <= MAX_BOUNDING_RADIUS,
    {
        let mut radius: u64 = MIN_BOUNDING_RADIUS;
        let mut i: usize = 0;
        while i < self.paths.len()
            invariant
                i <= self.paths@.len(),
                radius == bounding_radius_of(self.paths@, *style, i as nat),
                MIN_BOUNDING_RADIUS <= radius <= MAX_BOUNDING_RADIUS,
            decreases self.paths@.len() - i,
        {
            proof {
                lemma_path_bounding_radius_bounded(self.paths@[i as int], *style);
            }
            let path_radius: u64 = self.paths[i].get_bounding_radius(style);
            if path_radius > radius {
                radius = path_radius;
            }
            i = i + 1;
        }
        radius
    }

    /// The bounding square, with its top-left corner at the origin.
    pub fn get_bounding_rect(&self, style: &DrawingStyle) -> (r: Rect)
        ensures
            r.x == 0,
            r.y == 0,
            r.width == self.bounding_side(*style),
            r.height == self.bounding_side(*style),
            MIN_BOUNDING_RADIUS <= self.bounding_radius(*style) <= MAX_BOUNDING_RADIUS,
            r.width <= 4 * MAX_BOUNDING_RADIUS,
    {
        let radius: u64 = self.get_bounding_radius(style);
        let side: u64 = 2 * (radius + 2 * self.diagram_padding as u64);
        Rect { x: 0, y: 0, width: side, height: side }
    }

    /// Composes the standalone document: a background square, every line's dots
    /// around the square's centre, and `state` embedded so that the document can be
    /// read back.
    pub fn as_standalone_svg(&self, style: &DrawingStyle, state: &str) -> (r: String)
        ensures
            r@ == self.document_text(*style, state@),
    {
        let bounds: Rect = self.get_bounding_rect(style);
        let center: Vector2 = bounds.center();
        let mut out: String = document_head(
            state,
            bounds.width,
            style.color.background_color.as_str(),
        );
        let ghost head = out@;
        let mut i: usize = 0;
        while i < self.paths.len()
            invariant
                i <= self.paths@.len(),
                center.x == center.y,
                center.x == self.bounding_radius(*style) + 2 * self.diagram_padding,
                center.x <= u64::MAX / 5,
                out@ == head + paths_text(self.paths@, *style, center.x as nat, i as nat),
            decreases self.paths@.len() - i,
        {
            let fragment: String = self.paths[i].as_svg_fragment(style);
            let placed: String = translate_svg(fragment.as_str(), center.x, center.y);
            out.append(placed.as_str());
            i = i + 1;
        }
        out.append("</svg>");
        out
    }
}

} // verus!
