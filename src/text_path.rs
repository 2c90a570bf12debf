use vstd::prelude::*;
use crate::decimal::{fixed_text, push_fixed, push_thousandths, thousandths_text};
use crate::dot::{dot_fragment_text, max_int, Dot};
use crate::drawing_style::DrawingStyle;
use crate::svg_drawable::SvgFragment;
use crate::utf_to_binary::{lemma_text_bits_len, text_bits, text_to_binary};

verus! {

/// How a line's bits spread around a circle. The radius is counted in thousandths;
/// the spread and the starting point in thousandths of a full turn.
#[derive(Clone, Copy, Debug, PartialEq, Eq, Structural)]
pub struct ArcStyle {
    pub radius: u32,
    pub arc_percentage: u32,
    pub arc_offset_percentage: u32,
}

/// The per-line overrides: an absent field defers to the document's default.
#[derive(Clone, Copy, Debug, PartialEq, Eq, Structural)]
pub struct TextPathStyle {
    pub zero_dot_style: Option<Dot>,
    pub one_dot_style: Option<Dot>,
    pub arc_style: Option<ArcStyle>,
}

/// One line of the diagram and its overrides.
#[derive(Clone, Debug)]
pub struct TextPath {
    pub style: TextPathStyle,
    pub text: String,
}

/// A present override, else the fallback.
pub open spec fn resolved<T>(value: Option<T>, fallback: T) -> T {
    match value {
        Some(x) => x,
        None => fallback,
    }
}

/// Resolves an optional override against its default.
pub fn resolve<T: Copy>(value: &Option<T>, fallback: &T) -> (r: T)
    ensures
        r == resolved(*value, *fallback),
{
    match value {
        Some(x) => *x,
        None => *fallback,
    }
}

impl Default for TextPathStyle {
    /// A style that overrides nothing.
    fn default() -> (r: TextPathStyle)
        ensures
            r.is_empty(),
    {
        TextPathStyle { zero_dot_style: None, one_dot_style: None, arc_style: None }
    }
}

impl TextPathStyle {
    /// A style that overrides nothing.
    pub open spec fn is_empty(self) -> bool {
        self.zero_dot_style is None && self.one_dot_style is None && self.arc_style is None
    }

    pub open spec fn effective_arc_style(self, style: DrawingStyle) -> ArcStyle {
        resolved(self.arc_style, style.default_arc_style)
    }

    pub open spec fn effective_zero_dot_style(self, style: DrawingStyle) -> Dot {
        resolved(self.zero_dot_style, style.default_zero_dot_style)
    }

    pub open spec fn effective_one_dot_style(self, style: DrawingStyle) -> Dot {
        resolved(self.one_dot_style, style.default_one_dot_style)
    }
}

/// With no override, every effective style is the document's default.
pub proof fn lemma_empty_style_resolves_to_defaults(s: TextPathStyle, style: DrawingStyle)
    requires
        s.is_empty(),
    ensures
        s.effective_zero_dot_style(style) == style.default_zero_dot_style,
        s.effective_one_dot_style(style) == style.default_one_dot_style,
        s.effective_arc_style(style) == style.default_arc_style,
{
}

/// A one-dot override resolves to itself, whatever the document's defaults.
pub proof fn lemma_one_dot_override_resolves_to_itself(
    s: TextPathStyle,
    x: Dot,
    style1: DrawingStyle,
    style2: DrawingStyle,
)
    ensures
        (TextPathStyle { one_dot_style: Some(x), ..s }).effective_one_dot_style(style1) == x,
        (TextPathStyle { one_dot_style: Some(x), ..s }).effective_one_dot_style(style1) == (
        TextPathStyle { one_dot_style: Some(x), ..s }).effective_one_dot_style(style2),
{
}

/// The bits that a line draws: its encoding, or none where the text is not ASCII.
pub open spec fn path_bits(text: Seq<char>) -> Seq<bool> {
    if vstd::utf8::is_ascii_chars(text) {
        text_bits(text)
    } else {
        Seq::<bool>::empty()
    }
}

/// The angle of bit `i` of `n`, in ten-thousandths of a degree (rounded down):
/// the arc's start plus `(i + 1) / n` of its spread.
pub open spec fn bit_angle(arc: ArcStyle, i: nat, n: nat) -> nat {
    ((3600 * (arc.arc_offset_percentage * n + (i + 1) * arc.arc_percentage)) / (n as int)) as nat
}

/// A dot placed on the arc at bit `i` of `n`: turned by the bit's angle, then moved
/// out by the arc's radius, which puts its centre at
/// `(radius * cos(angle), radius * sin(angle))`.
pub open spec fn placed_dot_text(dot_fragment: Seq<char>, arc: ArcStyle, i: nat, n: nat) -> Seq<
    char,
> {
    "<g transform=\"rotate("@ + fixed_text(bit_angle(arc, i, n)) + ") translate("@
        + thousandths_text(arc.radius as nat) + ",0)\">"@ + dot_fragment + "</g>"@
}

/// The first `k` placed dots of a line, in bit order.
pub open spec fn dots_text(
    bits: Seq<bool>,
    zero: Seq<char>,
    one: Seq<char>,
    arc: ArcStyle,
    k: nat,
) -> Seq<char>
    decreases k,
{
    if k == 0 {
        Seq::<char>::empty()
    } else {
        dots_text(bits, zero, one, arc, (k - 1) as nat) + placed_dot_text(
            if bits[k - 1] {
                one
            } else {
                zero
            },
            arc,
            (k - 1) as nat,
            bits.len(),
        )
    }
}

impl TextPath {
    /// The line's bounding radius in half-thousandths: the arc's radius plus twice the
    /// larger dot's bounding radius, a deliberately generous pad.
    pub open spec fn bounding_radius(self, style: DrawingStyle) -> int {
        2 * self.style.effective_arc_style(style).radius + 2 * max_int(
            self.style.effective_one_dot_style(style).bounding_radius(),
            self.style.effective_zero_dot_style(style).bounding_radius(),
        )
    }

    /// The markup of the line, centred on the origin.
    pub open spec fn fragment_text(self, style: DrawingStyle) -> Seq<char> {
        let bits = path_bits(self.text@);
        let color = style.color.stroke_color@;
        dots_text(
            bits,
            dot_fragment_text(self.style.effective_zero_dot_style(style), color),
            dot_fragment_text(self.style.effective_one_dot_style(style), color),
            self.style.effective_arc_style(style),
            bits.len(),
        )
    }

    pub fn get_arc_style(&self, style: &DrawingStyle) -> (r: ArcStyle)
        ensures
            r == self.style.effective_arc_style(*style),
    {
        resolve(&self.style.arc_style, &style.default_arc_style)
    }

    pub fn get_zero_dot_style(&self, style: &DrawingStyle) -> (r: Dot)
        ensures
            r == self.style.effective_zero_dot_style(*style),
    {
        resolve(&self.style.zero_dot_style, &style.default_zero_dot_style)
    }

    pub fn get_one_dot_style(&self, style: &DrawingStyle) -> (r: Dot)
        ensures
            r == self.style.effective_one_dot_style(*style),
    {
        resolve(&self.style.one_dot_style, &style.default_one_dot_style)
    }

    /// The line's bounding radius, in half-thousandths.
    pub fn get_bounding_radius(&self, style: &DrawingStyle) -> (r: u64)
        ensures
            r == self.bounding_radius(*style),
    {
        let arc_style: ArcStyle = self.get_arc_style(style);
        let zero_dot_style: Dot = self.get_zero_dot_style(style);
        let one_dot_style: Dot = self.get_one_dot_style(style);
        let one: u64 = one_dot_style.get_bounding_radius();
        let zero: u64 = zero_dot_style.get_bounding_radius();
        let larger: u64 = if one >= zero {
            one
        } else {
            zero
        };
        2 * arc_style.radius as u64 + 2 * larger
    }
}

/// Appends the dot at bit `i` of `n`, placed on the arc.
fn push_placed_dot(out: &mut String, dot_fragment: &str, arc: ArcStyle, i: usize, n: usize)
    requires
        i < n,
    ensures
        final(out)@ == old(out)@ + placed_dot_text(dot_fragment@, arc, i as nat, n as nat),
{
    proof {
        let off = arc.arc_offset_percentage as int;
        let pct = arc.arc_percentage as int;
        assert(off * n <= 0x1_0000_0000 * 0x1_0000_0000_0000_0000) by (nonlinear_arith)
            requires
                0 <= off <= 0xffff_ffff,
                0 <= n <= 0xffff_ffff_ffff_ffff,
        ;
        assert((i + 1) * pct <= 0x1_0000_0000_0000_0000 * 0x1_0000_0000) by (nonlinear_arith)
            requires
                0 <= pct <= 0xffff_ffff,
                0 <= i < 0xffff_ffff_ffff_ffff,
        ;
    }
    let turn: u128 = arc.arc_offset_percentage as u128 * n as u128 + (i as u128 + 1)
        * arc.arc_percentage as u128;
    let angle: u128 = 3600 * turn / n as u128;
    proof {
        let off = arc.arc_offset_percentage as int;
        let pct = arc.arc_percentage as int;
        assert((i as int + 1) * pct <= n as int * pct) by (nonlinear_arith)
            requires
                i < n,
                pct >= 0,
        ;
        assert(3600 * turn <= (3600 * (off + pct)) * n) by (nonlinear_arith)
            requires
                turn == off * n + (i + 1) * pct,
                (i as int + 1) * pct <= n as int * pct,
        ;
        assert(angle <= 3600 * (off + pct)) by (nonlinear_arith)
            requires
                angle == (3600 * turn) / (n as int),
                3600 * turn <= (3600 * (off + pct)) * n,
                n > 0,
        ;
    }
    out.append("<g transform=\"rotate(");
    push_fixed(out, angle as u64);
    out.append(") translate(");
    push_thousandths(out, arc.radius);
    out.append(",0)\">");
    out.append(dot_fragment);
    out.append("</g>");
}

impl SvgFragment<DrawingStyle> for TextPath {
    open spec fn svg_fragment_text(&self, style: &DrawingStyle) -> Seq<char> {
        self.fragment_text(*style)
    }

    /// Draws the line's bits as dots along its arc, centred on the origin; a line that
    /// cannot be encoded draws nothing.
    fn as_svg_fragment(&self, style: &DrawingStyle) -> (r: String) {
        let text_binary: Vec<bool> = match text_to_binary(self.text.as_str()) {
            Some(text_binary) => text_binary,
            None => Vec::new(),
        };
        let stroke_color: &str = style.color.stroke_color.as_str();
        let zero_dot_string: String = self.get_zero_dot_style(style).as_svg_fragment(
            &stroke_color,
        );
        let one_dot_string: String = self.get_one_dot_style(style).as_svg_fragment(
            &stroke_color,
        );
        let arc_style: ArcStyle = self.get_arc_style(style);
        let num_dots: usize = text_binary.len();
        let ghost bits = text_binary@;
        let mut out = String::new();
        let mut index: usize = 0;
        while index < num_dots
            invariant
                num_dots == bits.len(),
                bits == text_binary@,
                index <= num_dots,
                out@ == dots_text(bits, zero_dot_string@, one_dot_string@, arc_style, index as nat),
            decreases num_dots - index,
        {
            let dot: &str = if text_binary[index] {
                one_dot_string.as_str()
            } else {
                zero_dot_string.as_str()
            };
            push_placed_dot(&mut out, dot, arc_style, index, num_dots);
            index = index + 1;
        }
        out
    }
}

} // verus!
