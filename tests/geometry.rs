use radial_dots::app::App;
use radial_dots::dot::Dot;
use radial_dots::drawing_style::{DrawingColors, DrawingStyle};
use radial_dots::svg_drawable::{SvgFragment, SvgRenderer};
use radial_dots::text_path::{ArcStyle, TextPath, TextPathStyle};

fn sample_style() -> DrawingStyle {
    DrawingStyle {
        color: DrawingColors {
            stroke_color: "#123456".to_string(),
            background_color: "#ffffff".to_string(),
        },
        default_zero_dot_style: Dot { circle_radius: 1000, ring_radius: 2000, ring_stroke_width: 100 },
        default_one_dot_style: Dot { circle_radius: 500, ring_radius: 2000, ring_stroke_width: 0 },
        default_arc_style: ArcStyle { radius: 5000, arc_percentage: 1000, arc_offset_percentage: 0 },
    }
}

fn no_overrides() -> TextPathStyle {
    TextPathStyle { zero_dot_style: None, one_dot_style: None, arc_style: None }
}

#[test]
fn dot_bounding_radius_takes_the_larger_extent() {
    // max(3, 2 + 1 / 2) = 3, in half-thousandths.
    let dot = Dot { circle_radius: 3000, ring_radius: 2000, ring_stroke_width: 1000 };
    assert_eq!(dot.get_bounding_radius(), 6000);
    // max(1, 2 + 0.1 / 2) = 2.05
    let ring = Dot { circle_radius: 1000, ring_radius: 2000, ring_stroke_width: 100 };
    assert_eq!(ring.get_bounding_radius(), 4100);
}

#[test]
fn dot_fragment_markup() {
    let dot = Dot { circle_radius: 1000, ring_radius: 2000, ring_stroke_width: 100 };
    assert_eq!(
        dot.as_svg_fragment(&"#333333"),
        "<circle r=\"1\" fill=\"#333333\" /><circle r=\"2\" fill=\"transparent\" \
         stroke=\"#333333\" stroke-width=\"0.1\" />",
    );
}

#[test]
fn dot_standalone_document_is_sized_to_the_dot() {
    let dot = Dot { circle_radius: 500, ring_radius: 1250, ring_stroke_width: 3 };
    let svg = dot.as_standalone_svg(&"red");
    // bounding radius 1.2515, side 2.503
    assert!(svg.starts_with("<svg xmlns='http://www.w3.org/2000/svg' viewBox='0 0 2.503 2.503'>"));
    assert!(svg.contains("<g transform=\"translate(1.2515,1.2515)\">"));
    assert!(svg.ends_with("</g></svg>"));
}

#[test]
fn empty_overrides_resolve_to_defaults() {
    let style = sample_style();
    let path = TextPath { style: no_overrides(), text: "x".to_string() };
    assert_eq!(path.get_zero_dot_style(&style), style.default_zero_dot_style);
    assert_eq!(path.get_one_dot_style(&style), style.default_one_dot_style);
    assert_eq!(path.get_arc_style(&style), style.default_arc_style);
}

#[test]
fn override_resolves_to_itself() {
    let x = Dot { circle_radius: 7, ring_radius: 8, ring_stroke_width: 9 };
    let path = TextPath {
        style: TextPathStyle { one_dot_style: Some(x), ..no_overrides() },
        text: "x".to_string(),
    };
    let mut other = sample_style();
    other.default_one_dot_style = Dot { circle_radius: 1, ring_radius: 1, ring_stroke_width: 1 };
    assert_eq!(path.get_one_dot_style(&sample_style()), x);
    assert_eq!(path.get_one_dot_style(&other), x);
    assert_eq!(path.get_zero_dot_style(&other), other.default_zero_dot_style);
}

#[test]
fn path_bounding_radius_doubles_the_larger_dot() {
    let style = sample_style();
    let path = TextPath { style: no_overrides(), text: "he".to_string() };
    // 5 + 2 * max(2, 2.05) = 9.1
    assert_eq!(path.get_bounding_radius(&style), 18200);
}

#[test]
fn path_places_each_bit_one_step_past_the_start() {
    let style = sample_style();
    // '@' is 0b0100_0000: the second of eight bits is a one.
    let path = TextPath { style: no_overrides(), text: "@".to_string() };
    let svg = path.as_svg_fragment(&style);
    let zero = style.default_zero_dot_style.as_svg_fragment(&"#123456");
    let one = style.default_one_dot_style.as_svg_fragment(&"#123456");
    let mut expected = String::new();
    let angles = ["45", "90", "135", "180", "225", "270", "315", "360"];
    for (i, angle) in angles.iter().enumerate() {
        let dot = if i == 1 { &one } else { &zero };
        expected.push_str(&format!(
            "<g transform=\"rotate({}) translate(5,0)\">{}</g>",
            angle, dot
        ));
    }
    assert_eq!(svg, expected);
}

#[test]
fn path_angles_follow_the_arc_offset_and_spread() {
    let style = sample_style();
    let arc = ArcStyle { radius: 2500, arc_percentage: 500, arc_offset_percentage: 250 };
    let path = TextPath {
        style: TextPathStyle { arc_style: Some(arc), ..no_overrides() },
        text: "a".to_string(),
    };
    let svg = path.as_svg_fragment(&style);
    // start at 90 degrees, spread over 180: 90 + 180 * (i + 1) / 8
    assert!(svg.starts_with("<g transform=\"rotate(112.5) translate(2.5,0)\">"));
    assert!(svg.contains("rotate(157.5)"));
    assert!(svg.contains("rotate(270)"));
    assert_eq!(svg.matches("rotate(").count(), 8);
}

#[test]
fn non_ascii_path_draws_nothing() {
    let style = sample_style();
    let path = TextPath { style: no_overrides(), text: "ü".to_string() };
    assert_eq!(path.as_svg_fragment(&style), "");
}

#[test]
fn default_lines_scenario() {
    let app = App::create();
    let texts: Vec<&str> = app.diagram.paths.iter().map(|p| p.text.as_str()).collect();
    assert_eq!(texts, vec!["he", "ll", "o"]);
    let style = &app.style;
    let expected = 2 * style.default_arc_style.radius as u64
        + 2 * std::cmp::max(
            style.default_one_dot_style.get_bounding_radius(),
            style.default_zero_dot_style.get_bounding_radius(),
        );
    assert_eq!(app.diagram.get_bounding_radius(style), expected);
    assert_eq!(expected, 18200);
    let svg = app.diagram.as_standalone_svg(style, "{}");
    assert_eq!(svg.matches("rotate(").count(), 40);
    let per_line: Vec<usize> = app
        .diagram
        .paths
        .iter()
        .map(|p| p.as_svg_fragment(style).matches("rotate(").count())
        .collect();
    assert_eq!(per_line, vec![16, 16, 8]);
}

#[test]
fn bounding_rect_adds_padding_on_each_side() {
    let app = App::create();
    let rect = app.diagram.get_bounding_rect(&app.style);
    // 2 * (9.1 + 5) = 28.2
    assert_eq!((rect.x, rect.y, rect.width, rect.height), (0, 0, 56400, 56400));
    let center = rect.center();
    assert_eq!((center.x, center.y), (28200, 28200));
}

#[test]
fn empty_diagram_has_unit_radius() {
    let app = App::create();
    let diagram = radial_dots::diagram::Diagram { paths: vec![], diagram_padding: 0 };
    assert_eq!(diagram.get_bounding_radius(&app.style), 2000);
    let svg = diagram.as_standalone_svg(&app.style, "");
    assert!(svg.contains("viewBox='0 0 2 2'"));
    assert!(svg.contains("<rect x=\"0\" y=\"0\" width=\"2\" height=\"2\" fill=\"#EEEEEE\" />"));
}

#[test]
fn dot_describes_itself() {
    let dot = Dot { circle_radius: 1000, ring_radius: 2500, ring_stroke_width: 1 };
    assert_eq!(dot.to_string(), "Dot(1, 2.5, 0.001)");
}
