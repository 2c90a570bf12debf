use radial_dots::app::{App, AppMsg};
use radial_dots::dot::Dot;
use radial_dots::text_path::{ArcStyle, TextPathStyle};

fn styles(app: &App) -> Vec<TextPathStyle> {
    app.diagram.paths.iter().map(|p| p.style).collect()
}

#[test]
fn overrides_start_from_the_defaults() {
    let mut app = App::create();
    app.update(AppMsg::InitPathOneDotStyle(1));
    app.update(AppMsg::InitPathZeroDotStyle(2));
    app.update(AppMsg::InitPathArcStyle(0));
    let s = styles(&app);
    assert_eq!(s[1].one_dot_style, Some(app.style.default_one_dot_style));
    assert_eq!(s[2].zero_dot_style, Some(app.style.default_zero_dot_style));
    assert_eq!(s[0].arc_style, Some(app.style.default_arc_style));
    assert_eq!(s[0].one_dot_style, None);
}

#[test]
fn path_overrides_are_set_and_removed() {
    let mut app = App::create();
    let d = Dot { circle_radius: 1, ring_radius: 2, ring_stroke_width: 3 };
    app.update(AppMsg::UpdatePathZeroDotStyle(0, Some(d)));
    assert_eq!(styles(&app)[0].zero_dot_style, Some(d));
    app.update(AppMsg::UpdatePathZeroDotStyle(0, None));
    assert_eq!(styles(&app)[0].zero_dot_style, None);
    let arc = ArcStyle { radius: 1, arc_percentage: 500, arc_offset_percentage: 10 };
    app.update(AppMsg::UpdatePathArcStyle(2, Some(arc)));
    app.update(AppMsg::UpdatePathOneDotStyle(2, Some(d)));
    assert_eq!(styles(&app)[2].arc_style, Some(arc));
    assert_eq!(styles(&app)[2].one_dot_style, Some(d));
    assert_eq!(app.diagram.paths[2].text, "o");
}

#[test]
fn defaults_are_replaced() {
    let mut app = App::create();
    let d = Dot { circle_radius: 4, ring_radius: 5, ring_stroke_width: 6 };
    let arc = ArcStyle { radius: 9, arc_percentage: 8, arc_offset_percentage: 7 };
    app.update(AppMsg::UpdateDefaultOneDotStyle(Some(d)));
    app.update(AppMsg::UpdateDefaultZeroDotStyle(Some(d)));
    app.update(AppMsg::UpdateDefaultArcStyle(Some(arc)));
    assert_eq!(app.style.default_one_dot_style, d);
    assert_eq!(app.style.default_zero_dot_style, d);
    assert_eq!(app.style.default_arc_style, arc);
}

#[test]
fn new_text_keeps_overrides_by_position() {
    let mut app = App::create();
    app.update(AppMsg::InitPathArcStyle(1));
    app.update(AppMsg::UpdateDiagramText("a\nb\nc\n\nd".to_string()));
    let texts: Vec<&str> = app.diagram.paths.iter().map(|p| p.text.as_str()).collect();
    assert_eq!(texts, vec!["a", "b", "c", "", "d"]);
    let s = styles(&app);
    assert_eq!(s[1].arc_style, Some(app.style.default_arc_style));
    assert_eq!(s[0].arc_style, None);
    assert_eq!(s[3], TextPathStyle { zero_dot_style: None, one_dot_style: None, arc_style: None });
    app.update(AppMsg::UpdateDiagramText("only".to_string()));
    assert_eq!(app.diagram.paths.len(), 1);
    app.update(AppMsg::UpdateDiagramText("x\ny".to_string()));
    assert_eq!(styles(&app)[1].arc_style, None);
}

#[test]
fn multiline_text_joins_the_lines() {
    let app = App::create();
    assert_eq!(App::get_paths_as_multiline_text(&app.diagram.paths), "he\nll\no");
    let mut empty = App::create();
    empty.update(AppMsg::UpdateDiagramText(String::new()));
    assert_eq!(empty.diagram.paths.len(), 1);
    assert_eq!(App::get_paths_as_multiline_text(&empty.diagram.paths), "");
}

#[test]
fn toasts_are_dismissed_by_position() {
    let mut app = App::create();
    app.update(AppMsg::TryDropDocument(vec![]));
    app.update(AppMsg::TryDropDocument(vec![]));
    app.update(AppMsg::DismissErrorToast(5));
    assert_eq!(app.error_toasts.len(), 2);
    app.update(AppMsg::DismissErrorToast(0));
    assert_eq!(app.error_toasts.len(), 1);
}

#[test]
fn default_path_style_overrides_nothing() {
    assert_eq!(
        TextPathStyle::default(),
        TextPathStyle { zero_dot_style: None, one_dot_style: None, arc_style: None }
    );
}
