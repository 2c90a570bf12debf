use radial_dots::app::{App, AppAction, AppMsg};
use radial_dots::dot::Dot;
use radial_dots::import_error::{check_dropped_items, DroppedItem, ImportError};
use radial_dots::serializable_app_state::{get_dots_config_string, DeserializedAppState};
use radial_dots::svg_view::{data_url_from_base64, svg_data_url};
use radial_dots::text_path::TextPathStyle;

fn item(mime: &str, kind: &str) -> DroppedItem {
    DroppedItem { mime_type: mime.to_string(), kind: kind.to_string() }
}

fn document_summary(app: &App) -> (Vec<String>, Vec<TextPathStyle>, u32, Dot, String) {
    (
        app.diagram.paths.iter().map(|p| p.text.clone()).collect(),
        app.diagram.paths.iter().map(|p| p.style).collect(),
        app.diagram.diagram_padding,
        app.style.default_zero_dot_style,
        app.style.color.background_color.clone(),
    )
}

#[test]
fn export_then_import_returns_the_embedded_state() {
    let app = App::create();
    let state = "{\"diagram\":{\"paths\":[{\"text\":\"it's <b> & \\\"q\\\"\"}]},\"n\":1.5}";
    let svg = app.diagram.as_standalone_svg(&app.style, state);
    assert_eq!(get_dots_config_string(&svg).unwrap(), state);
}

#[test]
fn embedded_state_is_escaped_in_the_attribute() {
    let app = App::create();
    let svg = app.diagram.as_standalone_svg(&app.style, "a'b\"c<d>e&f");
    assert!(svg.starts_with(
        "<svg xmlns='http://www.w3.org/2000/svg' xmlns:dots='dots' \
         dots:config='a&apos;b&quot;c&lt;d&gt;e&amp;f' viewBox='0 0 28.2 28.2'>"
    ));
    assert!(svg.ends_with("</svg>"));
}

#[test]
fn document_without_state_is_rejected() {
    let doc = "<svg xmlns='http://www.w3.org/2000/svg' viewBox='0 0 1 1'><rect width='1'/></svg>";
    assert!(matches!(get_dots_config_string(doc), Err(ImportError::NoEmbeddedState)));
}

#[test]
fn config_without_prefix_is_not_the_state() {
    let doc = "<svg xmlns='http://www.w3.org/2000/svg' config='x'/>";
    assert!(matches!(get_dots_config_string(doc), Err(ImportError::NoEmbeddedState)));
}

#[test]
fn unreadable_document_is_malformed() {
    assert!(matches!(get_dots_config_string("<svg <<"), Err(ImportError::MalformedState(_))));
}

#[test]
fn first_embedded_state_wins() {
    let doc = "<svg xmlns:dots='dots' dots:config='one'><g dots:config='two'/></svg>";
    assert_eq!(get_dots_config_string(doc).unwrap(), "one");
}

#[test]
fn drop_item_checks() {
    let svg = "image/svg+xml";
    assert!(check_dropped_items(&vec![item(svg, "file")], svg).is_ok());
    assert!(matches!(check_dropped_items(&vec![], svg), Err(ImportError::WrongItemCount(0))));
    assert!(matches!(
        check_dropped_items(&vec![item(svg, "file"), item(svg, "file")], svg),
        Err(ImportError::WrongItemCount(2))
    ));
    match check_dropped_items(&vec![item("image/png", "file")], svg) {
        Err(ImportError::WrongMimeType { found, expected }) => {
            assert_eq!(found, "image/png");
            assert_eq!(expected, svg);
        }
        other => panic!("unexpected {:?}", other),
    }
    assert!(matches!(
        check_dropped_items(&vec![item(svg, "string")], svg),
        Err(ImportError::NotAFile)
    ));
}

#[test]
fn error_toasts_carry_the_messages() {
    let t = ImportError::WrongItemCount(12).to_toast();
    assert_eq!(t.title, "Error in Drag/Drop");
    assert_eq!(t.body, "Found 12 Data Transfer Items, expected 1");
    let t = ImportError::WrongMimeType { found: "text/plain".to_string(), expected: "image/svg+xml".to_string() }
        .to_toast();
    assert_eq!(t.body, "Dropped document had wrong mimetype (text/plain), expected \"image/svg+xml\"");
    assert_eq!(ImportError::NotAFile.to_toast().body, "Dropped item was not a file");
    let t = ImportError::NoEmbeddedState.to_toast();
    assert_eq!(t.title, "Error Parsing dropped document");
    assert_eq!(t.body, "did not encounter xml attribute dots:config in string");
    assert_eq!(ImportError::ReadFailure("gone".to_string()).to_toast().body, "gone");
    assert_eq!(ImportError::MalformedState("bad".to_string()).to_toast().body, "bad");
}

#[test]
fn drop_with_no_items_or_many_leaves_the_document() {
    let mut app = App::create();
    let before = document_summary(&app);
    assert_eq!(app.update(AppMsg::TryDropDocument(vec![])), AppAction::Render);
    let two = vec![item("image/svg+xml", "file"), item("image/svg+xml", "file")];
    assert_eq!(app.update(AppMsg::TryDropDocument(two)), AppAction::Render);
    assert_eq!(document_summary(&app), before);
    assert_eq!(app.error_toasts.len(), 2);
    assert_eq!(app.error_toasts[0].body, "Found 0 Data Transfer Items, expected 1");
    assert_eq!(app.error_toasts[1].body, "Found 2 Data Transfer Items, expected 1");
}

#[test]
fn acceptable_drop_asks_for_the_file() {
    let mut app = App::create();
    let action = app.update(AppMsg::TryDropDocument(vec![item("image/svg+xml", "file")]));
    assert_eq!(action, AppAction::ReadDroppedFile);
    assert!(app.error_toasts.is_empty());
}

#[test]
fn document_without_state_leaves_the_live_document() {
    let mut app = App::create();
    let before = document_summary(&app);
    let doc = "<svg xmlns='http://www.w3.org/2000/svg'/>";
    let outcome = get_dots_config_string(doc).map(|_| DeserializedAppState {
        diagram: App::create().diagram,
        style: App::create().style,
    });
    app.update(AppMsg::ConsumeDroppedDocument(outcome));
    assert_eq!(document_summary(&app), before);
    assert_eq!(app.error_toasts.len(), 1);
    assert_eq!(app.error_toasts[0].title, "Error Parsing dropped document");
}

#[test]
fn consumed_document_replaces_the_live_one() {
    let mut app = App::create();
    let mut other = App::create();
    other.update(AppMsg::UpdateDiagramText("xyz".to_string()));
    other.style.color.background_color = "black".to_string();
    app.update(AppMsg::ConsumeDroppedDocument(Ok(DeserializedAppState {
        diagram: other.diagram.clone(),
        style: other.style.clone(),
    })));
    assert_eq!(document_summary(&app), document_summary(&other));
}

#[test]
fn data_url_wraps_the_base64_encoding() {
    assert_eq!(svg_data_url("<svg/>"), "data:image/svg+xml;base64,PHN2Zy8+");
    assert_eq!(data_url_from_base64("QUJD"), "data:image/svg+xml;base64,QUJD");
}
