pub mod app;
pub mod decimal;
pub mod diagram;
pub mod dot;
pub mod drawing_style;
pub mod geom;
pub mod import_error;
pub mod lines;
pub mod serializable_app_state;
pub mod svg_drawable;
pub mod svg_view;
pub mod text_path;
pub mod utf_to_binary;
pub mod xml_text;
