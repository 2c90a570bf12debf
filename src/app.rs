use vstd::prelude::*;
use crate::diagram::Diagram;
use crate::dot::Dot;
use crate::drawing_style::{DrawingColors, DrawingStyle};
use crate::import_error::{
    check_dropped_items, drag_drop_title, drop_accepted, drop_problem_text, svg_mime_type,
    DroppedItem, ErrorToast, ImportError,
};
use crate::lines::{join_lines, split_lines, split_on_newlines, string_views};
use crate::serializable_app_state::DeserializedAppState;
use crate::text_path::{ArcStyle, TextPath, TextPathStyle};

verus! {

/// The editor's state: the live document and the notifications on show.
pub struct App {
    pub style: DrawingStyle,
    pub diagram: Diagram,
    pub error_toasts: Vec<ErrorToast>,
}

/// What the editor is told: an edit, a drop, the outcome of reading a dropped file,
/// or a dismissal.
pub enum AppMsg {
    UpdateDefaultOneDotStyle(Option<Dot>),
    UpdateDefaultZeroDotStyle(Option<Dot>),
    UpdateDefaultArcStyle(Option<ArcStyle>),
    UpdatePathOneDotStyle(usize, Option<Dot>),
    UpdatePathZeroDotStyle(usize, Option<Dot>),
    UpdatePathArcStyle(usize, Option<ArcStyle>),
    InitPathOneDotStyle(usize),
    InitPathZeroDotStyle(usize),
    InitPathArcStyle(usize),
    UpdateDiagramText(String),
    TryDropDocument(Vec<DroppedItem>),
    ConsumeDroppedDocument(Result<DeserializedAppState, ImportError>),
    DismissErrorToast(usize),
}

/// What the host does after an update.
#[derive(Clone, Copy, Debug, PartialEq, Eq, Structural)]
pub enum AppAction {
    /// Draw the editor again.
    Render,
    /// Read the dropped file, and report its text (or the failure) back.
    ReadDroppedFile,
}

/// A style that overrides nothing.
pub open spec fn empty_style() -> TextPathStyle {
    TextPathStyle { zero_dot_style: None, one_dot_style: None, arc_style: None }
}

/// The lines of a diagram after its text became `lines`: line `i` keeps the overrides
/// of the old line `i`, where there was one.
pub open spec fn retexted_paths(old: Seq<TextPath>, lines: Seq<Seq<char>>, new: Seq<TextPath>) -> bool {
    &&& new.len() == lines.len()
    &&& forall|i: int|
        0 <= i < new.len() ==> #[trigger] new[i].text@ == lines[i] && new[i].style == if i
            < old.len() {
            old[i].style
        } else {
            empty_style()
        }
}

/// The texts of some lines.
pub open spec fn path_texts(paths: Seq<TextPath>) -> Seq<Seq<char>> {
    paths.map_values(|p: TextPath| p.text@)
}

impl AppMsg {
    /// Whether the editor can take the message: defaults are never removed, and a
    /// line's overrides are edited only where the line exists.
    pub open spec fn is_valid_for(self, paths: Seq<TextPath>) -> bool {
        match self {
            AppMsg::UpdateDefaultOneDotStyle(s) => s is Some,
            AppMsg::UpdateDefaultZeroDotStyle(s) => s is Some,
            AppMsg::UpdateDefaultArcStyle(s) => s is Some,
            AppMsg::UpdatePathOneDotStyle(i, _) => i < paths.len(),
            AppMsg::UpdatePathZeroDotStyle(i, _) => i < paths.len(),
            AppMsg::UpdatePathArcStyle(i, _) => i < paths.len(),
            AppMsg::InitPathOneDotStyle(i) => i < paths.len(),
            AppMsg::InitPathZeroDotStyle(i) => i < paths.len(),
            AppMsg::InitPathArcStyle(i) => i < paths.len(),
            _ => true,
        }
    }
}

impl App {
    /// The live document is as it was.
    pub open spec fn same_document(self, other: App) -> bool {
        &&& self.style == other.style
        &&& self.diagram.paths@ == other.diagram.paths@
        &&& self.diagram.diagram_padding == other.diagram.diagram_padding
    }

    /// The line at `index` with `style` as its overrides, the rest as they were.
    pub open spec fn with_path_style(self, index: int, style: TextPathStyle) -> Seq<TextPath> {
        self.diagram.paths@.update(
            index,
            TextPath { style, text: self.diagram.paths@[index].text },
        )
    }

    /// `new` is `self` with one more notification, carrying `title` and `body`.
    pub open spec fn toast_added(self, new: App, title: Seq<char>, body: Seq<char>) -> bool {
        &&& new.error_toasts@.len() == self.error_toasts@.len() + 1
        &&& new.error_toasts@.drop_last() == self.error_toasts@
        &&& new.error_toasts@.last().title@ == title
        &&& new.error_toasts@.last().body@ == body
    }

    /// The editor's state on start: three lines, "he", "ll" and "o", without
    /// overrides, and the stock defaults.
    pub open spec fn is_initial(self) -> bool {
        &&& self.style.color.stroke_color@ == "#333333"@
        &&& self.style.color.background_color@ == "#EEEEEE"@
        &&& self.style.default_zero_dot_style == Dot {
            circle_radius: 1000,
            ring_radius: 2000,
            ring_stroke_width: 100,
        }
        &&& self.style.default_one_dot_style == Dot {
            circle_radius: 500,
            ring_radius: 2000,
            ring_stroke_width: 0,
        }
        &&& self.style.default_arc_style == ArcStyle {
            radius: 5000,
            arc_percentage: 1000,
            arc_offset_percentage: 0,
        }
        &&& self.diagram.diagram_padding == 5000
        &&& path_texts(self.diagram.paths@) == seq!["he"@, "ll"@, "o"@]
        &&& forall|i: int|
            0 <= i < self.diagram.paths@.len() ==> #[trigger] self.diagram.paths@[i].style
                == empty_style()
        &&& self.error_toasts@.len() == 0
    }

    fn empty_path(text: &str) -> (r: TextPath)
        ensures
            r.text@ == text@,
            r.style == empty_style(),
    {
        TextPath {
            text: String::from_str(text),
            style: TextPathStyle { zero_dot_style: None, one_dot_style: None, arc_style: None },
        }
    }

    /// The editor's state on start.
    pub fn create() -> (r: App)
        ensures
            r.is_initial(),
    {
        let mut paths: Vec<TextPath> = Vec::new();
        paths.push(App::empty_path("he"));
        paths.push(App::empty_path("ll"));
        paths.push(App::empty_path("o"));
        let r = App {
            style: DrawingStyle {
                color: DrawingColors {
                    stroke_color: String::from_str("#333333"),
                    background_color: String::from_str("#EEEEEE"),
                },
                default_zero_dot_style: Dot {
                    circle_radius: 1000,
                    ring_radius: 2000,
                    ring_stroke_width: 100,
                },
                default_one_dot_style: Dot {
                    circle_radius: 500,
                    ring_radius: 2000,
                    ring_stroke_width: 0,
                },
                default_arc_style: ArcStyle {
                    radius: 5000,
                    arc_percentage: 1000,
                    arc_offset_percentage: 0,
                },
            },
            diagram: Diagram { diagram_padding: 5000, paths },
            error_toasts: Vec::new(),
        };
        assert(path_texts(r.diagram.paths@) =~= seq!["he"@, "ll"@, "o"@]);
        r
    }

    /// Gives the line at `index` the overrides `style`.
    fn set_path_style(&mut self, index: usize, style: TextPathStyle)
        requires
            index < old(self).diagram.paths@.len(),
        ensures
            final(self).diagram.paths@ == old(self).with_path_style(index as int, style),
            final(self).style == old(self).style,
            final(self).diagram.diagram_padding == old(self).diagram.diagram_padding,
            final(self).error_toasts@ == old(self).error_toasts@,
    {
        let old_path: TextPath = self.diagram.paths.remove(index);
        self.diagram.paths.insert(index, TextPath { style, text: old_path.text });
        assert(self.diagram.paths@ =~= old(self).with_path_style(index as int, style));
    }

    /// The diagram's lines after its text became `new_text`, split into lines.
    fn retext_paths(&self, new_text: &str) -> (r: Vec<TextPath>)
        ensures
            retexted_paths(self.diagram.paths@, split_lines(new_text@), r@),
    {
        let lines: Vec<String> = split_on_newlines(new_text);
        let ghost line_views = split_lines(new_text@);
        let mut new_paths: Vec<TextPath> = Vec::new();
        let mut i: usize = 0;
        while i < lines.len()
            invariant
                i <= lines@.len(),
                string_views(lines@) == line_views,
                new_paths@.len() == i,
                forall|j: int|
                    0 <= j < i ==> #[trigger] new_paths@[j].text@ == line_views[j]
                        && new_paths@[j].style == if j < self.diagram.paths@.len() {
                        self.diagram.paths@[j].style
                    } else {
                        empty_style()
                    },
            decreases lines@.len() - i,
        {
            let style: TextPathStyle = if i < self.diagram.paths.len() {
                self.diagram.paths[i].style
            } else {
                TextPathStyle { zero_dot_style: None, one_dot_style: None, arc_style: None }
            };
            let text: String = lines[i].clone();
            assert(text@ == line_views[i as int]);
            new_paths.push(TextPath { style, text });
            i = i + 1;
        }
        new_paths
    }

    /// Shows the notification of `e`.
    fn report(&mut self, e: &ImportError)
        ensures
            final(self).same_document(*old(self)),
            old(self).toast_added(*final(self), e.title(), e.body()),
    {
        let toast: ErrorToast = e.to_toast();
        self.error_toasts.push(toast);
        assert(self.error_toasts@.drop_last() =~= old(self).error_toasts@);
    }

    /// Takes a drop in: asks for the file where the drop is acceptable, else reports
    /// why not.
    fn try_drop_document(&mut self, items: &Vec<DroppedItem>) -> (action: AppAction)
        ensures
            final(self).same_document(*old(self)),
            action == AppAction::ReadDroppedFile <==> drop_accepted(items@, svg_mime_type()),
            if drop_accepted(items@, svg_mime_type()) {
                final(self).error_toasts@ == old(self).error_toasts@
            } else {
                old(self).toast_added(
                    *final(self),
                    drag_drop_title(),
                    drop_problem_text(items@, svg_mime_type()),
                )
            },
    {
        proof {
            reveal_strlit("image/svg+xml");
        }
        match check_dropped_items(items, "image/svg+xml") {
            Ok(()) => AppAction::ReadDroppedFile,
            Err(e) => {
                self.report(&e);
                AppAction::Render
            },
        }
    }

    /// Applies one message to the editor and says what the host does next.
    pub fn update(&mut self, msg: AppMsg) -> (action: AppAction)
        requires
            msg.is_valid_for(old(self).diagram.paths@),
        ensures
            match msg {
                AppMsg::UpdateDefaultOneDotStyle(s) => {
                    &&& final(self).style == DrawingStyle {
                        default_one_dot_style: s->0,
                        ..old(self).style
                    }
                    &&& final(self).diagram.paths@ == old(self).diagram.paths@
                },
                AppMsg::UpdateDefaultZeroDotStyle(s) => {
                    &&& final(self).style == DrawingStyle {
                        default_zero_dot_style: s->0,
                        ..old(self).style
                    }
                    &&& final(self).diagram.paths@ == old(self).diagram.paths@
                },
                AppMsg::UpdateDefaultArcStyle(s) => {
                    &&& final(self).style == DrawingStyle {
                        default_arc_style: s->0,
                        ..old(self).style
                    }
                    &&& final(self).diagram.paths@ == old(self).diagram.paths@
                },
                AppMsg::UpdatePathOneDotStyle(i, s) => {
                    &&& final(self).style == old(self).style
                    &&& final(self).diagram.paths@ == old(self).with_path_style(
                        i as int,
                        TextPathStyle {
                            one_dot_style: s,
                            ..old(self).diagram.paths@[i as int].style
                        },
                    )
                },
                AppMsg::UpdatePathZeroDotStyle(i, s) => {
                    &&& final(self).style == old(self).style
                    &&& final(self).diagram.paths@ == old(self).with_path_style(
                        i as int,
                        TextPathStyle {
                            zero_dot_style: s,
                            ..old(self).diagram.paths@[i as int].style
                        },
                    )
                },
                AppMsg::UpdatePathArcStyle(i, s) => {
                    &&& final(self).style == old(self).style
                    &&& final(self).diagram.paths@ == old(self).with_path_style(
                        i as int,
                        TextPathStyle { arc_style: s, ..old(self).diagram.paths@[i as int].style },
                    )
                },
                AppMsg::InitPathOneDotStyle(i) => {
                    &&& final(self).style == old(self).style
                    &&& final(self).diagram.paths@ == old(self).with_path_style(
                        i as int,
                        TextPathStyle {
                            one_dot_style: Some(old(self).style.default_one_dot_style),
                            ..old(self).diagram.paths@[i as int].style
                        },
                    )
                },
                AppMsg::InitPathZeroDotStyle(i) => {
                    &&& final(self).style == old(self).style
                    &&& final(self).diagram.paths@ == old(self).with_path_style(
                        i as int,
                        TextPathStyle {
                            zero_dot_style: Some(old(self).style.default_zero_dot_style),
                            ..old(self).diagram.paths@[i as int].style
                        },
                    )
                },
                AppMsg::InitPathArcStyle(i) => {
                    &&& final(self).style == old(self).style
                    &&& final(self).diagram.paths@ == old(self).with_path_style(
                        i as int,
                        TextPathStyle {
                            arc_style: Some(old(self).style.default_arc_style),
                            ..old(self).diagram.paths@[i as int].style
                        },
                    )
                },
                AppMsg::UpdateDiagramText(text) => {
                    &&& final(self).style == old(self).style
                    &&& retexted_paths(
                        old(self).diagram.paths@,
                        split_lines(text@),
                        final(self).diagram.paths@,
                    )
                },
                AppMsg::TryDropDocument(items) => {
                    &&& final(self).same_document(*old(self))
                    &&& if drop_accepted(items@, svg_mime_type()) {
                        &&& action == AppAction::ReadDroppedFile
                        &&& final(self).error_toasts@ == old(self).error_toasts@
                    } else {
                        old(self).toast_added(
                            *final(self),
                            drag_drop_title(),
                            drop_problem_text(items@, svg_mime_type()),
                        )
                    }
                },
                AppMsg::ConsumeDroppedDocument(outcome) => match outcome {
                    Ok(doc) => {
                        &&& final(self).style == doc.style
                        &&& final(self).diagram.paths@ == doc.diagram.paths@
                        &&& final(self).diagram.diagram_padding == doc.diagram.diagram_padding
                        &&& final(self).error_toasts@ == old(self).error_toasts@
                    },
                    Err(e) => {
                        &&& final(self).same_document(*old(self))
                        &&& old(self).toast_added(*final(self), e.title(), e.body())
                    },
                },
                AppMsg::DismissErrorToast(i) => {
                    &&& final(self).same_document(*old(self))
                    &&& final(self).error_toasts@ == if i < old(self).error_toasts@.len() {
                        old(self).error_toasts@.remove(i as int)
                    } else {
                        old(self).error_toasts@
                    }
                },
            },
            match msg {
                AppMsg::UpdateDiagramText(_) | AppMsg::TryDropDocument(_)
                | AppMsg::ConsumeDroppedDocument(_) | AppMsg::DismissErrorToast(_) => true,
                _ => {
                    &&& final(self).diagram.diagram_padding == old(self).diagram.diagram_padding
                    &&& final(self).error_toasts@ == old(self).error_toasts@
                },
            },
            match msg {
                AppMsg::UpdateDiagramText(_) => {
                    &&& final(self).diagram.diagram_padding == old(self).diagram.diagram_padding
                    &&& final(self).error_toasts@ == old(self).error_toasts@
                },
                _ => true,
            },
            action == AppAction::ReadDroppedFile <==> (match msg {
                AppMsg::TryDropDocument(items) => drop_accepted(items@, svg_mime_type()),
                _ => false,
            }),
    {
        match msg {
            AppMsg::UpdateDefaultOneDotStyle(new_style) => {
                self.style.default_one_dot_style = new_style.unwrap();
            },
            AppMsg::UpdateDefaultZeroDotStyle(new_style) => {
                self.style.default_zero_dot_style = new_style.unwrap();
            },
            AppMsg::UpdateDefaultArcStyle(new_style) => {
                self.style.default_arc_style = new_style.unwrap();
            },
            AppMsg::UpdatePathOneDotStyle(index, new_style) => {
                let style = TextPathStyle {
                    one_dot_style: new_style,
                    ..self.diagram.paths[index].style
                };
                self.set_path_style(index, style);
            },
            AppMsg::UpdatePathZeroDotStyle(index, new_style) => {
                let style = TextPathStyle {
                    zero_dot_style: new_style,
                    ..self.diagram.paths[index].style
                };
                self.set_path_style(index, style);
            },
            AppMsg::UpdatePathArcStyle(index, new_style) => {
                let style = TextPathStyle { arc_style: new_style, ..self.diagram.paths[index].style };
                self.set_path_style(index, style);
            },
            AppMsg::InitPathOneDotStyle(index) => {
                let style = TextPathStyle {
                    one_dot_style: Some(self.style.default_one_dot_style),
                    ..self.diagram.paths[index].style
                };
                self.set_path_style(index, style);
            },
            AppMsg::InitPathZeroDotStyle(index) => {
                let style = TextPathStyle {
                    zero_dot_style: Some(self.style.default_zero_dot_style),
                    ..self.diagram.paths[index].style
                };
                self.set_path_style(index, style);
            },
            AppMsg::InitPathArcStyle(index) => {
                let style = TextPathStyle {
                    arc_style: Some(self.style.default_arc_style),
                    ..self.diagram.paths[index].style
                };
                self.set_path_style(index, style);
            },
            AppMsg::UpdateDiagramText(new_text) => {
                let new_text_paths: Vec<TextPath> = self.retext_paths(new_text.as_str());
                self.diagram.paths = new_text_paths;
            },
            AppMsg::TryDropDocument(items) => {
                return self.try_drop_document(&items);
            },
            AppMsg::ConsumeDroppedDocument(outcome) => match outcome {
                Ok(doc) => {
                    self.diagram = doc.diagram;
                    self.style = doc.style;
                },
                Err(e) => {
                    self.report(&e);
                },
            },
            AppMsg::DismissErrorToast(idx) => {
                if idx < self.error_toasts.len() {
                    self.error_toasts.remove(idx);
                }
            },
        }
        AppAction::Render
    }

    /// The diagram's text as shown in the editor: its lines, joined by line breaks.
    pub fn get_paths_as_multiline_text(paths: &Vec<TextPath>) -> (r: String)
        ensures
            r@ == join_lines(path_texts(paths@)),
    {
        let mut out = String::new();
        let mut i: usize = 0;
        while i < paths.len()
            invariant
                i <= paths@.len(),
                out@ == join_lines(path_texts(paths@).take(i as int)),
            decreases paths@.len() - i,
        {
            let ghost texts = path_texts(paths@).take(i + 1);
            assert(texts.drop_last() =~= path_texts(paths@).take(i as int));
            assert(texts.last() == paths@[i as int].text@);
            proof {
                reveal_strlit("\n");
            }
            if i > 0 {
                out.append("\n");
            } else {
                assert(texts.len() == 1);
                assert(join_lines(path_texts(paths@).take(0)) == Seq::<char>::empty());
            }
            out.append(paths[i].text.as_str());
            i = i + 1;
        }
        assert(path_texts(paths@).take(paths@.len() as int) =~= path_texts(paths@));
        out
    }
}

} // verus!
