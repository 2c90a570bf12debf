use vstd::prelude::*;
use crate::decimal::{decimal_text, push_decimal};

verus! {

/// Why a dropped document was not taken in. The live document is left as it was.
#[derive(Clone, Debug)]
pub enum ImportError {
    /// The drop carried this many items, not one.
    WrongItemCount(usize),
    /// The item's type was `found`, not `expected`.
    WrongMimeType { found: String, expected: String },
    /// The item was not a file.
    NotAFile,
    /// The file could not be read.
    ReadFailure(String),
    /// The document carries no embedded state.
    NoEmbeddedState,
    /// The document, or the state embedded in it, could not be read.
    MalformedState(String),
}

/// A dismissible notification of a failure.
#[derive(Clone, Debug)]
pub struct ErrorToast {
    pub title: String,
    pub body: String,
}

/// What the host reports of one dropped item.
#[derive(Clone, Debug)]
pub struct DroppedItem {
    pub mime_type: String,
    pub kind: String,
}

/// The type of document that a drop must carry.
pub open spec fn svg_mime_type() -> Seq<char> {
    "image/svg+xml"@
}

pub open spec fn drag_drop_title() -> Seq<char> {
    "Error in Drag/Drop"@
}

pub open spec fn parse_title() -> Seq<char> {
    "Error Parsing dropped document"@
}

pub open spec fn item_count_text(n: nat) -> Seq<char> {
    "Found "@ + decimal_text(n) + " Data Transfer Items, expected 1"@
}

pub open spec fn mime_type_text(found: Seq<char>, expected: Seq<char>) -> Seq<char> {
    "Dropped document had wrong mimetype ("@ + found + "), expected \""@ + expected + "\""@
}

pub open spec fn not_a_file_text() -> Seq<char> {
    "Dropped item was not a file"@
}

pub open spec fn no_state_text() -> Seq<char> {
    "did not encounter xml attribute dots:config in string"@
}

impl ImportError {
    /// The title of the notification that reports the error.
    pub open spec fn title(self) -> Seq<char> {
        match self {
            ImportError::WrongItemCount(_) => drag_drop_title(),
            ImportError::WrongMimeType { .. } => drag_drop_title(),
            ImportError::NotAFile => drag_drop_title(),
            _ => parse_title(),
        }
    }

    /// The body of the notification that reports the error.
    pub open spec fn body(self) -> Seq<char> {
        match self {
            ImportError::WrongItemCount(n) => item_count_text(n as nat),
            ImportError::WrongMimeType { found, expected } => mime_type_text(found@, expected@),
            ImportError::NotAFile => not_a_file_text(),
            ImportError::ReadFailure(detail) => detail@,
            ImportError::NoEmbeddedState => no_state_text(),
            ImportError::MalformedState(detail) => detail@,
        }
    }

    /// The notification that reports the error.
    pub fn to_toast(&self) -> (r: ErrorToast)
        ensures
            r.title@ == self.title(),
            r.body@ == self.body(),
    {
        match self {
            ImportError::WrongItemCount(n) => {
                let mut body = String::from_str("Found ");
                push_decimal(&mut body, *n as u64);
                body.append(" Data Transfer Items, expected 1");
                ErrorToast { title: String::from_str("Error in Drag/Drop"), body }
            },
            ImportError::WrongMimeType { found, expected } => {
                let mut body = String::from_str("Dropped document had wrong mimetype (");
                body.append(found.as_str());
                body.append("), expected \"");
                body.append(expected.as_str());
                body.append("\"");
                ErrorToast { title: String::from_str("Error in Drag/Drop"), body }
            },
            ImportError::NotAFile => ErrorToast {
                title: String::from_str("Error in Drag/Drop"),
                body: String::from_str("Dropped item was not a file"),
            },
            ImportError::ReadFailure(detail) => ErrorToast {
                title: String::from_str("Error Parsing dropped document"),
                body: detail.clone(),
            },
            ImportError::NoEmbeddedState => ErrorToast {
                title: String::from_str("Error Parsing dropped document"),
                body: String::from_str("did not encounter xml attribute dots:config in string"),
            },
            ImportError::MalformedState(detail) => ErrorToast {
                title: String::from_str("Error Parsing dropped document"),
                body: detail.clone(),
            },
        }
    }
}

/// Whether a drop carries exactly one file of the expected type.
pub open spec fn drop_accepted(items: Seq<DroppedItem>, expected: Seq<char>) -> bool {
    items.len() == 1 && items[0].mime_type@ == expected && items[0].kind@ == "file"@
}

/// The body of the notification for a drop that is not accepted: the first check
/// that fails, of the item count, the item's type, and its kind.
pub open spec fn drop_problem_text(items: Seq<DroppedItem>, expected: Seq<char>) -> Seq<char> {
    if items.len() != 1 {
        item_count_text(items.len())
    } else if items[0].mime_type@ != expected {
        mime_type_text(items[0].mime_type@, expected)
    } else {
        not_a_file_text()
    }
}

/// A drop of no item, or of several, is refused for its item count, whatever the
/// items are.
pub proof fn lemma_wrong_item_count_refused(items: Seq<DroppedItem>)
    requires
        items.len() != 1,
    ensures
        !drop_accepted(items, svg_mime_type()),
        drop_problem_text(items, svg_mime_type()) == item_count_text(items.len()),
{
}

/// Checks that a drop carries exactly one item, of type `expected_mime`, that is a
/// file; else says which of these fails first.
pub fn check_dropped_items(items: &Vec<DroppedItem>, expected_mime: &str) -> (r: Result<
    (),
    ImportError,
>)
    ensures
        r is Ok <==> drop_accepted(items@, expected_mime@),
        items@.len() != 1 ==> r == Err::<(), ImportError>(
            ImportError::WrongItemCount(items@.len() as usize),
        ),
        items@.len() == 1 && items@[0].mime_type@ != expected_mime@ ==> r is Err
            && r->Err_0 is WrongMimeType,
        items@.len() == 1 && items@[0].mime_type@ == expected_mime@ && items@[0].kind@
            != "file"@ ==> r == Err::<(), ImportError>(ImportError::NotAFile),
        r is Err ==> r->Err_0.title() == drag_drop_title(),
        r is Err ==> r->Err_0.body() == drop_problem_text(items@, expected_mime@),
{
    if items.len() != 1 {
        return Err(ImportError::WrongItemCount(items.len()));
    }
    let item: &DroppedItem = &items[0];
    let expected = String::from_str(expected_mime);
    if !item.mime_type.eq(&expected) {
        return Err(
            ImportError::WrongMimeType { found: item.mime_type.clone(), expected: expected },
        );
    }
    let file = String::from_str("file");
    if !item.kind.eq(&file) {
        return Err(ImportError::NotAFile);
    }
    Ok(())
}

} // verus!
