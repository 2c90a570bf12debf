use vstd::prelude::*;
use crate::diagram::Diagram;
use crate::drawing_style::DrawingStyle;
use crate::import_error::ImportError;

verus! {

/// A whole document: the diagram and its drawing style, replaced together.
#[derive(Clone, Debug)]
pub struct DeserializedAppState {
    pub diagram: Diagram,
    pub style: DrawingStyle,
}

/// What the XML reader reports, in document order, up to its first error: each
/// attribute of each start tag as (prefix, local name, unescaped value), and then
/// the error's message, if reading failed.
pub uninterp spec fn xml_attribute_scan(document: Seq<char>) -> Seq<
    Result<(Option<Seq<char>>, Seq<char>, Seq<char>), Seq<char>>,
>;

/// An attribute as (prefix, local name, value), or a reading error.
pub type ScanItem = Result<(Option<String>, String, String), String>;

pub open spec fn scan_item_view(item: ScanItem) -> Result<
    (Option<Seq<char>>, Seq<char>, Seq<char>),
    Seq<char>,
> {
    match item {
        Ok((prefix, local_name, value)) => Ok(
            (
                match prefix {
                    Some(p) => Some(p@),
                    None => None,
                },
                local_name@,
                value@,
            ),
        ),
        Err(message) => Err(message@),
    }
}

/// Relies on xml::reader::EventReader: reads the document's events in order, and
/// stops after the first error.
#[verifier::external_body]
fn scan_xml_attributes(document: &str) -> (r: Vec<ScanItem>)
    ensures
        r@.map_values(|item: ScanItem| scan_item_view(item)) == xml_attribute_scan(document@),
{
    let mut items: Vec<ScanItem> = Vec::new();
    for event in xml::reader::EventReader::from_str(document) {
        match event {
            Ok(xml::reader::XmlEvent::StartElement { attributes, .. }) => {
                for a in attributes {
                    items.push(Ok((a.name.prefix, a.name.local_name, a.value)));
                }
            },
            Err(e) => items.push(Err(e.to_string())),
            _ => {},
        }
    }
    items
}

/// Whether an attribute is the embedded state, `dots:config`.
pub open spec fn is_config_attribute(prefix: Option<Seq<char>>, local_name: Seq<char>) -> bool {
    prefix == Some("dots"@) && local_name == "config"@
}

/// The first embedded state among the scanned items: `Ok` with its value; else
/// `Err(Some(message))` where a reading error comes first, `Err(None)` where there is
/// none.
pub open spec fn config_search(
    items: Seq<Result<(Option<Seq<char>>, Seq<char>, Seq<char>), Seq<char>>>,
) -> Result<Seq<char>, Option<Seq<char>>>
    decreases items.len(),
{
    if items.len() == 0 {
        Err(None)
    } else {
        match items[0] {
            Err(message) => Err(Some(message)),
            Ok((prefix, local_name, value)) => if is_config_attribute(prefix, local_name) {
                Ok(value)
            } else {
                config_search(items.drop_first())
            },
        }
    }
}

/// The outcome of looking for the embedded state in a document's scan.
pub open spec fn config_lookup(
    items: Seq<Result<(Option<Seq<char>>, Seq<char>, Seq<char>), Seq<char>>>,
    r: Result<String, ImportError>,
) -> bool {
    match config_search(items) {
        Ok(value) => r is Ok && r->Ok_0@ == value,
        Err(None) => r == Err::<String, ImportError>(ImportError::NoEmbeddedState),
        Err(Some(message)) => r is Err && r->Err_0 is MalformedState
            && r->Err_0->MalformedState_0@ == message,
    }
}

/// Finds the state embedded in a previously exported document: the value of its
/// first `dots:config` attribute. A document without one gives `NoEmbeddedState`; one
/// that cannot be read up to it gives `MalformedState` with the reader's message.
pub fn find_config_in_scan(items: &Vec<ScanItem>) -> (r: Result<String, ImportError>)
    ensures
        config_lookup(items@.map_values(|item: ScanItem| scan_item_view(item)), r),
{
    let ghost view = items@.map_values(|item: ScanItem| scan_item_view(item));
    let dots = String::from_str("dots");
    let config = String::from_str("config");
    let mut i: usize = 0;
    assert(view.skip(0) =~= view);
    while i < items.len()
        invariant
            i <= items@.len(),
            view == items@.map_values(|item: ScanItem| scan_item_view(item)),
            config_search(view) == config_search(view.skip(i as int)),
            dots@ == "dots"@,
            config@ == "config"@,
        decreases items@.len() - i,
    {
        assert(view.skip(i as int)[0] == scan_item_view(items@[i as int]));
        assert(view.skip(i as int).drop_first() =~= view.skip(i + 1));
        match &items[i] {
            Err(message) => {
                return Err(ImportError::MalformedState(message.clone()));
            },
            Ok((prefix, local_name, value)) => {
                let matches: bool = match prefix {
                    Some(p) => p.eq(&dots) && local_name.eq(&config),
                    None => false,
                };
                if matches {
                    return Ok(value.clone());
                }
            },
        }
        i = i + 1;
    }
    assert(view.skip(i as int).len() == 0);
    Err(ImportError::NoEmbeddedState)
}

/// Finds the state embedded in a previously exported document (see
/// `find_config_in_scan`), reading the document with the XML reader.
pub fn get_dots_config_string(document_content: &str) -> (r: Result<String, ImportError>)
    ensures
        config_lookup(xml_attribute_scan(document_content@), r),
{
    let items: Vec<ScanItem> = scan_xml_attributes(document_content);
    find_config_in_scan(&items)
}

} // verus!
