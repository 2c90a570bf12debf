use vstd::prelude::*;
use vstd::utf8::encode_utf8;

verus! {

/// The standard base64 encoding (with padding) of some bytes.
pub uninterp spec fn base64_standard(bytes: Seq<u8>) -> Seq<char>;

/// Relies on base64::encode_config with the STANDARD configuration: the padded
/// standard-alphabet encoding of the text's UTF-8 bytes.
#[verifier::external_body]
fn encode_base64(text: &str) -> (r: String)
    ensures
        r@ == base64_standard(encode_utf8(text@)),
{
    base64::encode_config(text, base64::STANDARD)
}

/// The data URL of an SVG document whose bytes have the given base64 encoding.
pub open spec fn data_url_text(encoded: Seq<char>) -> Seq<char> {
    "data:image/svg+xml;base64,"@ + encoded
}

/// The data URL of an SVG document, from its base64 encoding.
pub fn data_url_from_base64(encoded: &str) -> (r: String)
    ensures
        r@ == data_url_text(encoded@),
{
    let mut out = String::from_str("data:image/svg+xml;base64,");
    out.append(encoded);
    out
}

/// The data URL under which an SVG document can be shown or downloaded.
pub fn svg_data_url(svg_document: &str) -> (r: String)
    ensures
        r@ == data_url_text(base64_standard(encode_utf8(svg_document@))),
{
    let encoded: String = encode_base64(svg_document);
    data_url_from_base64(encoded.as_str())
}

} // verus!
