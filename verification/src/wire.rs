//! The wire side of classification: raw bytes become text, text becomes a
//! projected JSON document.
//!
//! A wire message is a JSON object; the classifier only ever reads its `type`
//! field (as a string), its `host` field (as a string), and its `data` field
//! (as an array whose elements are strings, unsigned integers, or anything
//! else). [`WireDoc`] holds exactly that projection as plain values, so the
//! classification logic downstream of the parser is ordinary verified code.

use vstd::prelude::*;

verus! {

/// One element of a wire message's `data` array, as the classifier sees it:
/// a JSON string, a JSON number representable as a `u64`, or anything else.
#[derive(Debug)]
pub enum JsonItem {
    Text(String),
    Uint(u64),
    Other,
}

/// Mathematical model of a [`JsonItem`].
pub enum ItemModel {
    Text(Seq<char>),
    Uint(u64),
    Other,
}

impl View for JsonItem {
    type V = ItemModel;

    open spec fn view(&self) -> ItemModel {
        match self {
            JsonItem::Text(s) => ItemModel::Text(s@),
            JsonItem::Uint(n) => ItemModel::Uint(*n),
            JsonItem::Other => ItemModel::Other,
        }
    }
}

/// The fields of a parsed wire message that classification reads, projected
/// to plain values. A field is `None` when it is absent or of the wrong kind
/// (a non-string `type`, a non-array `data`), exactly the distinction the
/// classifier dispatches on.
#[derive(Debug)]
pub struct WireDoc {
    pub type_field: Option<String>,
    pub host_field: Option<String>,
    pub data_field: Option<Vec<JsonItem>>,
}

/// Mathematical model of a [`WireDoc`].
pub struct DocModel {
    pub type_field: Option<Seq<char>>,
    pub host_field: Option<Seq<char>>,
    pub data_field: Option<Seq<ItemModel>>,
}

impl View for WireDoc {
    type V = DocModel;

    open spec fn view(&self) -> DocModel {
        DocModel {
            type_field: match self.type_field {
                Some(s) => Some(s@),
                None => None,
            },
            host_field: match self.host_field {
                Some(s) => Some(s@),
                None => None,
            },
            data_field: match self.data_field {
                Some(v) => Some(v@.map_values(|it: JsonItem| it@)),
                None => None,
            },
        }
    }
}

/// The model of an optional [`WireDoc`], `None` standing for a parse failure.
pub open spec fn doc_model(r: Option<WireDoc>) -> Option<DocModel> {
    match r {
        Some(d) => Some(d@),
        None => None,
    }
}

/// What `serde_json` makes of a text: `None` when the text is not valid JSON,
/// otherwise the projection of the parsed value onto the three fields the
/// classifier reads. JSON parsing is a function of the characters alone.
pub uninterp spec fn parsed_doc(s: Seq<char>) -> Option<DocModel>;

/// Relies on `serde_json::from_str` (rejects malformed JSON) and on
/// `serde_json::Value`'s accessors: indexing by key yields `Null` on a
/// non-object or a missing key; `as_str`, `as_array` and `as_u64` return
/// `Some` exactly on a string, an array, and a number representable as `u64`.
/// The parse is a function of the input characters alone.
#[verifier::external_body]
pub(crate) fn parse_wire(s: &str) -> (r: Option<WireDoc>)
    ensures
        doc_model(r) == parsed_doc(s@),
{
    let v: serde_json::Value = match serde_json::from_str(s) {
        Ok(v) => v,
        Err(_) => return None,
    };
    let data_field = v["data"].as_array().map(|a| a.iter().map(|e| match (e.as_str(), e.as_u64()) {
        (Some(t), _) => JsonItem::Text(t.to_string()),
        (None, Some(n)) => JsonItem::Uint(n),
        _ => JsonItem::Other,
    }).collect());
    Some(WireDoc {
        type_field: v["type"].as_str().map(str::to_string),
        host_field: v["host"].as_str().map(str::to_string),
        data_field,
    })
}

/// What `String::from_utf8_lossy` makes of a byte sequence: its UTF-8 decode,
/// each invalid sequence replaced. A function of the bytes alone.
pub uninterp spec fn lossy_text(b: Seq<u8>) -> Seq<char>;

/// Relies on `String::from_utf8_lossy`: decodes UTF-8, replacing invalid
/// sequences with U+FFFD; a function of the bytes alone.
#[verifier::external_body]
pub(crate) fn decode_lossy(b: &[u8]) -> (r: String)
    ensures
        r@ == lossy_text(b@),
{
    String::from_utf8_lossy(b).into_owned()
}

/// What `str::trim` makes of a text: the text with leading and trailing
/// whitespace removed. A function of the characters alone.
pub uninterp spec fn trimmed(s: Seq<char>) -> Seq<char>;

/// Relies on `str::trim`: returns the slice with leading and trailing
/// whitespace removed; a function of the characters alone.
#[verifier::external_body]
pub(crate) fn trim_text(s: &str) -> (r: &str)
    ensures
        r@ == trimmed(s@),
{
    s.trim()
}

} // verus!
