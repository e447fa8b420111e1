//! JSON documents, as `serde_json` reads and writes them.
//!
//! Payloads travel as JSON text. Reading and writing that text is left to
//! `serde_json`; this module states what the library relies on. A document is
//! modelled by [`JsonView`], and every statement about a call into
//! `serde_json` is made over that model. None of these statements is proved:
//! they are taken from the documentation and the source of `serde_json`.
use vstd::prelude::*;

verus! {

/// `serde_json::Value`, a parsed JSON document. Verified code hands such a
/// value around and reads it only through the functions specified below.
#[verifier::external_type_specification]
#[verifier::external_body]
pub struct ExValue(serde_json::Value);

/// `serde_json::Error`, the reason why a text could not be parsed or a value
/// could not be written.
#[verifier::external_type_specification]
#[verifier::external_body]
pub struct ExError(serde_json::Error);

/// What a JSON document holds.
pub enum JsonView {
    /// `null`.
    Null,
    /// `true` or `false`.
    Bool(bool),
    /// A number that the document holds as an integer.
    Integer(int),
    /// Any other number.
    Decimal,
    /// A string.
    Text(Seq<char>),
    /// An array, in order.
    Array(Seq<JsonView>),
    /// An object: its members by key.
    Object(Map<Seq<char>, JsonView>),
}

impl JsonView {
    /// The member `key` of an object; `Null` where `self` is no object or has
    /// no such member.
    pub open spec fn member(self, key: Seq<char>) -> JsonView {
        match self {
            JsonView::Object(members) => if members.dom().contains(key) {
                members[key]
            } else {
                JsonView::Null
            },
            _ => JsonView::Null,
        }
    }

    /// The value of a boolean.
    pub open spec fn as_bool(self) -> Option<bool> {
        match self {
            JsonView::Bool(b) => Some(b),
            _ => None,
        }
    }

    /// The value of an integer that fits `i64`.
    pub open spec fn as_i64(self) -> Option<i64> {
        match self {
            JsonView::Integer(n) => if i64::MIN <= n <= i64::MAX {
                Some(n as i64)
            } else {
                None
            },
            _ => None,
        }
    }

    /// The value of an integer that fits `u64`.
    pub open spec fn as_u64(self) -> Option<u64> {
        match self {
            JsonView::Integer(n) => if 0 <= n <= u64::MAX {
                Some(n as u64)
            } else {
                None
            },
            _ => None,
        }
    }

    /// The text of a string.
    pub open spec fn as_text(self) -> Option<Seq<char>> {
        match self {
            JsonView::Text(s) => Some(s),
            _ => None,
        }
    }

    /// The items of an array.
    pub open spec fn as_items(self) -> Option<Seq<JsonView>> {
        match self {
            JsonView::Array(items) => Some(items),
            _ => None,
        }
    }

    /// The texts of an array that holds nothing but strings.
    pub open spec fn as_texts(self) -> Option<Seq<Seq<char>>> {
        match self {
            JsonView::Array(items) => if forall|i: int|
                0 <= i < items.len() ==> (#[trigger] items[i]) is Text {
                Some(Seq::new(items.len(), |i: int| items[i]->Text_0))
            } else {
                None
            },
            _ => None,
        }
    }
}

/// What the document `v` holds.
pub uninterp spec fn json_view(v: serde_json::Value) -> JsonView;

/// What each document of `vs` holds.
pub open spec fn json_views(vs: Seq<serde_json::Value>) -> Seq<JsonView> {
    Seq::new(vs.len(), |i: int| json_view(vs[i]))
}

/// The document that `serde_json::from_slice` reads from `bytes`; `None`
/// where it reports an error.
pub uninterp spec fn json_parse(bytes: Seq<u8>) -> Option<JsonView>;

/// The text that `serde_json::to_string` writes for a list of strings.
pub uninterp spec fn json_list_text(items: Seq<Seq<char>>) -> Seq<char>;

/// `serde_json::from_slice`, read as a `serde_json::Value`: parses `bytes` as
/// one JSON document. Claimed: whether it succeeds, and what the document
/// holds, depend on the bytes alone.
#[verifier::external_body]
pub(crate) fn parse(bytes: &[u8]) -> (r: Result<serde_json::Value, serde_json::Error>)
    ensures
        match r {
            Ok(v) => json_parse(bytes@) == Some(json_view(v)),
            Err(_) => json_parse(bytes@) is None,
        },
{
    serde_json::from_slice(bytes)
}

/// Indexing of a `serde_json::Value` by a string. Claimed: the result is the
/// member under `key` where `v` is an object that has one, and `null`
/// otherwise; the call never panics.
#[verifier::external_body]
pub(crate) fn member<'a>(v: &'a serde_json::Value, key: &str) -> (r: &'a serde_json::Value)
    ensures
        json_view(*r) == json_view(*v).member(key@),
{
    &v[key]
}

/// `serde_json::to_string` on a list of strings. Claimed: it does not fail
/// (it writes into memory, and a list of strings has no map key), and the
/// text depends on the strings alone.
#[verifier::external_body]
pub(crate) fn list_text(items: &Vec<String>) -> (r: Result<String, serde_json::Error>)
    ensures
        match r {
            Ok(s) => s@ == json_list_text(items.deep_view()),
            Err(_) => false,
        },
{
    serde_json::to_string(items)
}

/// `Value::as_bool`. Claimed: `Some` of the value for a boolean, `None` for
/// anything else.
pub assume_specification[ serde_json::Value::as_bool ](v: &serde_json::Value) -> (r: Option<bool>)
    ensures
        r == json_view(*v).as_bool(),
;

/// `Value::as_i64`. Claimed: `Some` for an integer that fits `i64`, `None`
/// for anything else.
pub assume_specification[ serde_json::Value::as_i64 ](v: &serde_json::Value) -> (r: Option<i64>)
    ensures
        r == json_view(*v).as_i64(),
;

/// `Value::as_u64`. Claimed: `Some` for an integer that fits `u64`, `None`
/// for anything else.
pub assume_specification[ serde_json::Value::as_u64 ](v: &serde_json::Value) -> (r: Option<u64>)
    ensures
        r == json_view(*v).as_u64(),
;

/// `Value::as_str`. Claimed: `Some` of the text for a string, `None` for
/// anything else.
pub assume_specification<'a>[ serde_json::Value::as_str ](v: &'a serde_json::Value) -> (r: Option<
    &'a str,
>)
    ensures
        r.deep_view() == json_view(*v).as_text(),
;

/// `Value::as_array`. Claimed: `Some` of the items for an array, `None` for
/// anything else.
pub assume_specification<'a>[ serde_json::Value::as_array ](v: &'a serde_json::Value) -> (r:
    Option<&'a Vec<serde_json::Value>>)
    ensures
        match r {
            Some(items) => json_view(*v).as_items() == Some(json_views(items@)),
            None => json_view(*v).as_items() is None,
        },
;

} // verus!
