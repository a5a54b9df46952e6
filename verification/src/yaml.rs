//! The YAML documents of the state file, as the `serde_yml` crate reads them.
//!
//! A document is opaque here. What the parser makes of a text, what a document
//! holds under a key and which unsigned number a node stands for are named, and
//! the three functions at the end of this file are taken on trust to compute
//! exactly those.

use vstd::prelude::*;

verus! {

#[verifier::external_type_specification]
#[verifier::external_body]
pub struct ExYamlValue(serde_yml::Value);

#[verifier::external_type_specification]
#[verifier::external_body]
pub struct ExYamlError(serde_yml::Error);

/// The document that `serde_yml::from_str` reads from a text, or `None` where
/// it rejects the text.
pub uninterp spec fn yaml_parse_of(text: Seq<char>) -> Option<serde_yml::Value>;

/// The node that `serde_yml::Value::get` finds under a string key.
pub uninterp spec fn yaml_entry_of(doc: serde_yml::Value, key: Seq<char>) -> Option<
    serde_yml::Value,
>;

/// The number that `serde_yml::Value::as_u64` reads from a node.
pub uninterp spec fn yaml_unsigned_of(node: serde_yml::Value) -> Option<u64>;

/// Calls `serde_yml::from_str` for a `serde_yml::Value`. Trusted: the call
/// succeeds exactly on the texts that have a document, and returns that
/// document; nothing is said of the error it returns otherwise.
#[verifier::external_body]
pub(crate) fn parse_yaml(text: &str) -> (r: Result<serde_yml::Value, serde_yml::Error>)
    ensures
        match r {
            Ok(doc) => yaml_parse_of(text@) == Some(doc),
            Err(_) => yaml_parse_of(text@).is_none(),
        },
{
    serde_yml::from_str::<serde_yml::Value>(text)
}

/// Calls `serde_yml::Value::get` with a string key. Trusted: the result is the
/// named entry. The method looks the key up in a mapping (through tags) and
/// returns `None` for every other node; it does not panic.
#[verifier::external_body]
pub(crate) fn yaml_entry<'a>(doc: &'a serde_yml::Value, key: &str) -> (r: Option<
    &'a serde_yml::Value,
>)
    ensures
        match r {
            Some(node) => yaml_entry_of(*doc, key@) == Some(*node),
            None => yaml_entry_of(*doc, key@).is_none(),
        },
{
    doc.get(key)
}

/// Calls `serde_yml::Value::as_u64`. Trusted: the result is the named number.
/// The method returns `None` for a node that is no non-negative integer.
#[verifier::external_body]
pub(crate) fn yaml_unsigned(node: &serde_yml::Value) -> (r: Option<u64>)
    ensures
        r == yaml_unsigned_of(*node),
{
    node.as_u64()
}

} // verus!
