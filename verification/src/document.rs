//! The TOML reader behind manifests: the parsed document stays a value of
//! the `toml` crate, read through the few calls declared here. Their
//! contracts say what the crate's functions do; they are taken on trust.

use vstd::prelude::*;
use vstd::string::*;

verus! {

/// `toml::map::Map`, the table type behind `toml::Table`.
#[verifier::external_type_specification]
#[verifier::external_body]
#[verifier::reject_recursive_types(K)]
#[verifier::reject_recursive_types(V)]
pub struct ExTomlMap<K, V>(toml::map::Map<K, V>);

/// `toml::Value`, one value of a document.
#[verifier::external_type_specification]
#[verifier::external_body]
pub struct ExTomlValue(toml::Value);

/// `toml::de::Error`, the reader's error.
#[verifier::external_type_specification]
#[verifier::external_body]
pub struct ExTomlError(toml::de::Error);

/// `std::io::Error`.
#[verifier::external_type_specification]
#[verifier::external_body]
pub struct ExIoError(std::io::Error);

/// What a key of a table holds, as far as manifests read it.
pub enum Node {
    /// A string.
    Text(Seq<char>),
    /// A table.
    Table(Map<Seq<char>, Node>),
    /// An integer, float, boolean, date-time or array.
    Other,
}

/// What a table holds: each of its keys with the value under it, a
/// string as `Text`, a table as `Table` with what that table holds, and
/// any other value as `Other`.
pub uninterp spec fn table_nodes(table: toml::Table) -> Map<Seq<char>, Node>;

/// What reading `text` as a TOML document gives: its top-level table, or
/// `None` where the reader rejects the text.
pub uninterp spec fn toml_document(text: Seq<char>) -> Option<Map<Seq<char>, Node>>;

/// `toml::from_str` at `toml::Table`. The outcome depends on the text alone.
#[verifier::external_body]
pub(crate) fn parse_table(text: &str) -> (r: Result<toml::Table, toml::de::Error>)
    ensures
        match r {
            Ok(table) => toml_document(text@) == Some(table_nodes(table)),
            Err(_) => toml_document(text@) is None,
        },
{
    toml::from_str::<toml::Table>(text)
}

/// `Map::contains_key`: whether the table has the key.
#[verifier::external_body]
pub(crate) fn table_has(table: &toml::Table, key: &str) -> (b: bool)
    ensures
        b == table_nodes(*table).contains_key(key@),
{
    table.contains_key(key)
}

/// `Map::get`, for a key that holds a string: the string.
#[verifier::external_body]
pub(crate) fn table_text<'a>(table: &'a toml::Table, key: &str) -> (r: Option<&'a str>)
    ensures
        match r {
            Some(s) => table_nodes(*table).contains_key(key@) && table_nodes(*table)[key@]
                == Node::Text(s@),
            None => !(table_nodes(*table).contains_key(key@) && table_nodes(*table)[key@] is Text),
        },
{
    match table.get(key) {
        Some(toml::Value::String(s)) => Some(s.as_str()),
        _ => None,
    }
}

/// `Map::get`, for a key that holds a table: the table.
#[verifier::external_body]
pub(crate) fn table_child<'a>(table: &'a toml::Table, key: &str) -> (r: Option<&'a toml::Table>)
    ensures
        match r {
            Some(child) => table_nodes(*table).contains_key(key@) && table_nodes(*table)[key@]
                == Node::Table(table_nodes(*child)),
            None => !(table_nodes(*table).contains_key(key@) && table_nodes(*table)[key@] is Table),
        },
{
    match table.get(key) {
        Some(toml::Value::Table(child)) => Some(child),
        _ => None,
    }
}

/// `Map::keys`: the keys of the table, and nothing else.
#[verifier::external_body]
pub(crate) fn table_keys(table: &toml::Table) -> (keys: Vec<String>)
    ensures
        forall|k: Seq<char>|
            table_nodes(*table).contains_key(k) <==> exists|i: int|
                0 <= i < keys@.len() && (#[trigger] keys@[i])@ == k,
{
    table.keys().cloned().collect()
}

/// `serde::de::Error::custom` at `toml::de::Error`: an error that carries
/// the given message.
#[verifier::external_body]
pub(crate) fn shape_error(message: &str) -> toml::de::Error {
    <toml::de::Error as serde::de::Error>::custom(message)
}

} // verus!
