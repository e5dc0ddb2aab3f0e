//! A parsed TOML document as plain values, and the call into the `toml`
//! crate that produces one.

use vstd::prelude::*;

verus! {

/// One value of a TOML document.
///
/// Strings, integers and booleans keep what they hold. Floats and datetimes
/// are kept as kinds only: no rule of this crate reads their payload.
#[derive(Debug)]
pub enum TomlValue {
    String(String),
    Integer(i64),
    Float,
    Boolean(bool),
    Datetime,
    Array(Vec<TomlValue>),
    Table(Vec<TomlEntry>),
}

/// One `key = value` pair of a table.
#[derive(Debug)]
pub struct TomlEntry {
    pub key: String,
    pub value: TomlValue,
}

/// `toml::Value`, the value type of the `toml` crate. It is opaque here: it
/// only passes from the parser to the conversion below.
#[verifier::external_type_specification]
#[verifier::external_body]
pub struct ExTomlValue(toml::Value);

/// What `toml::from_str` makes of a text when asked for a `toml::Table`: the
/// entries of the top-level table in the order in which the table yields
/// them, each value written as a [`TomlValue`], or the text of the parser's
/// error.
pub uninterp spec fn toml_document(text: Seq<char>) -> Result<Vec<TomlEntry>, String>;

/// Moves a `toml::Value` into a [`TomlValue`], one arm for each variant of
/// `toml::Value`; arrays and tables are moved item by item, in their order.
///
/// This is the converting half of [`parse_toml`], apart because values nest.
/// Nothing is claimed of it on its own.
#[verifier::external_body]
fn lift_value(value: toml::Value) -> TomlValue {
    match value {
        toml::Value::String(s) => TomlValue::String(s),
        toml::Value::Integer(i) => TomlValue::Integer(i),
        toml::Value::Float(_) => TomlValue::Float,
        toml::Value::Boolean(b) => TomlValue::Boolean(b),
        toml::Value::Datetime(_) => TomlValue::Datetime,
        toml::Value::Array(a) => TomlValue::Array(a.into_iter().map(lift_value).collect()),
        toml::Value::Table(t) => TomlValue::Table(
            t.into_iter().map(|(key, v)| TomlEntry { key, value: lift_value(v) }).collect(),
        ),
    }
}

/// Calls `toml::from_str::<toml::Table>` on `text` and converts what comes
/// back: a table into its entries, an error into its text.
///
/// The contract only gives the outcome its name. This claims that the call
/// is a function of the text: the parser reads nothing else, and the table
/// yields its entries in an order that its keys alone decide.
#[verifier::external_body]
fn parse_toml(text: &str) -> (r: Result<Vec<TomlEntry>, String>)
    ensures
        r == toml_document(text@),
{
    match toml::from_str::<toml::Table>(text) {
        Ok(t) => Ok(t.into_iter().map(|(key, v)| TomlEntry { key, value: lift_value(v) }).collect()),
        Err(e) => Err(e.to_string()),
    }
}

/// Parses `text` as a TOML document: its top-level entries, or the parser's
/// message where the text is no document.
pub fn parse_document(text: &str) -> (r: Result<Vec<TomlEntry>, String>)
    ensures
        r == toml_document(text@),
{
    parse_toml(text)
}

} // verus!
