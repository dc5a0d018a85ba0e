//! The format-conversion boundary: parsing and serializing documents.
//!
//! Parsing and serialization are done by the `toml` and `serde_json` crates
//! behind trusted wrappers; each wrapper's result is pinned to a name, and
//! the verified functions here do the surrounding wiring: error wrapping,
//! the input-conversion fallback, and the choice of output format.

use vstd::prelude::*;
use vstd::string::StringExecFns;

use crate::error::ToError;
use crate::value::Value;
use toml::Value as TomlValue;

verus! {

/// The output text formats the tool can emit.
#[derive(Debug, Clone, Copy, PartialEq, Eq)]
pub enum OutputType {
    Toml,
    Json,
}

impl Default for OutputType {
    /// The default output format is TOML.
    fn default() -> (r: Self)
        ensures
            r == OutputType::Toml,
    {
        OutputType::Toml
    }
}

/// What the TOML parser accepts a given text as: the document it holds, as a
/// library value, or nothing where the text is not valid TOML. The result
/// depends on the text alone.
pub uninterp spec fn toml_doc_of(s: Seq<char>) -> Option<Value>;

/// What the TOML serializer emits for a given document, compactly; nothing
/// where the document cannot be written as a TOML document (a non-table
/// root). The result depends on the document alone.
pub uninterp spec fn toml_text_of(v: Value) -> Option<Seq<char>>;

/// What the TOML serializer emits for a given document in its multi-line
/// pretty layout; nothing where the document cannot be written as TOML.
pub uninterp spec fn toml_pretty_text_of(v: Value) -> Option<Seq<char>>;

/// What the JSON parser accepts a given text as, read into the same document
/// model, or nothing where the text is not valid JSON for it.
pub uninterp spec fn json_doc_of(s: Seq<char>) -> Option<Value>;

/// What the JSON serializer emits for a given document, compactly.
pub uninterp spec fn json_text_of(v: Value) -> Option<Seq<char>>;

/// What the JSON serializer emits for a given document, pretty-printed.
pub uninterp spec fn json_pretty_text_of(v: Value) -> Option<Seq<char>>;

#[verifier::external_type_specification]
#[verifier::external_body]
pub struct ExTomlValue(TomlValue);

/// Projects toml's value tree onto the library's model, each variant one for
/// one: a float becomes its decimal text, a datetime its text rendering, and
/// a table the sequence of its entries in order.
#[verifier::external_body]
fn value_of_toml(t: TomlValue) -> Value {
    match t {
        TomlValue::String(s) => Value::String(s),
        TomlValue::Integer(x) => Value::Integer(x),
        TomlValue::Float(x) => Value::Float(x.to_string()),
        TomlValue::Boolean(b) => Value::Boolean(b),
        TomlValue::Datetime(d) => Value::Datetime(d.to_string()),
        TomlValue::Array(a) => Value::Array(a.into_iter().map(value_of_toml).collect()),
        TomlValue::Table(t) => Value::Table(t.into_iter().map(|(k, v)| (k, value_of_toml(v))).collect()),
    }
}

/// Embeds float text back into toml's tree; text that no longer reads back
/// as a float is carried as a string.
#[verifier::external_body]
fn toml_float_of_text(s: &String) -> TomlValue {
    match s.parse() {
        Ok(x) => TomlValue::Float(x),
        Err(_) => TomlValue::String(s.clone()),
    }
}

/// Embeds datetime text back into toml's tree; text that no longer reads
/// back as a datetime is carried as a string.
#[verifier::external_body]
fn toml_datetime_of_text(s: &String) -> TomlValue {
    match s.parse() {
        Ok(d) => TomlValue::Datetime(d),
        Err(_) => TomlValue::String(s.clone()),
    }
}

/// Embeds a library value back into toml's tree for the serializers, each
/// variant one for one.
#[verifier::external_body]
fn toml_of_value(v: &Value) -> TomlValue {
    match v {
        Value::String(s) => TomlValue::String(s.clone()),
        Value::Integer(x) => TomlValue::Integer(*x),
        Value::Float(s) => toml_float_of_text(s),
        Value::Boolean(b) => TomlValue::Boolean(*b),
        Value::Datetime(s) => toml_datetime_of_text(s),
        Value::Array(a) => TomlValue::Array(a.iter().map(toml_of_value).collect()),
        Value::Table(es) => TomlValue::Table(es.iter().map(|(k, v)| (k.clone(), toml_of_value(v))).collect()),
    }
}

/// Relies on toml::from_str: parses TOML text into a value tree, a function
/// of the text alone; an error is rendered to its message.
#[verifier::external_body]
fn parse_toml_text(text: &str) -> (r: Result<Value, String>)
    ensures
        (r matches Ok(v) ==> toml_doc_of(text@) == Some(v)),
        (r is Err ==> toml_doc_of(text@) is None),
{
    match toml::from_str::<TomlValue>(text) {
        Ok(t) => Ok(value_of_toml(t)),
        Err(e) => Err(e.to_string()),
    }
}

/// Relies on serde_json::from_str: parses JSON text into the same value
/// tree, a function of the text alone.
#[verifier::external_body]
fn parse_json_text(text: &str) -> (r: Result<Value, String>)
    ensures
        (r matches Ok(v) ==> json_doc_of(text@) == Some(v)),
        (r is Err ==> json_doc_of(text@) is None),
{
    match serde_json::from_str::<TomlValue>(text) {
        Ok(t) => Ok(value_of_toml(t)),
        Err(e) => Err(e.to_string()),
    }
}

/// Relies on toml::to_string: writes a document as compact TOML text, a
/// function of the document alone; a document with a non-table root is
/// refused.
#[verifier::external_body]
fn render_toml(v: &Value) -> (r: Result<String, String>)
    ensures
        (r matches Ok(s) ==> toml_text_of(*v) == Some(s@)),
        (r is Err ==> toml_text_of(*v) is None),
{
    match toml::to_string(&toml_of_value(v)) {
        Ok(s) => Ok(s),
        Err(e) => Err(e.to_string()),
    }
}

/// Relies on toml::to_string_pretty: as `render_toml`, in the multi-line
/// pretty layout.
#[verifier::external_body]
fn render_toml_pretty(v: &Value) -> (r: Result<String, String>)
    ensures
        (r matches Ok(s) ==> toml_pretty_text_of(*v) == Some(s@)),
        (r is Err ==> toml_pretty_text_of(*v) is None),
{
    match toml::to_string_pretty(&toml_of_value(v)) {
        Ok(s) => Ok(s),
        Err(e) => Err(e.to_string()),
    }
}

/// Relies on serde_json::to_string: writes a document as compact JSON text,
/// a function of the document alone.
#[verifier::external_body]
fn render_json(v: &Value) -> (r: Result<String, String>)
    ensures
        (r matches Ok(s) ==> json_text_of(*v) == Some(s@)),
        (r is Err ==> json_text_of(*v) is None),
{
    match serde_json::to_string(&toml_of_value(v)) {
        Ok(s) => Ok(s),
        Err(e) => Err(e.to_string()),
    }
}

/// Relies on serde_json::to_string_pretty: as `render_json`, pretty-printed.
#[verifier::external_body]
fn render_json_pretty(v: &Value) -> (r: Result<String, String>)
    ensures
        (r matches Ok(s) ==> json_pretty_text_of(*v) == Some(s@)),
        (r is Err ==> json_pretty_text_of(*v) is None),
{
    match serde_json::to_string_pretty(&toml_of_value(v)) {
        Ok(s) => Ok(s),
        Err(e) => Err(e.to_string()),
    }
}

/// Parses TOML text read from `file_name`; a parse failure becomes the
/// library's parse error for that file, carrying the parser's message.
pub fn load_toml_from_str(file_name: &str, contents: &str) -> (r: Result<Value, ToError>)
    ensures
        r is Ok <==> toml_doc_of(contents@) is Some,
        (r matches Ok(v) ==> toml_doc_of(contents@) == Some(v)),
        (r matches Err(e) ==> e matches ToError::TomlParseError { file_name: f, cause: _ } && f@
            == file_name@),
{
    match parse_toml_text(contents) {
        Ok(v) => Ok(v),
        Err(cause) => Err(
            ToError::TomlParseError { file_name: String::from_str(file_name), cause },
        ),
    }
}

/// Converts input text from JSON to TOML text. Text that does not parse as
/// JSON passes through unchanged, a documented compatibility quirk; a JSON
/// document that cannot be re-written as TOML is an error.
pub fn json_text_to_toml_text(input: String) -> (r: Result<String, String>)
    ensures
        (json_doc_of(input@) is None ==> r == Ok::<String, String>(input)),
        (json_doc_of(input@) matches Some(v) ==> match toml_text_of(v) {
            Some(t) => r matches Ok(s) && s@ == t,
            None => r is Err,
        }),
{
    match parse_json_text(input.as_str()) {
        Ok(v) => render_toml(&v),
        Err(_) => Ok(input),
    }
}

/// Renders an extracted value in the requested format and layout.
pub fn render_output(v: &Value, output: OutputType, pretty: bool) -> (r: Result<String, String>)
    ensures
        ({
            let expected = match (output, pretty) {
                (OutputType::Toml, false) => toml_text_of(*v),
                (OutputType::Toml, true) => toml_pretty_text_of(*v),
                (OutputType::Json, false) => json_text_of(*v),
                (OutputType::Json, true) => json_pretty_text_of(*v),
            };
            match r {
                Ok(s) => expected == Some(s@),
                Err(_) => expected is None,
            }
        }),
{
    match output {
        OutputType::Toml => if pretty {
            render_toml_pretty(v)
        } else {
            render_toml(v)
        },
        OutputType::Json => if pretty {
            render_json_pretty(v)
        } else {
            render_json(v)
        },
    }
}

} // verus!
