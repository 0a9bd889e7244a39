//! Presets in the legacy JSON format: they are turned into YAML text and
//! repaired, so that they read like presets in the preferred format.

use crate::text::{chars_of, replace, replace_all, string_of};
use vstd::prelude::*;

verus! {

/// `serde_yaml::Value`: a document, carried from the reader to the writer and
/// never looked into.
#[verifier::external_type_specification]
#[verifier::external_body]
pub struct ExYamlValue(serde_yaml::Value);

/// `serde_json::Error`: why a text was refused. Nothing is read from it.
#[verifier::external_type_specification]
#[verifier::external_body]
pub struct ExJsonError(serde_json::Error);

/// `serde_yaml::Error`: why a document was not written. Nothing is read from
/// it.
#[verifier::external_type_specification]
#[verifier::external_body]
pub struct ExYamlError(serde_yaml::Error);

/// The document that `serde_json::from_str` reads from `text`, where it
/// accepts the text.
pub uninterp spec fn json_document(text: Seq<char>) -> Option<serde_yaml::Value>;

/// The YAML text that `serde_yaml::to_string` writes for `document`, where it
/// writes one.
pub uninterp spec fn yaml_text(document: serde_yaml::Value) -> Option<Seq<char>>;

/// Calls `serde_json::from_str` for a `serde_yaml::Value`. The contract says
/// only that the outcome is a function of the text: the document that
/// `json_document` names, or an error where it names none.
#[verifier::external_body]
fn read_json(text: &str) -> (r: Result<serde_yaml::Value, serde_json::Error>)
    ensures
        r is Ok <==> json_document(text@) is Some,
        r is Ok ==> Some(r->Ok_0) == json_document(text@),
{
    serde_json::from_str::<serde_yaml::Value>(text)
}

/// Calls `serde_yaml::to_string` on a `serde_yaml::Value`. The contract says
/// only that the outcome is a function of the document: the text that
/// `yaml_text` names, or an error where it names none.
#[verifier::external_body]
fn write_yaml(document: &serde_yaml::Value) -> (r: Result<String, serde_yaml::Error>)
    ensures
        r is Ok <==> yaml_text(*document) is Some,
        r is Ok ==> Some(r->Ok_0@) == yaml_text(*document),
{
    serde_yaml::to_string(document)
}

/// Calls `to_string` on a `serde_json::Error`: the message of the error.
/// Nothing is claimed of the message.
#[verifier::external_body]
fn json_message(error: &serde_json::Error) -> String {
    error.to_string()
}

/// Calls `to_string` on a `serde_yaml::Error`: the message of the error.
/// Nothing is claimed of the message.
#[verifier::external_body]
fn yaml_message(error: &serde_yaml::Error) -> String {
    error.to_string()
}

/// What went wrong when a legacy preset could not be migrated.
#[derive(Clone, Copy, Debug, PartialEq, Eq, Structural)]
pub enum Fault {
    /// The text is not a JSON document.
    MalformedJson,
    /// The document could not be written as YAML.
    Unwritable,
}

/// Why a legacy preset could not be migrated, with the message of the reader
/// or of the writer.
#[derive(Clone, Debug, PartialEq, Eq)]
pub enum LegacyError {
    /// The text is not a JSON document.
    MalformedJson(String),
    /// The document could not be written as YAML.
    Unwritable(String),
}

impl LegacyError {
    /// What went wrong, without the message.
    pub open spec fn fault(&self) -> Fault {
        match self {
            LegacyError::MalformedJson(_) => Fault::MalformedJson,
            LegacyError::Unwritable(_) => Fault::Unwritable,
        }
    }

    /// The message of the reader or of the writer.
    pub fn message(&self) -> (r: &String)
        ensures
            *r == match self {
                LegacyError::MalformedJson(message) => *message,
                LegacyError::Unwritable(message) => *message,
            },
    {
        match self {
            LegacyError::MalformedJson(message) => message,
            LegacyError::Unwritable(message) => message,
        }
    }
}

/// The repair of the YAML text of a legacy preset: the key `type` becomes
/// `style` wherever these letters stand, and every double quote goes.
pub open spec fn repaired(yaml: Seq<char>) -> Seq<char> {
    replace_all(replace_all(yaml, "type"@, "style"@), "\""@, ""@)
}

/// What migrating the legacy preset `json` gives.
pub open spec fn migrated(json: Seq<char>) -> Result<Seq<char>, Fault> {
    match json_document(json) {
        None => Err(Fault::MalformedJson),
        Some(document) => match yaml_text(document) {
            None => Err(Fault::Unwritable),
            Some(yaml) => Ok(repaired(yaml)),
        },
    }
}

/// Repairs the YAML text of a legacy preset.
pub fn repair_legacy_yaml(yaml: &str) -> (r: String)
    ensures
        r@ == repaired(yaml@),
{
    let text = chars_of(yaml);
    let text = replace(&text, &chars_of("type"), &chars_of("style"));
    let text = replace(&text, &chars_of("\""), &chars_of(""));
    string_of(&text)
}

/// Turns a preset in the legacy JSON format into repaired YAML text. An
/// error carries the message of the reader or of the writer.
pub fn migrate_legacy(json: &str) -> (r: Result<String, LegacyError>)
    ensures
        match r {
            Ok(yaml) => migrated(json@) == Ok::<Seq<char>, Fault>(yaml@),
            Err(e) => migrated(json@) == Err::<Seq<char>, Fault>(e.fault()),
        },
{
    match read_json(json) {
        Err(error) => Err(LegacyError::MalformedJson(json_message(&error))),
        Ok(document) => match write_yaml(&document) {
            Err(error) => Err(LegacyError::Unwritable(yaml_message(&error))),
            Ok(yaml) => Ok(repair_legacy_yaml(yaml.as_str())),
        },
    }
}

} // verus!
