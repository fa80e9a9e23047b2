//! Configuration resolution: extracting the base storage location from the
//! text of the configuration document. Reading the document's file, caching
//! the value for the process, and aborting on failure are the embedding
//! program's part; this module decides what the text yields.

use vstd::prelude::*;

verus! {

/// The string field a JSON document holds under a top-level key: `Some` of
/// the field's text when the document parses as JSON and holds a string
/// there, `None` otherwise. What serde_json accepts is its own affair, so the
/// function is named rather than written out.
pub uninterp spec fn json_string_field_of(text: Seq<char>, key: Seq<char>) -> Option<Seq<char>>;

/// Relies on serde_json::from_str and serde_json::Value::get: whether the
/// text parses as a JSON document holding a string under the key, and which
/// string, depend on the text and the key alone.
#[verifier::external_body]
fn json_string_field(text: &str, key: &str) -> (r: Option<String>)
    ensures
        match r {
            Some(s) => json_string_field_of(text@, key@) == Some(s@),
            None => json_string_field_of(text@, key@) is None,
        },
{
    match serde_json::from_str::<serde_json::Value>(text) {
        Ok(v) => match v.get(key) {
            Some(serde_json::Value::String(s)) => Some(s.clone()),
            _ => None,
        },
        Err(_) => None,
    }
}

/// The key under which the configuration document names the storage base.
pub open spec fn storage_base_key() -> Seq<char> {
    "sql_db_location"@
}

/// A failure to obtain the storage base from the configuration text. Every
/// such failure is fatal to the process: the embedding program reports the
/// diagnostic and aborts rather than proceeding without a storage base.
#[derive(Clone, Copy, Debug, PartialEq, Eq)]
pub enum ConfigError {
    /// The text is not a JSON document with a string under the storage key.
    StorageBaseMissing,
}

impl ConfigError {
    /// The diagnostic the process reports before aborting.
    pub fn message(&self) -> (r: &'static str)
        ensures
            r@ == "Invalid configuration"@,
    {
        "Invalid configuration"
    }
}

/// Extracts the base storage location from the configuration text: the string
/// under the storage key, exactly when the text holds one.
pub fn storage_base_from_config(text: &str) -> (r: Result<String, ConfigError>)
    ensures
        match r {
            Ok(s) => json_string_field_of(text@, storage_base_key()) == Some(s@),
            Err(e) => json_string_field_of(text@, storage_base_key()) is None && e
                == ConfigError::StorageBaseMissing,
        },
{
    match json_string_field(text, "sql_db_location") {
        Some(s) => Ok(s),
        None => Err(ConfigError::StorageBaseMissing),
    }
}

} // verus!
