//! Metadata as structured data and as text.
//!
//! The metadata of a document is a JSON object. The table stores it as text;
//! writing and reading that text is the work of `serde_json`.

use vstd::prelude::*;

verus! {

/// `serde_json::Value`, any JSON value. Nothing inside it is visible to the
/// verifier.
#[verifier::external_type_specification]
#[verifier::external_body]
pub struct ExJsonValue(serde_json::Value);

/// `serde_json::Map`, the object of a JSON value. Nothing inside it is visible
/// to the verifier.
#[verifier::external_type_specification]
#[verifier::external_body]
#[verifier::reject_recursive_types(K)]
#[verifier::reject_recursive_types(V)]
pub struct ExJsonMap<K, V>(serde_json::Map<K, V>);

/// `serde_json::Error`, the failure of writing or reading JSON text.
#[verifier::external_type_specification]
#[verifier::external_body]
pub struct ExJsonError(serde_json::Error);

/// The metadata of a document: an ordered mapping from names to JSON values.
pub type Metadata = serde_json::Map<String, serde_json::Value>;

/// The text that `serde_json::to_string` writes for the metadata; `None` where
/// it reports an error.
pub uninterp spec fn metadata_text(metadata: Metadata) -> Option<Seq<char>>;

/// The metadata that `serde_json::from_str` reads from the text; `None` where
/// it reports an error, as it does for text that is not one JSON object.
pub uninterp spec fn text_metadata(text: Seq<char>) -> Option<Metadata>;

/// Calls `serde_json::to_string` on the metadata. The result depends on the
/// metadata alone; the contract gives it its name and claims nothing else.
#[verifier::external_body]
pub(crate) fn write_metadata(metadata: &Metadata) -> (written: Result<String, serde_json::Error>)
    ensures
        match written {
            Ok(text) => metadata_text(*metadata) == Some(text@),
            Err(_) => metadata_text(*metadata) is None,
        },
{
    serde_json::to_string(metadata)
}

/// Calls `serde_json::from_str` for a JSON object. The result depends on the
/// text alone; the contract gives it its name and claims nothing else.
#[verifier::external_body]
pub(crate) fn read_metadata(text: &str) -> (read: Result<Metadata, serde_json::Error>)
    ensures
        match read {
            Ok(metadata) => text_metadata(text@) == Some(metadata),
            Err(_) => text_metadata(text@) is None,
        },
{
    serde_json::from_str(text)
}

/// Calls `to_string` on a `serde_json::Error`, which writes its description.
/// Nothing is claimed of the text.
#[verifier::external_body]
pub(crate) fn describe_json_error(error: &serde_json::Error) -> (description: String) {
    error.to_string()
}

} // verus!
