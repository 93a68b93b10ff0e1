//! The trusted boundary to the hierarchical-document parser.
//!
//! The text of `config.yaml` is handed to `yaml_rust` and its result is
//! converted, node for node, into the library's own [`DocValue`] tree; every
//! further step of the pipeline works on that tree and is verified.

use crate::doc::DocValue;
use vstd::prelude::*;

verus! {

#[verifier::external_type_specification]
#[verifier::external_body]
pub struct ExYaml(yaml_rust::Yaml);

/// What parsing a text yields: the documents it holds, converted to
/// [`DocValue`] trees, or `None` when the text is not syntactically valid.
///
/// `yaml_rust::YamlLoader::load_from_str` computes its result from the source
/// text alone, so this is a function of the text: parsing the same text twice
/// yields the same documents.
pub uninterp spec fn parsed_docs(text: Seq<char>) -> Option<Seq<DocValue>>;

/// Relies on `yaml_rust::Yaml`: each variant carries the parsed scalar, the
/// items of a sequence, or the entries of a mapping in document order; every
/// other variant (floats, null, aliases, bad values) is outside the schema and
/// becomes `Other`.
#[verifier::external_body]
fn yaml_to_doc(y: &yaml_rust::Yaml) -> DocValue {
    match y {
        yaml_rust::Yaml::String(s) => DocValue::Text(s.clone()),
        yaml_rust::Yaml::Integer(v) => DocValue::Int(*v),
        yaml_rust::Yaml::Boolean(v) => DocValue::Flag(*v),
        yaml_rust::Yaml::Array(items) => DocValue::List(items.iter().map(yaml_to_doc).collect()),
        yaml_rust::Yaml::Hash(entries) => DocValue::Mapping(
            entries.iter().map(|(k, v)| (yaml_to_doc(k), yaml_to_doc(v))).collect(),
        ),
        _ => DocValue::Other,
    }
}

/// Relies on `yaml_rust::YamlLoader::load_from_str`: it parses the text into
/// one `Yaml` tree per document, deterministically and with mapping entries in
/// document order, or reports a scan error on malformed syntax.
#[verifier::external_body]
pub(crate) fn parse_text(text: &str) -> (r: Result<Vec<DocValue>, String>)
    ensures
        match r {
            Ok(docs) => parsed_docs(text@) == Some(docs@),
            Err(_) => parsed_docs(text@) is None,
        },
{
    match yaml_rust::YamlLoader::load_from_str(text) {
        Ok(docs) => Ok(docs.iter().map(yaml_to_doc).collect()),
        Err(e) => Err(e.to_string()),
    }
}

} // verus!
