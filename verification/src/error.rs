//! The loader's error taxonomy.
//!
//! Every failure is terminal and carries enough context (the offending system
//! label and property name, where applicable) to fix the configuration without
//! reading source code.

use vstd::prelude::*;

verus! {

/// The mathematical value of a [`ConfigError`].
///
/// `ConfigParseError` drops its detail text here: the detail comes verbatim
/// from the underlying document parser and is presentation only, so no
/// contract pins it down.
pub enum ConfigErrorView {
    RootNotFound(Seq<char>),
    ConfigFileMissing,
    ConfigParseError,
    MissingSystemsKey,
    InvalidLabel,
    MissingProperty(Seq<char>, Seq<char>),
    InvalidColor(Seq<char>),
    SystemPathNotFound(Seq<char>, Seq<char>),
}

/// Why loading the configuration failed.
///
/// + `RootNotFound(root)`: the supplied archive root does not exist.
/// + `ConfigFileMissing`: `config.yaml` is absent or unreadable there.
/// + `ConfigParseError(details)`: the document text is not syntactically valid.
/// + `MissingSystemsKey`: the document lacks a top-level `systems` mapping.
/// + `InvalidLabel`: a `systems` entry's key is not a string.
/// + `MissingProperty(label, property)`: a required field is absent or has the
///   wrong type.
/// + `InvalidColor(label)`: `color` is missing a component or holds an
///   out-of-range or non-integer value.
/// + `SystemPathNotFound(label, path)`: the system's declared `path`, resolved
///   against the archive root, does not exist.
#[derive(Debug, PartialEq, Eq)]
pub enum ConfigError {
    RootNotFound(String),
    ConfigFileMissing,
    ConfigParseError(String),
    MissingSystemsKey,
    InvalidLabel,
    MissingProperty(String, String),
    InvalidColor(String),
    SystemPathNotFound(String, String),
}

impl View for ConfigError {
    type V = ConfigErrorView;

    open spec fn view(&self) -> ConfigErrorView {
        match self {
            ConfigError::RootNotFound(root) => ConfigErrorView::RootNotFound(root@),
            ConfigError::ConfigFileMissing => ConfigErrorView::ConfigFileMissing,
            ConfigError::ConfigParseError(_) => ConfigErrorView::ConfigParseError,
            ConfigError::MissingSystemsKey => ConfigErrorView::MissingSystemsKey,
            ConfigError::InvalidLabel => ConfigErrorView::InvalidLabel,
            ConfigError::MissingProperty(label, property) => ConfigErrorView::MissingProperty(
                label@,
                property@,
            ),
            ConfigError::InvalidColor(label) => ConfigErrorView::InvalidColor(label@),
            ConfigError::SystemPathNotFound(label, path) => ConfigErrorView::SystemPathNotFound(
                label@,
                path@,
            ),
        }
    }
}

impl DeepView for ConfigError {
    type V = ConfigErrorView;

    open spec fn deep_view(&self) -> ConfigErrorView {
        self@
    }
}

impl Clone for ConfigError {
    fn clone(&self) -> (res: Self)
        ensures
            res@ == self@,
    {
        match self {
            ConfigError::RootNotFound(root) => ConfigError::RootNotFound(root.clone()),
            ConfigError::ConfigFileMissing => ConfigError::ConfigFileMissing,
            ConfigError::ConfigParseError(details) => ConfigError::ConfigParseError(
                details.clone(),
            ),
            ConfigError::MissingSystemsKey => ConfigError::MissingSystemsKey,
            ConfigError::InvalidLabel => ConfigError::InvalidLabel,
            ConfigError::MissingProperty(label, property) => ConfigError::MissingProperty(
                label.clone(),
                property.clone(),
            ),
            ConfigError::InvalidColor(label) => ConfigError::InvalidColor(label.clone()),
            ConfigError::SystemPathNotFound(label, path) => ConfigError::SystemPathNotFound(
                label.clone(),
                path.clone(),
            ),
        }
    }
}

} // verus!
