//! The validated descriptor of one game platform in the archive.

use vstd::prelude::*;
use vstd::std_specs::cmp::PartialEqSpec;
use vstd::string::StringExecFns;

verus! {

/// An RGB colour triple; every component already lies in `0..=255` by type.
#[derive(Debug, Clone, Copy, PartialEq, Eq, Structural)]
pub struct Rgb {
    pub r: u8,
    pub g: u8,
    pub b: u8,
}

/// A piece of text bundled with the colour it should be rendered in.
///
/// The core never renders: turning this pair into terminal escapes is the
/// presentation layer's business.
#[derive(Debug)]
pub struct ColoredText {
    pub text: String,
    pub color: Rgb,
}

impl Clone for ColoredText {
    fn clone(&self) -> (res: Self)
        ensures
            res == *self,
    {
        ColoredText { text: self.text.clone(), color: self.color }
    }
}

/// The mathematical value of a [`System`]: every field as a plain sequence,
/// flag or colour triple.
pub struct SystemView {
    pub label: Seq<char>,
    pub display_name: Seq<char>,
    pub color: Rgb,
    pub directory: Seq<char>,
    pub games_are_directories: bool,
}

/// An abstraction over a game system.
///
/// # Properties
///
/// + `label`: An arbitrary system label for identifying this system.
/// + `pretty_string`: the display name together with the colour it is shown in.
/// + `dir_name`: the directory in which this system's games are stored (relative to the
///   archive root).
/// + `games_are_directories`: are this system's games represented as directories?
///
/// Equality treats `directory` and `games_are_directories` as the system's
/// identity; `label` and `pretty_string` are descriptive metadata.
#[derive(Debug)]
pub struct System {
    pub label: String,
    pub pretty_string: ColoredText,
    pub directory: String,
    pub games_are_directories: bool,
}

impl View for System {
    type V = SystemView;

    open spec fn view(&self) -> SystemView {
        SystemView {
            label: self.label@,
            display_name: self.pretty_string.text@,
            color: self.pretty_string.color,
            directory: self.directory@,
            games_are_directories: self.games_are_directories,
        }
    }
}

impl DeepView for System {
    type V = SystemView;

    open spec fn deep_view(&self) -> SystemView {
        self@
    }
}

impl System {
    /// Creates a single `System` instance.
    ///
    /// Pure construction: no filesystem or schema validation happens here; the
    /// caller (normally the loader) is responsible for handing in valid fields.
    #[must_use]
    pub fn new(
        label: &str,
        pretty_string: ColoredText,
        dir_name: &str,
        games_are_directories: bool,
    ) -> (s: Self)
        ensures
            s@ == (SystemView {
                label: label@,
                display_name: pretty_string.text@,
                color: pretty_string.color,
                directory: dir_name@,
                games_are_directories,
            }),
    {
        System {
            label: String::from_str(label),
            pretty_string,
            directory: String::from_str(dir_name),
            games_are_directories,
        }
    }
}

impl Clone for System {
    fn clone(&self) -> (res: Self)
        ensures
            res == *self,
    {
        System {
            label: self.label.clone(),
            pretty_string: self.pretty_string.clone(),
            directory: self.directory.clone(),
            games_are_directories: self.games_are_directories,
        }
    }
}

impl PartialEq for System {
    fn eq(&self, other: &Self) -> (r: bool) {
        self.directory == other.directory && self.games_are_directories
            == other.games_are_directories
    }
}

impl Eq for System {

}

impl std::hash::Hash for System {
    /// Relies on `std::hash::Hash` for `String` and `bool`: hashing covers the
    /// same two fields as equality, so equal descriptors hash alike.
    #[verifier::external_body]
    fn hash<H: std::hash::Hasher>(&self, state: &mut H) {
        self.directory.hash(state);
        self.games_are_directories.hash(state);
    }
}

impl vstd::std_specs::cmp::PartialEqSpecImpl for System {
    open spec fn obeys_eq_spec() -> bool {
        true
    }

    open spec fn eq_spec(&self, other: &Self) -> bool {
        self.directory@ == other.directory@ && self.games_are_directories
            == other.games_are_directories
    }
}

/// Descriptor equality looks at the storage location alone: two descriptors
/// with the same `directory` and the same `games_are_directories` flag are
/// equal, whatever their labels, names or colours; and two descriptors that
/// differ in either of those two fields are not.
pub proof fn lemma_system_identity(a: System, b: System)
    ensures
        a.eq_spec(&b) <==> (a.directory@ == b.directory@ && a.games_are_directories
            == b.games_are_directories),
{
}

} // verus!
