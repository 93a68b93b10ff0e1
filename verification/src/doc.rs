//! A generic semi-structured document value with type-checked accessors.
//!
//! The configuration file is parsed into this tree of plain values; each
//! accessor returns `None` on a type mismatch instead of failing, and only the
//! loader turns an absent or wrong-typed result into a named error.

use vstd::prelude::*;
use vstd::string::StringExecFns;

verus! {

/// One node of a parsed hierarchical document.
///
/// `Other` stands for every node the schema never accepts (null, floats,
/// aliases, malformed nodes): the loader only ever needs to know that such a
/// node is none of the typed variants.
pub enum DocValue {
    Text(String),
    Int(i64),
    Flag(bool),
    List(Vec<DocValue>),
    Mapping(Vec<(DocValue, DocValue)>),
    Other,
}

/// Does mapping key `k` read as the text `key`?
pub open spec fn key_is(k: DocValue, key: Seq<char>) -> bool {
    k matches DocValue::Text(s) && s@ == key
}

/// The value of the first entry at or after position `i` whose key reads as
/// `key`, if any.
pub open spec fn lookup_from(
    entries: Seq<(DocValue, DocValue)>,
    key: Seq<char>,
    i: int,
) -> Option<DocValue>
    decreases entries.len() - i,
{
    if i < 0 || i >= entries.len() {
        None
    } else if key_is(entries[i].0, key) {
        Some(entries[i].1)
    } else {
        lookup_from(entries, key, i + 1)
    }
}

/// The value of the first entry whose key reads as `key`, if any.
pub open spec fn lookup(entries: Seq<(DocValue, DocValue)>, key: Seq<char>) -> Option<DocValue> {
    lookup_from(entries, key, 0)
}

/// The value under `key` when `d` is a mapping that contains it.
pub open spec fn prop_of(d: DocValue, key: Seq<char>) -> Option<DocValue> {
    match d {
        DocValue::Mapping(entries) => lookup(entries@, key),
        _ => None,
    }
}

/// The characters of the text stored under `key`, when `props` is a mapping
/// holding text there.
pub open spec fn text_prop(props: DocValue, key: Seq<char>) -> Option<Seq<char>> {
    match prop_of(props, key) {
        Some(v) => v.spec_as_text(),
        None => None,
    }
}

/// The boolean stored under `key`, when `props` is a mapping holding one there.
pub open spec fn flag_prop(props: DocValue, key: Seq<char>) -> Option<bool> {
    match prop_of(props, key) {
        Some(v) => v.spec_as_flag(),
        None => None,
    }
}

/// The sequence items stored under `key`, when `props` is a mapping holding a
/// sequence there.
pub open spec fn list_prop(props: DocValue, key: Seq<char>) -> Option<Seq<DocValue>> {
    match prop_of(props, key) {
        Some(v) => v.spec_as_list(),
        None => None,
    }
}

impl DocValue {
    /// The characters of this node when it is text.
    pub open spec fn spec_as_text(self) -> Option<Seq<char>> {
        match self {
            DocValue::Text(s) => Some(s@),
            _ => None,
        }
    }

    /// The integer carried by this node when it is an integer.
    pub open spec fn spec_as_int(self) -> Option<i64> {
        match self {
            DocValue::Int(v) => Some(v),
            _ => None,
        }
    }

    /// The boolean carried by this node when it is a boolean.
    pub open spec fn spec_as_flag(self) -> Option<bool> {
        match self {
            DocValue::Flag(v) => Some(v),
            _ => None,
        }
    }

    /// The items of this node when it is a sequence.
    pub open spec fn spec_as_list(self) -> Option<Seq<DocValue>> {
        match self {
            DocValue::List(items) => Some(items@),
            _ => None,
        }
    }

    /// The entries of this node when it is a mapping.
    pub open spec fn spec_as_mapping(self) -> Option<Seq<(DocValue, DocValue)>> {
        match self {
            DocValue::Mapping(entries) => Some(entries@),
            _ => None,
        }
    }

    /// This node's text, or `None` on any other kind of node.
    pub fn as_text(&self) -> (r: Option<&String>)
        ensures
            r is Some <==> self.spec_as_text() is Some,
            r matches Some(s) ==> self.spec_as_text() == Some(s@),
    {
        match self {
            DocValue::Text(s) => Some(s),
            _ => None,
        }
    }

    /// This node's integer, or `None` on any other kind of node.
    pub fn as_int(&self) -> (r: Option<i64>)
        ensures
            r == self.spec_as_int(),
    {
        match self {
            DocValue::Int(v) => Some(*v),
            _ => None,
        }
    }

    /// This node's boolean, or `None` on any other kind of node.
    pub fn as_flag(&self) -> (r: Option<bool>)
        ensures
            r == self.spec_as_flag(),
    {
        match self {
            DocValue::Flag(v) => Some(*v),
            _ => None,
        }
    }

    /// This node's sequence items, or `None` on any other kind of node.
    pub fn as_list(&self) -> (r: Option<&Vec<DocValue>>)
        ensures
            r is Some <==> self.spec_as_list() is Some,
            r matches Some(items) ==> self.spec_as_list() == Some(items@),
    {
        match self {
            DocValue::List(items) => Some(items),
            _ => None,
        }
    }

    /// This node's mapping entries, or `None` on any other kind of node.
    pub fn as_mapping(&self) -> (r: Option<&Vec<(DocValue, DocValue)>>)
        ensures
            r is Some <==> self.spec_as_mapping() is Some,
            r matches Some(entries) ==> self.spec_as_mapping() == Some(entries@),
    {
        match self {
            DocValue::Mapping(entries) => Some(entries),
            _ => None,
        }
    }

    /// The value stored under the text key `key` when this node is a mapping
    /// that contains such an entry, or `None` otherwise.
    pub fn get<'a>(&'a self, key: &str) -> (r: Option<&'a DocValue>)
        ensures
            r is Some <==> prop_of(*self, key@) is Some,
            r matches Some(v) ==> prop_of(*self, key@) == Some(*v),
    {
        let entries = match self {
            DocValue::Mapping(entries) => entries,
            _ => { return None; },
        };
        let needle = String::from_str(key);
        let mut i: usize = 0;
        while i < entries.len()
            invariant
                i <= entries.len(),
                needle@ == key@,
                *self == DocValue::Mapping(*entries),
                lookup(entries@, key@) == lookup_from(entries@, key@, i as int),
            decreases entries.len() - i,
        {
            match &entries[i].0 {
                DocValue::Text(k) => {
                    if *k == needle {
                        proof {
                            assert(key_is(entries@[i as int].0, key@));
                            assert(lookup_from(entries@, key@, i as int) == Some(
                                entries@[i as int].1,
                            ));
                        }
                        return Some(&entries[i].1);
                    }
                },
                _ => {},
            }
            i = i + 1;
        }
        None
    }
}

} // verus!
