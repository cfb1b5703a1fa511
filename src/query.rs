//! What the resolver asks of its surroundings and what it is told back.
use vstd::prelude::*;

use crate::platform::{Hive, UserDir};

verus! {

/// One read of the machine's state that the resolver needs answered.
#[derive(Debug, PartialEq, Eq)]
pub enum Query {
    /// The string value `value` of registry key `key` under `hive`
    /// (answered with [`Reply::Text`], `None` when the key or value is
    /// missing, unreadable or not a string).
    RegistryValue { hive: Hive, key: String, value: String },
    /// The names of the subkeys of registry key `key` under `hive`
    /// (answered with [`Reply::Names`], empty when the key cannot be opened;
    /// names that cannot be read are left out).
    RegistrySubkeys { hive: Hive, key: String },
    /// A per-user directory of the operating system (answered with
    /// [`Reply::Text`], `None` when it is unknown or not valid UTF-8).
    Directory { dir: UserDir },
    /// Whether a file exists at `path` (answered with [`Reply::Exists`],
    /// `false` when the check fails).
    FileExists { path: String },
}

/// The answer to a [`Query`].
#[derive(Debug, PartialEq, Eq)]
pub enum Reply {
    Text(Option<String>),
    Names(Vec<String>),
    Exists(bool),
}

/// What the resolver wants next: an answer, or nothing more.
#[derive(Debug, PartialEq, Eq)]
pub enum Step {
    Ask(Query),
    Finished(Option<String>),
}

pub ghost enum QueryView {
    RegistryValue { hive: Hive, key: Seq<char>, value: Seq<char> },
    RegistrySubkeys { hive: Hive, key: Seq<char> },
    Directory { dir: UserDir },
    FileExists { path: Seq<char> },
}

pub ghost enum ReplyView {
    Text(Option<Seq<char>>),
    Names(Seq<Seq<char>>),
    Exists(bool),
}

pub ghost enum StepView {
    Ask(QueryView),
    Finished(Option<Seq<char>>),
}

/// The characters of each string of `v`.
pub open spec fn texts(v: Seq<String>) -> Seq<Seq<char>> {
    v.map_values(|s: String| s@)
}

/// The characters of an optional string.
pub open spec fn opt_text(o: Option<String>) -> Option<Seq<char>> {
    match o {
        Some(s) => Some(s@),
        None => None,
    }
}

impl View for Query {
    type V = QueryView;

    open spec fn view(&self) -> QueryView {
        match self {
            Query::RegistryValue { hive, key, value } => QueryView::RegistryValue {
                hive: *hive,
                key: key@,
                value: value@,
            },
            Query::RegistrySubkeys { hive, key } => QueryView::RegistrySubkeys { hive: *hive, key: key@ },
            Query::Directory { dir } => QueryView::Directory { dir: *dir },
            Query::FileExists { path } => QueryView::FileExists { path: path@ },
        }
    }
}

impl View for Reply {
    type V = ReplyView;

    open spec fn view(&self) -> ReplyView {
        match self {
            Reply::Text(t) => ReplyView::Text(opt_text(*t)),
            Reply::Names(n) => ReplyView::Names(texts(n@)),
            Reply::Exists(b) => ReplyView::Exists(*b),
        }
    }
}

impl View for Step {
    type V = StepView;

    open spec fn view(&self) -> StepView {
        match self {
            Step::Ask(q) => StepView::Ask(q@),
            Step::Finished(f) => StepView::Finished(opt_text(*f)),
        }
    }
}

/// The text a reply carries; any other reply counts as no text.
pub open spec fn text_of(r: ReplyView) -> Option<Seq<char>> {
    match r {
        ReplyView::Text(t) => t,
        _ => None,
    }
}

/// The names a reply carries; any other reply counts as no names.
pub open spec fn names_of(r: ReplyView) -> Seq<Seq<char>> {
    match r {
        ReplyView::Names(n) => n,
        _ => Seq::empty(),
    }
}

/// Whether a reply says the file exists; any other reply counts as no.
pub open spec fn exists_of(r: ReplyView) -> bool {
    match r {
        ReplyView::Exists(b) => b,
        _ => false,
    }
}

} // verus!
