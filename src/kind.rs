//! The three analyzer kinds and their static properties.
use vstd::prelude::*;

use crate::text::str_eq;

verus! {

/// A kind of analyzer: each has a model file extension and a subdirectory.
#[derive(Clone, Copy, Debug, PartialEq, Eq, Structural)]
pub enum DataFileType {
    Grammar,
    Spelling,
    Hyphenation,
}

impl DataFileType {
    /// The model file extension of this kind.
    pub open spec fn ext_view(self) -> Seq<char> {
        match self {
            DataFileType::Grammar => "zcheck"@,
            DataFileType::Spelling => "zhfst"@,
            DataFileType::Hyphenation => "hfstol"@,
        }
    }

    /// The subdirectory of the data directory that holds this kind's models.
    pub open spec fn dir_view(self) -> Seq<char> {
        match self {
            DataFileType::Grammar => "grammar"@,
            DataFileType::Spelling => "spelling"@,
            DataFileType::Hyphenation => "hyphenation"@,
        }
    }

    /// How this kind is named in messages to clients.
    pub open spec fn label_view(self) -> Seq<char> {
        match self {
            DataFileType::Grammar => "grammar checker"@,
            DataFileType::Spelling => "speller"@,
            DataFileType::Hyphenation => "hyphenator"@,
        }
    }

    /// The kind whose models carry the extension `ext`, if any.
    pub open spec fn of_ext(ext: Seq<char>) -> Option<DataFileType> {
        if ext == DataFileType::Grammar.ext_view() {
            Some(DataFileType::Grammar)
        } else if ext == DataFileType::Spelling.ext_view() {
            Some(DataFileType::Spelling)
        } else if ext == DataFileType::Hyphenation.ext_view() {
            Some(DataFileType::Hyphenation)
        } else {
            None
        }
    }

    pub fn as_ext(&self) -> (r: &str)
        ensures
            r@ == self.ext_view(),
    {
        match self {
            DataFileType::Grammar => "zcheck",
            DataFileType::Spelling => "zhfst",
            DataFileType::Hyphenation => "hfstol",
        }
    }

    pub fn as_dir(&self) -> (r: &str)
        ensures
            r@ == self.dir_view(),
    {
        match self {
            DataFileType::Grammar => "grammar",
            DataFileType::Spelling => "spelling",
            DataFileType::Hyphenation => "hyphenation",
        }
    }

    pub fn label(&self) -> (r: &str)
        ensures
            r@ == self.label_view(),
    {
        match self {
            DataFileType::Grammar => "grammar checker",
            DataFileType::Spelling => "speller",
            DataFileType::Hyphenation => "hyphenator",
        }
    }

    /// Classifies a model file by its extension.
    pub fn from_ext(ext: &str) -> (r: Option<DataFileType>)
        ensures
            r == DataFileType::of_ext(ext@),
            r matches Some(k) ==> k.ext_view() == ext@,
    {
        if str_eq(ext, DataFileType::Grammar.as_ext()) {
            Some(DataFileType::Grammar)
        } else if str_eq(ext, DataFileType::Spelling.as_ext()) {
            Some(DataFileType::Spelling)
        } else if str_eq(ext, DataFileType::Hyphenation.as_ext()) {
            Some(DataFileType::Hyphenation)
        } else {
            None
        }
    }
}

} // verus!
