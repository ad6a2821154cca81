//! The catalog scanner: which entries of a kind's directory are models, the
//! language key of each, and the titles listed for them.
use vstd::prelude::*;

use crate::autonym::{title_of, AutonymTable, AutonymView};
use crate::kind::DataFileType;
use crate::paths::{extension_of, get_file_info, path_extension, path_stem};
use crate::text::str_eq;

verus! {

/// One entry of a directory listing.
#[derive(Debug)]
pub struct DirEntry {
    pub path: String,
    pub is_dir: bool,
}

/// A model file found in the catalog: its language key and its path.
#[derive(Debug)]
pub struct ModelFile {
    pub language: String,
    pub path: String,
}

impl View for ModelFile {
    type V = (Seq<char>, Seq<char>);

    open spec fn view(&self) -> (Seq<char>, Seq<char>) {
        (self.language@, self.path@)
    }
}

/// Whether a listed path is a model of `kind`: not a directory, with the kind's extension.
pub open spec fn is_model_of(path: Seq<char>, is_dir: bool, kind: DataFileType) -> bool {
    !is_dir && path_extension(path) == Some(kind.ext_view())
}

/// The language key and path of an entry that is a model of `kind` with a stem.
pub open spec fn model_of(e: DirEntry, kind: DataFileType) -> Option<(Seq<char>, Seq<char>)> {
    if is_model_of(e.path@, e.is_dir, kind) && path_stem(e.path@) is Some {
        Some((path_stem(e.path@)->0, e.path@))
    } else {
        None
    }
}

/// The models of `kind` among `entries`, in listing order.
pub open spec fn models_spec(entries: Seq<DirEntry>, kind: DataFileType) -> Seq<(Seq<char>, Seq<char>)>
    decreases entries.len(),
{
    if entries.len() == 0 {
        seq![]
    } else {
        let prev = models_spec(entries.drop_last(), kind);
        match model_of(entries.last(), kind) {
            Some(m) => prev.push(m),
            None => prev,
        }
    }
}

/// The language keys of the models of `kind` among `entries`.
pub open spec fn model_keys(entries: Seq<DirEntry>, kind: DataFileType) -> Set<Seq<char>> {
    models_spec(entries, kind).map_values(|m: (Seq<char>, Seq<char>)| m.0).to_set()
}

/// The listing of languages: each model's key with the title that `table` gives it.
pub open spec fn languages_spec(
    entries: Seq<DirEntry>,
    kind: DataFileType,
    table: Seq<AutonymView>,
) -> Seq<(Seq<char>, Seq<char>)> {
    models_spec(entries, kind).map_values(
        |m: (Seq<char>, Seq<char>)| (m.0, title_of(table, m.0)),
    )
}

pub open spec fn pair_views(v: Seq<(String, String)>) -> Seq<(Seq<char>, Seq<char>)> {
    v.map_values(|p: (String, String)| (p.0@, p.1@))
}

/// The paths of the entries that are models of `kind`, in listing order.
pub open spec fn data_files_spec(entries: Seq<DirEntry>, kind: DataFileType) -> Seq<Seq<char>>
    decreases entries.len(),
{
    if entries.len() == 0 {
        seq![]
    } else {
        let prev = data_files_spec(entries.drop_last(), kind);
        if is_model_of(entries.last().path@, entries.last().is_dir, kind) {
            prev.push(entries.last().path@)
        } else {
            prev
        }
    }
}

/// The paths of the models of `data_type` among the entries of its directory:
/// the entries that are no directory and carry the kind's extension.
pub fn get_data_files(entries: &Vec<DirEntry>, data_type: DataFileType) -> (r: Vec<String>)
    ensures
        r@.map_values(|p: String| p@) == data_files_spec(entries@, data_type),
{
    let ext = data_type.as_ext();
    let mut r: Vec<String> = Vec::new();
    let mut i: usize = 0;
    while i < entries.len()
        invariant
            ext@ == data_type.ext_view(),
            i <= entries@.len(),
            r@.map_values(|p: String| p@) == data_files_spec(entries@.take(i as int), data_type),
        decreases entries@.len() - i,
    {
        let e = &entries[i];
        assert(entries@.take(i + 1).drop_last() =~= entries@.take(i as int));
        assert(entries@.take(i + 1).last() == *e);
        if !e.is_dir {
            if let Some(found) = extension_of(e.path.as_str()) {
                if str_eq(found.as_str(), ext) {
                    let p = e.path.clone();
                    assert(r@.push(p).map_values(|p: String| p@) =~= r@.map_values(|p: String| p@).push(
                        p@,
                    ));
                    r.push(p);
                }
            }
        }
        i = i + 1;
    }
    assert(entries@.take(i as int) =~= entries@);
    r
}

/// The models of `data_type` among the entries of its directory.
pub fn model_files(entries: &Vec<DirEntry>, data_type: DataFileType) -> (r: Vec<ModelFile>)
    ensures
        r@.map_values(|m: ModelFile| m@) == models_spec(entries@, data_type),
{
    let ext = data_type.as_ext();
    let mut r: Vec<ModelFile> = Vec::new();
    let mut i: usize = 0;
    while i < entries.len()
        invariant
            ext@ == data_type.ext_view(),
            i <= entries@.len(),
            r@.map_values(|m: ModelFile| m@) == models_spec(entries@.take(i as int), data_type),
        decreases entries@.len() - i,
    {
        let e = &entries[i];
        let ghost before = r@;
        assert(entries@.take(i + 1).drop_last() =~= entries@.take(i as int));
        assert(entries@.take(i + 1).last() == *e);
        if !e.is_dir {
            match get_file_info(e.path.as_str()) {
                Some(info) => {
                    if str_eq(info.extension.as_str(), ext) {
                        let m = ModelFile { language: info.stem, path: info.path };
                        r.push(m);
                        assert(r@.map_values(|m: ModelFile| m@) =~= before.map_values(
                            |m: ModelFile| m@,
                        ).push(m@));
                    }
                },
                None => {
                    proof {
                        if path_extension(e.path@) is Some {
                            // An entry with an extension but no stem is no model.
                            assert(path_stem(e.path@) is None);
                        }
                    }
                },
            }
        }
        i = i + 1;
    }
    assert(entries@.take(i as int) =~= entries@);
    r
}

/// The languages available for `data_type`: each model's key with its title.
pub fn available_languages(
    entries: &Vec<DirEntry>,
    data_type: DataFileType,
    table: &AutonymTable,
) -> (r: Vec<(String, String)>)
    ensures
        pair_views(r@) == languages_spec(entries@, data_type, table@),
{
    let models = model_files(entries, data_type);
    let ghost ms = models_spec(entries@, data_type);
    let mut r: Vec<(String, String)> = Vec::new();
    let mut i: usize = 0;
    while i < models.len()
        invariant
            models@.map_values(|m: ModelFile| m@) == ms,
            ms == models_spec(entries@, data_type),
            i <= models@.len(),
            pair_views(r@) == languages_spec(entries@, data_type, table@).take(i as int),
        decreases models@.len() - i,
    {
        let m = &models[i];
        assert(ms[i as int] == m@);
        let title = table.title(m.language.as_str());
        let p = (m.language.clone(), title);
        let ghost ls = languages_spec(entries@, data_type, table@);
        assert(ls.len() == ms.len());
        assert(ls[i as int] == (p.0@, p.1@));
        assert(ls.take(i + 1) =~= ls.take(i as int).push(ls[i as int]));
        assert(pair_views(r@.push(p)) =~= pair_views(r@).push((p.0@, p.1@)));
        r.push(p);
        i = i + 1;
    }
    assert(languages_spec(entries@, data_type, table@).take(i as int) =~= languages_spec(
        entries@,
        data_type,
        table@,
    ));
    r
}

/// The languages available for each kind.
#[derive(Debug)]
pub struct AvailableLanguagesByType {
    pub grammar: Vec<(String, String)>,
    pub speller: Vec<(String, String)>,
    pub hyphenation: Vec<(String, String)>,
}

/// The answer to a request for the available languages.
#[derive(Debug)]
pub struct AvailableLanguagesResponse {
    pub available: AvailableLanguagesByType,
}

/// The listing of every kind, from the entries of each kind's directory.
pub fn available_languages_response(
    grammar_entries: &Vec<DirEntry>,
    speller_entries: &Vec<DirEntry>,
    hyphenation_entries: &Vec<DirEntry>,
    table: &AutonymTable,
) -> (r: AvailableLanguagesResponse)
    ensures
        pair_views(r.available.grammar@) == languages_spec(
            grammar_entries@,
            DataFileType::Grammar,
            table@,
        ),
        pair_views(r.available.speller@) == languages_spec(
            speller_entries@,
            DataFileType::Spelling,
            table@,
        ),
        pair_views(r.available.hyphenation@) == languages_spec(
            hyphenation_entries@,
            DataFileType::Hyphenation,
            table@,
        ),
{
    AvailableLanguagesResponse {
        available: AvailableLanguagesByType {
            grammar: available_languages(grammar_entries, DataFileType::Grammar, table),
            speller: available_languages(speller_entries, DataFileType::Spelling, table),
            hyphenation: available_languages(hyphenation_entries, DataFileType::Hyphenation, table),
        },
    }
}

/// The language keys of a listing.
pub open spec fn listed_keys(listing: Seq<(Seq<char>, Seq<char>)>) -> Set<Seq<char>> {
    listing.map_values(|p: (Seq<char>, Seq<char>)| p.0).to_set()
}

/// The languages listed for a kind are exactly the language keys of its
/// models on disk, whatever titles the table gives them.
pub proof fn lemma_listing_keys_are_models(
    entries: Seq<DirEntry>,
    kind: DataFileType,
    table: Seq<AutonymView>,
)
    ensures
        listed_keys(languages_spec(entries, kind, table)) == model_keys(entries, kind),
{
    let a = languages_spec(entries, kind, table).map_values(|p: (Seq<char>, Seq<char>)| p.0);
    let b = models_spec(entries, kind).map_values(|m: (Seq<char>, Seq<char>)| m.0);
    assert(a =~= b);
}

/// Listing twice, with the disk and the table unchanged, gives the same listing.
pub proof fn lemma_listing_idempotent(
    entries: Seq<DirEntry>,
    kind: DataFileType,
    table: Seq<AutonymView>,
    first: Seq<(Seq<char>, Seq<char>)>,
    second: Seq<(Seq<char>, Seq<char>)>,
)
    requires
        first == languages_spec(entries, kind, table),
        second == languages_spec(entries, kind, table),
    ensures
        first == second,
{
}

/// The (kind, language) pairs of a whole listing.
pub open spec fn response_keys(
    grammar: Seq<(Seq<char>, Seq<char>)>,
    speller: Seq<(Seq<char>, Seq<char>)>,
    hyphenation: Seq<(Seq<char>, Seq<char>)>,
) -> Set<(DataFileType, Seq<char>)> {
    listed_keys(grammar).map(|k: Seq<char>| (DataFileType::Grammar, k)) + listed_keys(speller).map(
        |k: Seq<char>| (DataFileType::Spelling, k),
    ) + listed_keys(hyphenation).map(|k: Seq<char>| (DataFileType::Hyphenation, k))
}

/// The (kind, language) pairs of the models that the scanner sees.
pub open spec fn scanned_keys(
    grammar_entries: Seq<DirEntry>,
    speller_entries: Seq<DirEntry>,
    hyphenation_entries: Seq<DirEntry>,
) -> Set<(DataFileType, Seq<char>)> {
    model_keys(grammar_entries, DataFileType::Grammar).map(
        |k: Seq<char>| (DataFileType::Grammar, k),
    ) + model_keys(speller_entries, DataFileType::Spelling).map(
        |k: Seq<char>| (DataFileType::Spelling, k),
    ) + model_keys(hyphenation_entries, DataFileType::Hyphenation).map(
        |k: Seq<char>| (DataFileType::Hyphenation, k),
    )
}

/// The union of the grammar, speller and hyphenation listings is the
/// scanner's view of the disk.
pub proof fn lemma_listing_is_scanned_disk(
    grammar_entries: Seq<DirEntry>,
    speller_entries: Seq<DirEntry>,
    hyphenation_entries: Seq<DirEntry>,
    table: Seq<AutonymView>,
)
    ensures
        response_keys(
            languages_spec(grammar_entries, DataFileType::Grammar, table),
            languages_spec(speller_entries, DataFileType::Spelling, table),
            languages_spec(hyphenation_entries, DataFileType::Hyphenation, table),
        ) == scanned_keys(grammar_entries, speller_entries, hyphenation_entries),
{
    lemma_listing_keys_are_models(grammar_entries, DataFileType::Grammar, table);
    lemma_listing_keys_are_models(speller_entries, DataFileType::Spelling, table);
    lemma_listing_keys_are_models(hyphenation_entries, DataFileType::Hyphenation, table);
}

} // verus!
