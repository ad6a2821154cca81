//! The catalog of live workers: one registry per analyzer kind, and the
//! preference sets of the grammar checkers, bound to the same languages.
use vstd::prelude::*;

use crate::kind::DataFileType;
use crate::registry::Registry;
use crate::watcher::{ModelKey, WatchPlan};

verus! {

/// A loaded model, ready to be bound: a worker, and for a grammar checker its preferences.
pub enum Loaded<G, S, H> {
    Grammar(G, Registry<String>),
    Speller(S),
    Hyphenator(H),
}

impl<G, S, H> Loaded<G, S, H> {
    pub open spec fn kind(self) -> DataFileType {
        match self {
            Loaded::Grammar(..) => DataFileType::Grammar,
            Loaded::Speller(..) => DataFileType::Spelling,
            Loaded::Hyphenator(..) => DataFileType::Hyphenation,
        }
    }
}

/// The live workers of every kind, and the preferences of each grammar checker.
pub struct Catalog<G, S, H> {
    grammar: Registry<G>,
    speller: Registry<S>,
    hyphenation: Registry<H>,
    preferences: Registry<Registry<String>>,
}

/// The model keys of the languages that a map binds, for one kind.
pub open spec fn keys_of<W>(kind: DataFileType, m: Map<Seq<char>, W>) -> Set<ModelKey> {
    m.dom().map(|l: Seq<char>| (kind, l))
}

/// What a catalog binds: a map from language to worker for each kind, and
/// one from language to preference set for the grammar checkers.
pub struct CatalogView<G, S, H> {
    pub grammar: Map<Seq<char>, G>,
    pub speller: Map<Seq<char>, S>,
    pub hyphenation: Map<Seq<char>, H>,
    pub preferences: Map<Seq<char>, Registry<String>>,
}

impl<G, S, H> CatalogView<G, S, H> {
    /// The bound models, by kind and language.
    pub open spec fn keys(self) -> Set<ModelKey> {
        keys_of(DataFileType::Grammar, self.grammar) + keys_of(DataFileType::Spelling, self.speller)
            + keys_of(DataFileType::Hyphenation, self.hyphenation)
    }

    /// The catalog with `loaded` bound to `language`, in place of what was bound there.
    pub open spec fn install(self, language: Seq<char>, loaded: Loaded<G, S, H>) -> Self {
        match loaded {
            Loaded::Grammar(g, p) => CatalogView {
                grammar: self.grammar.insert(language, g),
                preferences: self.preferences.insert(language, p),
                ..self
            },
            Loaded::Speller(w) => CatalogView { speller: self.speller.insert(language, w), ..self },
            Loaded::Hyphenator(w) => CatalogView {
                hyphenation: self.hyphenation.insert(language, w),
                ..self
            },
        }
    }

    /// The catalog with nothing of `kind` bound to `language`.
    pub open spec fn uninstall(self, kind: DataFileType, language: Seq<char>) -> Self {
        match kind {
            DataFileType::Grammar => CatalogView {
                grammar: self.grammar.remove(language),
                preferences: self.preferences.remove(language),
                ..self
            },
            DataFileType::Spelling => CatalogView { speller: self.speller.remove(language), ..self },
            DataFileType::Hyphenation => CatalogView {
                hyphenation: self.hyphenation.remove(language),
                ..self
            },
        }
    }

    /// Whether something of `kind` is bound to `language`.
    pub open spec fn binds(self, kind: DataFileType, language: Seq<char>) -> bool {
        match kind {
            DataFileType::Grammar => self.grammar.contains_key(language),
            DataFileType::Spelling => self.speller.contains_key(language),
            DataFileType::Hyphenation => self.hyphenation.contains_key(language),
        }
    }

    /// What of `kind` is bound to `language`, taken as a loaded model.
    pub open spec fn bound(self, kind: DataFileType, language: Seq<char>) -> Option<
        Loaded<G, S, H>,
    > {
        if !self.binds(kind, language) {
            None
        } else {
            match kind {
                DataFileType::Grammar => Some(
                    Loaded::Grammar(self.grammar[language], self.preferences[language]),
                ),
                DataFileType::Spelling => Some(Loaded::Speller(self.speller[language])),
                DataFileType::Hyphenation => Some(Loaded::Hyphenator(self.hyphenation[language])),
            }
        }
    }

    /// The catalog after `plan`, where `loaded` is what was loaded for an install.
    pub open spec fn after(self, plan: WatchPlan, loaded: Option<Loaded<G, S, H>>) -> Self {
        match plan {
            WatchPlan::Ignore => self,
            WatchPlan::Install { language, .. } => match loaded {
                Some(l) => self.install(language@, l),
                None => self,
            },
            WatchPlan::Uninstall { kind, language } => self.uninstall(kind, language@),
        }
    }
}

impl<G, S, H> View for Catalog<G, S, H> {
    type V = CatalogView<G, S, H>;

    closed spec fn view(&self) -> CatalogView<G, S, H> {
        CatalogView {
            grammar: self.grammar@,
            speller: self.speller@,
            hyphenation: self.hyphenation@,
            preferences: self.preferences@,
        }
    }
}

impl<G, S, H> Catalog<G, S, H> {
    /// Each registry is well formed, and the grammar checkers and the
    /// preference sets are bound to the same languages.
    pub closed spec fn wf(&self) -> bool {
        &&& self.grammar.wf()
        &&& self.speller.wf()
        &&& self.hyphenation.wf()
        &&& self.preferences.wf()
        &&& self.grammar@.dom() == self.preferences@.dom()
    }

    /// A catalog with no workers.
    pub fn new() -> (r: Catalog<G, S, H>)
        ensures
            r.wf(),
            r@.keys() == Set::<ModelKey>::empty(),
    {
        let r = Catalog {
            grammar: Registry::new(),
            speller: Registry::new(),
            hyphenation: Registry::new(),
            preferences: Registry::new(),
        };
        assert(r@.keys() =~= Set::<ModelKey>::empty());
        r
    }

    pub fn grammar(&self) -> (r: &Registry<G>)
        requires
            self.wf(),
        ensures
            r.wf(),
            r@ == self@.grammar,
    {
        &self.grammar
    }

    pub fn speller(&self) -> (r: &Registry<S>)
        requires
            self.wf(),
        ensures
            r.wf(),
            r@ == self@.speller,
    {
        &self.speller
    }

    pub fn hyphenation(&self) -> (r: &Registry<H>)
        requires
            self.wf(),
        ensures
            r.wf(),
            r@ == self@.hyphenation,
    {
        &self.hyphenation
    }

    pub fn preferences(&self) -> (r: &Registry<Registry<String>>)
        requires
            self.wf(),
        ensures
            r.wf(),
            r@ == self@.preferences,
    {
        &self.preferences
    }

    /// Binds `loaded` to `language`, and hands back what it replaces, to be stopped.
    pub fn install(&mut self, language: String, loaded: Loaded<G, S, H>) -> (r: Option<
        Loaded<G, S, H>,
    >)
        requires
            old(self).wf(),
        ensures
            final(self).wf(),
            final(self)@ == old(self)@.install(language@, loaded),
            r == old(self)@.bound(loaded.kind(), language@),
    {
        let ghost l = language@;
        match loaded {
            Loaded::Grammar(g, p) => {
                let lang2 = language.clone();
                let old_g = self.grammar.insert(language, g);
                let old_p = self.preferences.insert(lang2, p);
                assert(self.grammar@.dom() =~= self.preferences@.dom());
                match (old_g, old_p) {
                    (Some(og), Some(op)) => Some(Loaded::Grammar(og, op)),
                    _ => None,
                }
            },
            Loaded::Speller(w) => match self.speller.insert(language, w) {
                Some(o) => Some(Loaded::Speller(o)),
                None => None,
            },
            Loaded::Hyphenator(w) => match self.hyphenation.insert(language, w) {
                Some(o) => Some(Loaded::Hyphenator(o)),
                None => None,
            },
        }
    }

    /// Unbinds what of `kind` serves `language`, and hands it back, to be stopped.
    pub fn uninstall(&mut self, kind: DataFileType, language: &str) -> (r: Option<Loaded<G, S, H>>)
        requires
            old(self).wf(),
        ensures
            final(self).wf(),
            final(self)@ == old(self)@.uninstall(kind, language@),
            r == old(self)@.bound(kind, language@),
    {
        match kind {
            DataFileType::Grammar => {
                let old_g = self.grammar.remove(language);
                let old_p = self.preferences.remove(language);
                assert(self.grammar@.dom() =~= self.preferences@.dom());
                match (old_g, old_p) {
                    (Some(og), Some(op)) => Some(Loaded::Grammar(og, op)),
                    _ => None,
                }
            },
            DataFileType::Spelling => match self.speller.remove(language) {
                Some(o) => Some(Loaded::Speller(o)),
                None => None,
            },
            DataFileType::Hyphenation => match self.hyphenation.remove(language) {
                Some(o) => Some(Loaded::Hyphenator(o)),
                None => None,
            },
        }
    }

    /// Carries out `plan`. For an install, `loaded` is what was loaded from
    /// the plan's path, or `None` where loading failed: the file is then
    /// ignored and what was bound stays. Hands back what was unbound, to be stopped.
    pub fn apply(&mut self, plan: WatchPlan, loaded: Option<Loaded<G, S, H>>) -> (r: Option<
        Loaded<G, S, H>,
    >)
        requires
            old(self).wf(),
            plan matches WatchPlan::Install { kind, .. } ==> (loaded matches Some(l) ==> l.kind()
                == kind),
        ensures
            final(self).wf(),
            final(self)@ == old(self)@.after(plan, loaded),
            r == match plan {
                WatchPlan::Install { kind, language, .. } => if loaded is Some {
                    old(self)@.bound(kind, language@)
                } else {
                    None
                },
                WatchPlan::Uninstall { kind, language } => old(self)@.bound(kind, language@),
                WatchPlan::Ignore => None,
            },
    {
        match plan {
            WatchPlan::Ignore => None,
            WatchPlan::Install { language, .. } => match loaded {
                Some(l) => self.install(language, l),
                None => None,
            },
            WatchPlan::Uninstall { kind, language } => self.uninstall(kind, language.as_str()),
        }
    }
}

/// The grammar checkers and the preference sets are bound to the same
/// languages, in every catalog that the library hands out.
pub proof fn lemma_grammar_keys_match_preferences<G, S, H>(c: &Catalog<G, S, H>)
    requires
        c.wf(),
    ensures
        c@.grammar.dom() == c@.preferences.dom(),
{
}

/// Unbinding a language and binding it again leaves the newly loaded worker
/// in place, and the unbinding handed back the old one for stopping.
pub proof fn lemma_reinstall_binds_new_worker<G, S, H>(
    c: CatalogView<G, S, H>,
    language: Seq<char>,
    loaded: Loaded<G, S, H>,
)
    ensures
        c.uninstall(loaded.kind(), language).bound(loaded.kind(), language) is None,
        c.uninstall(loaded.kind(), language).install(language, loaded).bound(loaded.kind(), language)
            == Some(loaded),
{
}

} // verus!
