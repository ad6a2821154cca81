//! The watcher's decisions: what each file system event on the model
//! directories means for the catalog of live workers, and why carrying those
//! decisions out keeps the catalog in step with the disk.
use vstd::prelude::*;

use crate::catalog::{keys_of, CatalogView, Loaded};
use crate::kind::DataFileType;
use crate::paths::{get_file_info, has_file_info, path_extension, path_stem};
use crate::text::str_eq;

verus! {

/// A debounced file system event on a path.
#[derive(Debug)]
pub enum WatchEvent {
    Create(String),
    Write(String),
    Remove(String),
    Other,
}

/// What the watcher does about an event.
#[derive(Debug)]
pub enum WatchPlan {
    /// Nothing: the path is no model file.
    Ignore,
    /// Load the model at `path` and bind it to `language`; `replace` where the
    /// file was rewritten, so that a worker may already serve the language.
    Install { kind: DataFileType, language: String, path: String, replace: bool },
    /// Unbind the worker of `language` and stop it.
    Uninstall { kind: DataFileType, language: String },
}

/// A model file on disk, by kind and language key.
pub type ModelKey = (DataFileType, Seq<char>);

/// The kind and language key of the model file at `path`, if it is one.
pub open spec fn classify(path: Seq<char>) -> Option<ModelKey> {
    if has_file_info(path) {
        match DataFileType::of_ext(path_extension(path)->0) {
            Some(k) => Some((k, path_stem(path)->0)),
            None => None,
        }
    } else {
        None
    }
}

/// Whether `plan` is what the watcher does about `event`.
pub open spec fn plan_matches(event: WatchEvent, plan: WatchPlan) -> bool {
    match event {
        WatchEvent::Create(p) => match classify(p@) {
            Some(m) => plan matches WatchPlan::Install { kind, language, path, replace } && kind
                == m.0 && language@ == m.1 && path@ == p@ && !replace,
            None => plan is Ignore,
        },
        WatchEvent::Write(p) => match classify(p@) {
            Some(m) => plan matches WatchPlan::Install { kind, language, path, replace } && kind
                == m.0 && language@ == m.1 && path@ == p@ && replace,
            None => plan is Ignore,
        },
        WatchEvent::Remove(p) => match classify(p@) {
            Some(m) => plan matches WatchPlan::Uninstall { kind, language } && kind == m.0
                && language@ == m.1,
            None => plan is Ignore,
        },
        WatchEvent::Other => plan is Ignore,
    }
}

/// Decides what to do about a file system event.
pub fn plan_event(event: &WatchEvent) -> (r: WatchPlan)
    ensures
        plan_matches(*event, r),
{
    let (path, op): (&String, u8) = match event {
        WatchEvent::Create(p) => (p, 0),
        WatchEvent::Write(p) => (p, 1),
        WatchEvent::Remove(p) => (p, 2),
        WatchEvent::Other => {
            return WatchPlan::Ignore;
        },
    };
    let info = match get_file_info(path.as_str()) {
        Some(info) => info,
        None => {
            return WatchPlan::Ignore;
        },
    };
    let kind = match DataFileType::from_ext(info.extension.as_str()) {
        Some(k) => k,
        None => {
            return WatchPlan::Ignore;
        },
    };
    if op == 2 {
        WatchPlan::Uninstall { kind, language: info.stem }
    } else {
        WatchPlan::Install { kind, language: info.stem, path: info.path, replace: op == 1 }
    }
}

/// Whether two events are the same event on the same path.
pub open spec fn same_event(a: WatchEvent, b: WatchEvent) -> bool {
    match (a, b) {
        (WatchEvent::Create(p), WatchEvent::Create(q)) => p@ == q@,
        (WatchEvent::Write(p), WatchEvent::Write(q)) => p@ == q@,
        (WatchEvent::Remove(p), WatchEvent::Remove(q)) => p@ == q@,
        (WatchEvent::Other, WatchEvent::Other) => true,
        _ => false,
    }
}

/// The events of a burst with each run of the same event kept once, in order.
pub open spec fn collapse_spec(events: Seq<WatchEvent>) -> Seq<WatchEvent>
    decreases events.len(),
{
    if events.len() == 0 {
        seq![]
    } else {
        let prev = collapse_spec(events.drop_last());
        if events.len() > 1 && same_event(events[events.len() - 2], events.last()) {
            prev
        } else {
            prev.push(events.last())
        }
    }
}

fn copy_event(e: &WatchEvent) -> (r: WatchEvent)
    ensures
        r == *e,
{
    match e {
        WatchEvent::Create(p) => WatchEvent::Create(p.clone()),
        WatchEvent::Write(p) => WatchEvent::Write(p.clone()),
        WatchEvent::Remove(p) => WatchEvent::Remove(p.clone()),
        WatchEvent::Other => WatchEvent::Other,
    }
}

fn event_eq(a: &WatchEvent, b: &WatchEvent) -> (r: bool)
    ensures
        r == same_event(*a, *b),
{
    match (a, b) {
        (WatchEvent::Create(p), WatchEvent::Create(q)) => str_eq(p.as_str(), q.as_str()),
        (WatchEvent::Write(p), WatchEvent::Write(q)) => str_eq(p.as_str(), q.as_str()),
        (WatchEvent::Remove(p), WatchEvent::Remove(q)) => str_eq(p.as_str(), q.as_str()),
        (WatchEvent::Other, WatchEvent::Other) => true,
        _ => false,
    }
}

/// Debounces a burst of events: a repeated event (a write after a write to
/// the same file) is delivered once; distinct events all stay, in order.
pub fn collapse_events(events: Vec<WatchEvent>) -> (r: Vec<WatchEvent>)
    ensures
        r@ == collapse_spec(events@),
{
    let mut r: Vec<WatchEvent> = Vec::new();
    let mut i: usize = 0;
    while i < events.len()
        invariant
            i <= events@.len(),
            r@ == collapse_spec(events@.take(i as int)),
        decreases events@.len() - i,
    {
        let ghost t = events@.take(i + 1);
        assert(t.drop_last() =~= events@.take(i as int));
        assert(t.last() == events@[i as int]);
        if i == 0 || !event_eq(&events[i - 1], &events[i]) {
            r.push(copy_event(&events[i]));
        }
        i = i + 1;
    }
    assert(events@.take(i as int) =~= events@);
    r
}

/// The disk after `event`: a created or written model is there, a removed one is not.
pub open spec fn disk_after(disk: Set<ModelKey>, event: WatchEvent) -> Set<ModelKey> {
    match event {
        WatchEvent::Create(p) => match classify(p@) {
            Some(m) => disk.insert(m),
            None => disk,
        },
        WatchEvent::Write(p) => match classify(p@) {
            Some(m) => disk.insert(m),
            None => disk,
        },
        WatchEvent::Remove(p) => match classify(p@) {
            Some(m) => disk.remove(m),
            None => disk,
        },
        WatchEvent::Other => disk,
    }
}

proof fn lemma_keys_of_insert<W>(kind: DataFileType, m: Map<Seq<char>, W>, l: Seq<char>, w: W)
    ensures
        keys_of(kind, m.insert(l, w)) == keys_of(kind, m).insert((kind, l)),
{
    let a = keys_of(kind, m.insert(l, w));
    let b = keys_of(kind, m).insert((kind, l));
    assert forall|x: ModelKey| a.contains(x) implies b.contains(x) by {
        let y = choose|y: Seq<char>| m.insert(l, w).dom().contains(y) && (kind, y) == x;
        if y != l {
            assert(m.dom().contains(y));
        }
    }
    assert forall|x: ModelKey| b.contains(x) implies a.contains(x) by {
        if x != (kind, l) {
            let y = choose|y: Seq<char>| m.dom().contains(y) && (kind, y) == x;
            assert(m.insert(l, w).dom().contains(y));
        } else {
            assert(m.insert(l, w).dom().contains(l));
        }
    }
    assert(a =~= b);
}

proof fn lemma_keys_of_remove<W>(kind: DataFileType, m: Map<Seq<char>, W>, l: Seq<char>)
    ensures
        keys_of(kind, m.remove(l)) == keys_of(kind, m).remove((kind, l)),
{
    let a = keys_of(kind, m.remove(l));
    let b = keys_of(kind, m).remove((kind, l));
    assert forall|x: ModelKey| a.contains(x) implies b.contains(x) by {
        let y = choose|y: Seq<char>| m.remove(l).dom().contains(y) && (kind, y) == x;
        assert(m.dom().contains(y));
    }
    assert forall|x: ModelKey| b.contains(x) implies a.contains(x) by {
        let y = choose|y: Seq<char>| m.dom().contains(y) && (kind, y) == x;
        assert(m.remove(l).dom().contains(y));
    }
    assert(a =~= b);
}

/// The registries follow the disk: where the bound models are those on disk
/// before an event, they are those on disk after it, once the watcher's plan
/// for the event is carried out with its model loaded.
pub proof fn lemma_catalog_follows_disk<G, S, H>(
    c: CatalogView<G, S, H>,
    disk: Set<ModelKey>,
    event: WatchEvent,
    plan: WatchPlan,
    loaded: Option<Loaded<G, S, H>>,
)
    requires
        c.keys() == disk,
        plan_matches(event, plan),
        plan matches WatchPlan::Install { kind, .. } ==> (loaded matches Some(l) && l.kind()
            == kind),
    ensures
        c.after(plan, loaded).keys() == disk_after(disk, event),
{
    let g = keys_of(DataFileType::Grammar, c.grammar);
    let sp = keys_of(DataFileType::Spelling, c.speller);
    let h = keys_of(DataFileType::Hyphenation, c.hyphenation);
    match plan {
        WatchPlan::Ignore => {},
        WatchPlan::Install { kind, language, .. } => {
            let l = language@;
            match loaded {
                Some(Loaded::Grammar(w, p)) => {
                    lemma_keys_of_insert(DataFileType::Grammar, c.grammar, l, w);
                    assert(c.after(plan, loaded).keys() =~= disk.insert((kind, l)));
                },
                Some(Loaded::Speller(w)) => {
                    lemma_keys_of_insert(DataFileType::Spelling, c.speller, l, w);
                    assert(c.after(plan, loaded).keys() =~= disk.insert((kind, l)));
                },
                Some(Loaded::Hyphenator(w)) => {
                    lemma_keys_of_insert(DataFileType::Hyphenation, c.hyphenation, l, w);
                    assert(c.after(plan, loaded).keys() =~= disk.insert((kind, l)));
                },
                None => {},
            }
        },
        WatchPlan::Uninstall { kind, language } => {
            let l = language@;
            lemma_keys_of_remove(DataFileType::Grammar, c.grammar, l);
            lemma_keys_of_remove(DataFileType::Spelling, c.speller, l);
            lemma_keys_of_remove(DataFileType::Hyphenation, c.hyphenation, l);
            assert(c.after(plan, loaded).keys() =~= disk.remove((kind, l)));
        },
    }
}

/// The disk after a sequence of events, in order.
pub open spec fn disk_after_all(disk: Set<ModelKey>, events: Seq<WatchEvent>) -> Set<ModelKey>
    decreases events.len(),
{
    if events.len() == 0 {
        disk
    } else {
        disk_after(disk_after_all(disk, events.drop_last()), events.last())
    }
}

/// The catalog after a sequence of plans, each with what was loaded for it.
pub open spec fn after_all<G, S, H>(
    c: CatalogView<G, S, H>,
    plans: Seq<WatchPlan>,
    loaded: Seq<Option<Loaded<G, S, H>>>,
) -> CatalogView<G, S, H>
    decreases plans.len(),
{
    if plans.len() == 0 || loaded.len() != plans.len() {
        c
    } else {
        after_all(c, plans.drop_last(), loaded.drop_last()).after(plans.last(), loaded.last())
    }
}

/// Whether each plan is the watcher's plan for its event, and each install
/// comes with a model of its kind that could be loaded.
pub open spec fn plans_carried_out<G, S, H>(
    events: Seq<WatchEvent>,
    plans: Seq<WatchPlan>,
    loaded: Seq<Option<Loaded<G, S, H>>>,
) -> bool {
    &&& plans.len() == events.len()
    &&& loaded.len() == events.len()
    &&& forall|i: int|
        0 <= i < events.len() ==> {
            &&& plan_matches(#[trigger] events[i], plans[i])
            &&& plans[i] matches WatchPlan::Install { kind, .. } ==> (loaded[i] matches Some(l)
                && l.kind() == kind)
        }
}

/// The registries follow the disk over any run of events, start-up's scan
/// (one creation per model found) included: where each event's plan is
/// carried out with its model loaded, the bound models are those on disk.
pub proof fn lemma_catalog_follows_disk_over_events<G, S, H>(
    c: CatalogView<G, S, H>,
    disk: Set<ModelKey>,
    events: Seq<WatchEvent>,
    plans: Seq<WatchPlan>,
    loaded: Seq<Option<Loaded<G, S, H>>>,
)
    requires
        c.keys() == disk,
        plans_carried_out(events, plans, loaded),
    ensures
        after_all(c, plans, loaded).keys() == disk_after_all(disk, events),
    decreases events.len(),
{
    if events.len() > 0 {
        let n = events.len() - 1;
        assert(plans_carried_out(events.drop_last(), plans.drop_last(), loaded.drop_last())) by {
            assert forall|i: int| 0 <= i < n implies {
                &&& plan_matches(#[trigger] events.drop_last()[i], plans.drop_last()[i])
                &&& plans.drop_last()[i] matches WatchPlan::Install { kind, .. } ==> (
                loaded.drop_last()[i] matches Some(l) && l.kind() == kind)
            } by {
                assert(plan_matches(events[i], plans[i]));
            }
        }
        lemma_catalog_follows_disk_over_events(
            c,
            disk,
            events.drop_last(),
            plans.drop_last(),
            loaded.drop_last(),
        );
        assert(plan_matches(events[n], plans[n]));
        lemma_catalog_follows_disk(
            after_all(c, plans.drop_last(), loaded.drop_last()),
            disk_after_all(disk, events.drop_last()),
            events.last(),
            plans.last(),
            loaded.last(),
        );
    }
}

} // verus!
