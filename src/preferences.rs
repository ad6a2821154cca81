//! The preferences of a grammar checker: the toggle list that its tool prints,
//! read into a map from error tag to description.
use vstd::prelude::*;

use crate::registry::Registry;
use crate::text::{lines_of, lines_spec, str_eq, views};

verus! {

/// The line that opens the toggle list; the tool prints it twice.
pub const TOGGLE_SEPARATOR: &'static str = "==== Toggles: ====";

/// The shape of a toggle line: a tag and a description.
pub const TOGGLE_PATTERN: &'static str = r"- \[.\] (\S+)\s+(.+)$";

/// The toggle tag that is not listed.
pub const REGEX_TAG: &'static str = "[regex]";

/// The first two groups of the first match of the regular expression
/// `pattern` in `line`, as the `regex` crate finds them.
pub uninterp spec fn regex_pair(pattern: Seq<char>, line: Seq<char>) -> Option<(Seq<char>, Seq<char>)>;

/// Relies on `regex::Regex::new` and `Regex::captures`, which together are one
/// search: the first match of `pattern` in `line` and its groups 1 and 2.
/// `None` where the pattern does not compile, nothing matches, or a group
/// took no part in the match.
#[verifier::external_body]
fn capture_pair(pattern: &str, line: &str) -> (r: Option<(String, String)>)
    ensures
        r matches Some(p) ==> regex_pair(pattern@, line@) == Some((p.0@, p.1@)),
        r is None ==> regex_pair(pattern@, line@) is None,
{
    let re = regex::Regex::new(pattern).ok()?;
    let c = re.captures(line)?;
    Some((c.get(1)?.as_str().to_string(), c.get(2)?.as_str().to_string()))
}

/// The index of the first separator line at or after `i`, or the number of lines.
pub open spec fn separator_from(lines: Seq<Seq<char>>, i: int) -> int
    decreases lines.len() - i,
{
    if i >= lines.len() {
        lines.len() as int
    } else if lines[i] == TOGGLE_SEPARATOR@ {
        i
    } else {
        separator_from(lines, i + 1)
    }
}

/// The index of the first toggle line: the one after the second separator.
pub open spec fn toggles_start(lines: Seq<Seq<char>>) -> int {
    separator_from(lines, separator_from(lines, 0) + 1) + 1
}

/// The toggles of the lines from `i` on, added to `acc`: up to the first line
/// that is no toggle, with the tag `[regex]` left out and a later tag winning.
pub open spec fn toggles_from(lines: Seq<Seq<char>>, i: int, acc: Map<Seq<char>, Seq<char>>) -> Map<
    Seq<char>,
    Seq<char>,
>
    decreases lines.len() - i,
{
    if i < 0 || i >= lines.len() {
        acc
    } else {
        match regex_pair(TOGGLE_PATTERN@, lines[i]) {
            None => acc,
            Some(p) => toggles_from(
                lines,
                i + 1,
                if p.0 == REGEX_TAG@ {
                    acc
                } else {
                    acc.insert(p.0, p.1)
                },
            ),
        }
    }
}

/// The preferences that the tool's output `output` lists.
pub open spec fn preferences_spec(output: Seq<char>) -> Map<Seq<char>, Seq<char>> {
    let lines = lines_spec(output);
    toggles_from(lines, toggles_start(lines), Map::empty())
}

/// The descriptions of a preference set, as character sequences.
pub open spec fn description_views(m: Map<Seq<char>, String>) -> Map<Seq<char>, Seq<char>> {
    m.map_values(|s: String| s@)
}

fn find_separator(lines: &Vec<String>, start: usize) -> (r: usize)
    ensures
        r == separator_from(views(lines@), start as int),
        r <= lines@.len(),
    decreases lines@.len() - start,
{
    if start >= lines.len() {
        lines.len()
    } else if str_eq(lines[start].as_str(), TOGGLE_SEPARATOR) {
        start
    } else {
        find_separator(lines, start + 1)
    }
}

/// Reads the preferences of a grammar checker from what its tool printed.
pub fn parse_preferences(output: &str) -> (r: Registry<String>)
    ensures
        r.wf(),
        description_views(r@) == preferences_spec(output@),
{
    let lines = lines_of(output);
    let ghost ls = views(lines@);
    let mut prefs: Registry<String> = Registry::new();
    assert(description_views(prefs@) =~= Map::<Seq<char>, Seq<char>>::empty());
    let first = find_separator(&lines, 0);
    if first >= lines.len() {
        return prefs;
    }
    let second = find_separator(&lines, first + 1);
    if second >= lines.len() {
        return prefs;
    }
    let mut i: usize = second + 1;
    let mut listing = true;
    while listing && i < lines.len()
        invariant
            !listing ==> toggles_from(ls, i as int, description_views(prefs@)) == description_views(
                prefs@,
            ),
            ls == views(lines@),
            ls == lines_spec(output@),
            prefs.wf(),
            toggles_from(ls, i as int, description_views(prefs@)) == preferences_spec(output@),
        decreases lines@.len() - i + (if listing { 1int } else { 0int }),
    {
        match capture_pair(TOGGLE_PATTERN, lines[i].as_str()) {
            None => {
                assert(toggles_from(ls, i as int, description_views(prefs@)) == description_views(
                    prefs@,
                ));
                listing = false;
            },
            Some((tag, description)) => {
                if !str_eq(tag.as_str(), REGEX_TAG) {
                    let ghost before = prefs@;
                    let ghost t = tag@;
                    let ghost d = description@;
                    prefs.insert(tag, description);
                    assert(description_views(prefs@) =~= description_views(before).insert(t, d));
                }
                i = i + 1;
            },
        }
    }
    assert(toggles_from(ls, i as int, description_views(prefs@)) == description_views(prefs@));
    prefs
}

} // verus!
