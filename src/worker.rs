//! What a worker decides on its own: the request line sent to a grammar
//! checker, the reading of a hyphenator's output, whether a failed worker is
//! restarted, and which worker serves a request.
use vstd::prelude::*;

use crate::error::{empty_text_message, no_worker_message, ApiError};
use crate::kind::DataFileType;
use crate::registry::Registry;
use crate::text::{lines_of, lines_spec, split_char, split_spec, trim, trim_spec, views};

verus! {

/// Rejects a request without text.
pub fn check_text(text: &str) -> (r: Result<(), ApiError>)
    ensures
        r is Ok <==> text@.len() > 0,
        r matches Err(e) ==> e.message@ == empty_text_message(),
{
    if text.unicode_len() == 0 {
        Err(ApiError::empty_text())
    } else {
        Ok(())
    }
}

/// The line sent to a grammar checker for `text`: its first line and a newline.
pub open spec fn request_line_spec(text: Seq<char>) -> Seq<char> {
    split_spec(text, '\n')[0] + "\n"@
}

/// The line that a grammar checker is sent for `text`; an error where the text is empty.
pub fn grammar_request_line(text: &str) -> (r: Result<String, ApiError>)
    ensures
        r is Ok <==> text@.len() > 0,
        r matches Ok(line) ==> line@ == request_line_spec(text@),
        r matches Err(e) ==> e.message@ == empty_text_message(),
{
    check_text(text)?;
    let pieces = split_char(text, '\n');
    let first = pieces[0].clone();
    assert(views(pieces@)[0] == pieces@[0]@);
    Ok(first.concat("\n"))
}

/// One hyphenation of a word and its weight, as the hyphenator printed them.
#[derive(Debug)]
pub struct HyphenationPattern {
    pub value: String,
    pub weight: String,
}

/// The hyphenations of one word.
#[derive(Debug)]
pub struct HyphenationResult {
    pub word: String,
    pub patterns: Vec<HyphenationPattern>,
}

/// The hyphenations of each word of a text.
#[derive(Debug)]
pub struct HyphenationResponse {
    pub text: String,
    pub results: Vec<HyphenationResult>,
}

/// The lines of a hyphenator's output, white space trimmed from its ends.
pub open spec fn output_lines(output: Seq<char>) -> Seq<Seq<char>> {
    lines_spec(trim_spec(output))
}

/// Whether every line of the output has at least the three columns
/// `input`, `analysis` and `weight`.
pub open spec fn output_well_formed(output: Seq<char>) -> bool {
    forall|i: int|
        0 <= i < output_lines(output).len() ==> split_spec(#[trigger] output_lines(output)[i], '\t').len()
            >= 3
}

/// The analysis and weight of each line of the output.
pub open spec fn patterns_spec(output: Seq<char>) -> Seq<(Seq<char>, Seq<char>)> {
    output_lines(output).map_values(
        |l: Seq<char>| (split_spec(l, '\t')[1], split_spec(l, '\t')[2]),
    )
}

pub open spec fn pattern_views(v: Seq<HyphenationPattern>) -> Seq<(Seq<char>, Seq<char>)> {
    v.map_values(|p: HyphenationPattern| (p.value@, p.weight@))
}

/// The message for hyphenator output with too few columns.
pub open spec fn column_count_message() -> Seq<char> {
    "hfst-lookup returned an unexpected number of tokens per word"@
}

/// Reads the output of the hyphenator for one word: one pattern per line,
/// or a protocol error where a line has fewer than three columns.
pub fn parse_hyphenation_output(output: &str) -> (r: Result<Vec<HyphenationPattern>, ApiError>)
    ensures
        r is Ok <==> output_well_formed(output@),
        r matches Ok(v) ==> pattern_views(v@) == patterns_spec(output@),
        r matches Err(e) ==> e.message@ == column_count_message(),
{
    let trimmed = trim(output);
    let lines = lines_of(trimmed.as_str());
    let ghost ls = output_lines(output@);
    let mut r: Vec<HyphenationPattern> = Vec::new();
    let mut i: usize = 0;
    while i < lines.len()
        invariant
            ls == views(lines@),
            ls == output_lines(output@),
            i <= lines@.len(),
            forall|j: int| 0 <= j < i ==> split_spec(#[trigger] ls[j], '\t').len() >= 3,
            pattern_views(r@) == patterns_spec(output@).take(i as int),
        decreases lines@.len() - i,
    {
        let columns = split_char(lines[i].as_str(), '\t');
        assert(ls[i as int] == lines@[i as int]@);
        if columns.len() < 3 {
            return Err(
                ApiError::new(
                    String::from_str("hfst-lookup returned an unexpected number of tokens per word"),
                ),
            );
        }
        let p = HyphenationPattern { value: columns[1].clone(), weight: columns[2].clone() };
        proof {
            let ps = patterns_spec(output@);
            assert(views(columns@)[1] == columns@[1]@);
            assert(views(columns@)[2] == columns@[2]@);
            assert(ps[i as int] == (p.value@, p.weight@));
            assert(ps.take(i + 1) =~= ps.take(i as int).push(ps[i as int]));
            assert(pattern_views(r@.push(p)) =~= pattern_views(r@).push((p.value@, p.weight@)));
        }
        r.push(p);
        i = i + 1;
    }
    assert(patterns_spec(output@).take(i as int) =~= patterns_spec(output@));
    Ok(r)
}

/// The hyphenations of `word` read from the hyphenator's output for it.
pub fn hyphenation_result(word: &str, output: &str) -> (r: Result<HyphenationResult, ApiError>)
    ensures
        r is Ok <==> output_well_formed(output@),
        r matches Ok(res) ==> res.word@ == word@ && pattern_views(res.patterns@) == patterns_spec(
            output@,
        ),
        r matches Err(e) ==> e.message@ == column_count_message(),
{
    let patterns = parse_hyphenation_output(output)?;
    Ok(HyphenationResult { word: String::from_str(word), patterns })
}

/// What a supervisor does with a worker that failed.
#[derive(Clone, Copy, Debug, PartialEq, Eq, Structural)]
pub enum RestartAction {
    /// Kill and reap the old child, and start a new one on the same model file.
    Respawn,
    /// Leave the worker down: it was stopped on purpose.
    StayDown,
}

/// The supervision state of one worker: whether it was stopped on purpose.
#[derive(Clone, Copy, Debug, PartialEq, Eq, Structural)]
pub struct Supervision {
    pub terminated: bool,
}

impl Supervision {
    /// A running worker.
    pub fn new() -> (r: Supervision)
        ensures
            !r.terminated,
    {
        Supervision { terminated: false }
    }

    /// Marks the worker as stopped on purpose; stopping twice is stopping once.
    pub fn stop(&mut self)
        ensures
            final(self).terminated,
    {
        self.terminated = true;
    }

    /// What to do when the worker failed: restart it unless it was stopped.
    pub fn on_failure(&self) -> (r: RestartAction)
        ensures
            r == (if self.terminated {
                RestartAction::StayDown
            } else {
                RestartAction::Respawn
            }),
    {
        if self.terminated {
            RestartAction::StayDown
        } else {
            RestartAction::Respawn
        }
    }
}

/// The worker of `kind` that serves `language`, or the error that none does.
pub fn select_worker<'a, W>(registry: &'a Registry<W>, kind: DataFileType, language: &str) -> (r:
    Result<&'a W, ApiError>)
    requires
        registry.wf(),
    ensures
        r is Ok <==> registry@.contains_key(language@),
        r matches Ok(w) ==> *w == registry@[language@],
        r matches Err(e) ==> e.message@ == no_worker_message(kind, language@),
{
    match registry.get(language) {
        Some(w) => Ok(w),
        None => Err(ApiError::no_worker(kind, language)),
    }
}

} // verus!
