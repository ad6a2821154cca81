//! Character-level helpers over `str`: equality, splitting, lines and trimming.
use vstd::prelude::*;

verus! {

/// The characters of `s`, in order.
pub fn chars_of(s: &str) -> (r: Vec<char>)
    ensures
        r@ == s@,
{
    let mut r: Vec<char> = Vec::new();
    for c in it: s.chars()
        invariant
            r@ == it.seq().take(it.index()),
            it.seq() == s@,
    {
        r.push(c);
        proof {
            if it.index() + 1 == s@.len() {
                assert(r@ =~= s@);
            }
        }
    }
    r
}

/// Whether two strings hold the same characters.
pub fn str_eq(a: &str, b: &str) -> (r: bool)
    ensures
        r == (a@ == b@),
{
    let x = String::from_str(a);
    let y = String::from_str(b);
    x == y
}

/// The views of a sequence of strings.
pub open spec fn views(v: Seq<String>) -> Seq<Seq<char>> {
    v.map_values(|s: String| s@)
}

/// The pieces of `s` between occurrences of `sep`, scanning from `i` with the
/// current piece starting at `start` and the pieces found so far in `acc`.
pub open spec fn split_from(s: Seq<char>, sep: char, start: int, i: int, acc: Seq<Seq<char>>) -> Seq<
    Seq<char>,
>
    decreases s.len() - i,
{
    if i >= s.len() {
        acc.push(s.subrange(start, s.len() as int))
    } else if s[i] == sep {
        split_from(s, sep, i + 1, i + 1, acc.push(s.subrange(start, i)))
    } else {
        split_from(s, sep, start, i + 1, acc)
    }
}

/// The pieces of `s` between occurrences of `sep`, empty pieces included:
/// there is always one more piece than there are separators.
pub open spec fn split_spec(s: Seq<char>, sep: char) -> Seq<Seq<char>> {
    split_from(s, sep, 0, 0, seq![])
}

/// `s` without one final carriage return.
pub open spec fn strip_cr(s: Seq<char>) -> Seq<char> {
    if s.len() > 0 && s.last() == '\r' {
        s.drop_last()
    } else {
        s
    }
}

/// The lines of `s`: the pieces between newlines, each stripped of the
/// carriage return of a `\r\n` ending; a final line ending adds no empty line.
pub open spec fn lines_spec(s: Seq<char>) -> Seq<Seq<char>> {
    let p = split_spec(s, '\n');
    let ended = p.drop_last().map_values(|l: Seq<char>| strip_cr(l));
    if p.last().len() == 0 {
        ended
    } else {
        ended.push(p.last())
    }
}

proof fn lemma_split_nonempty(s: Seq<char>, sep: char, start: int, i: int, acc: Seq<Seq<char>>)
    requires
        0 <= start <= i <= s.len(),
    ensures
        split_from(s, sep, start, i, acc).len() > acc.len(),
        split_from(s, sep, start, i, acc).subrange(0, acc.len() as int) == acc,
    decreases s.len() - i,
{
    if i >= s.len() {
        assert(acc.push(s.subrange(start, s.len() as int)).subrange(0, acc.len() as int) =~= acc);
    } else if s[i] == sep {
        let acc2 = acc.push(s.subrange(start, i));
        lemma_split_nonempty(s, sep, i + 1, i + 1, acc2);
        assert(split_from(s, sep, i + 1, i + 1, acc2).subrange(0, acc.len() as int) =~= acc2.subrange(
            0,
            acc.len() as int,
        ));
        assert(acc2.subrange(0, acc.len() as int) =~= acc);
    } else {
        lemma_split_nonempty(s, sep, start, i + 1, acc);
    }
}

/// Splits `s` at every occurrence of `sep`.
pub fn split_char(s: &str, sep: char) -> (r: Vec<String>)
    ensures
        views(r@) == split_spec(s@, sep),
        r@.len() >= 1,
{
    let cs = chars_of(s);
    let n = cs.len();
    let mut r: Vec<String> = Vec::new();
    let mut start: usize = 0;
    let mut i: usize = 0;
    assert(views(r@) =~= seq![]);
    while i < n
        invariant
            cs@ == s@,
            n == cs@.len(),
            start <= i <= n,
            split_from(s@, sep, start as int, i as int, views(r@)) == split_spec(s@, sep),
        decreases n - i,
    {
        if cs[i] == sep {
            let piece = String::from_str(s.substring_char(start, i));
            proof {
                assert(views(r@.push(piece)) =~= views(r@).push(s@.subrange(start as int, i as int)));
            }
            r.push(piece);
            start = i + 1;
        }
        i = i + 1;
    }
    let piece = String::from_str(s.substring_char(start, n));
    proof {
        assert(views(r@.push(piece)) =~= views(r@).push(s@.subrange(start as int, n as int)));
    }
    r.push(piece);
    proof {
        lemma_split_nonempty(s@, sep, 0, 0, seq![]);
    }
    r
}

/// The lines of `s`, as `str::lines` gives them.
pub fn lines_of(s: &str) -> (r: Vec<String>)
    ensures
        views(r@) == lines_spec(s@),
{
    let p = split_char(s, '\n');
    let ghost pv = split_spec(s@, '\n');
    let last = p.len() - 1;
    let mut r: Vec<String> = Vec::new();
    let mut i: usize = 0;
    while i < last
        invariant
            views(p@) == pv,
            last == p@.len() - 1,
            i <= last,
            views(r@) == pv.drop_last().map_values(|l: Seq<char>| strip_cr(l)).take(i as int),
        decreases last - i,
    {
        let line = p[i].as_str();
        let len = line.unicode_len();
        let piece = if len > 0 && line.get_char(len - 1) == '\r' {
            String::from_str(line.substring_char(0, len - 1))
        } else {
            String::from_str(line)
        };
        proof {
            assert(pv[i as int] == p@[i as int]@);
            assert(piece@ =~= strip_cr(pv[i as int]));
            let m = pv.drop_last().map_values(|l: Seq<char>| strip_cr(l));
            assert(m[i as int] == strip_cr(pv[i as int]));
            assert(m.take(i + 1) =~= m.take(i as int).push(m[i as int]));
            assert(views(r@.push(piece)) =~= views(r@).push(piece@));
            assert(views(r@.push(piece)) =~= pv.drop_last().map_values(|l: Seq<char>| strip_cr(l)).take(
                i + 1,
            ));
        }
        r.push(piece);
        i = i + 1;
    }
    proof {
        assert(views(r@) =~= pv.drop_last().map_values(|l: Seq<char>| strip_cr(l)));
        assert(pv.last() == p@[last as int]@);
    }
    if p[last].unicode_len() > 0 {
        let piece = p[last].clone();
        proof {
            assert(views(r@.push(piece)) =~= views(r@).push(pv.last()));
        }
        r.push(piece);
    }
    r
}

/// Unicode's White_Space property, which `char::is_whitespace` tests.
pub open spec fn is_white_space(c: char) -> bool {
    ('\u{9}' <= c && c <= '\u{d}') || c == ' ' || c == '\u{85}' || c == '\u{a0}' || c == '\u{1680}'
        || ('\u{2000}' <= c && c <= '\u{200a}') || c == '\u{2028}' || c == '\u{2029}' || c
        == '\u{202f}' || c == '\u{205f}' || c == '\u{3000}'
}

pub fn is_white_space_char(c: char) -> (r: bool)
    ensures
        r == is_white_space(c),
{
    ('\u{9}' <= c && c <= '\u{d}') || c == ' ' || c == '\u{85}' || c == '\u{a0}' || c == '\u{1680}'
        || ('\u{2000}' <= c && c <= '\u{200a}') || c == '\u{2028}' || c == '\u{2029}' || c
        == '\u{202f}' || c == '\u{205f}' || c == '\u{3000}'
}

/// `s` without its leading white space.
pub open spec fn trim_start_spec(s: Seq<char>) -> Seq<char>
    decreases s.len(),
{
    if s.len() > 0 && is_white_space(s[0]) {
        trim_start_spec(s.drop_first())
    } else {
        s
    }
}

/// `s` without its trailing white space.
pub open spec fn trim_end_spec(s: Seq<char>) -> Seq<char>
    decreases s.len(),
{
    if s.len() > 0 && is_white_space(s.last()) {
        trim_end_spec(s.drop_last())
    } else {
        s
    }
}

/// `s` without leading and trailing white space, as `str::trim` gives it.
pub open spec fn trim_spec(s: Seq<char>) -> Seq<char> {
    trim_end_spec(trim_start_spec(s))
}

/// `s` without leading and trailing white space.
pub fn trim(s: &str) -> (r: String)
    ensures
        r@ == trim_spec(s@),
{
    let cs = chars_of(s);
    let n = cs.len();
    let mut i: usize = 0;
    assert(s@.subrange(0, n as int) =~= s@);
    while i < n && is_white_space_char(cs[i])
        invariant
            cs@ == s@,
            n == cs@.len(),
            i <= n,
            trim_start_spec(s@.subrange(i as int, n as int)) == trim_start_spec(s@),
        decreases n - i,
    {
        assert(s@.subrange(i as int, n as int).drop_first() =~= s@.subrange(i + 1, n as int));
        i = i + 1;
    }
    let mut j: usize = n;
    proof {
        if i < n {
            assert(!is_white_space(s@.subrange(i as int, n as int)[0]));
        }
    }
    assert(trim_start_spec(s@) == s@.subrange(i as int, n as int));
    while j > i && is_white_space_char(cs[j - 1])
        invariant
            cs@ == s@,
            n == cs@.len(),
            i <= j <= n,
            trim_end_spec(s@.subrange(i as int, j as int)) == trim_spec(s@),
        decreases j - i,
    {
        assert(s@.subrange(i as int, j as int).drop_last() =~= s@.subrange(i as int, j - 1));
        j = j - 1;
    }
    proof {
        if i < j {
            assert(s@.subrange(i as int, j as int).last() == s@[j - 1]);
        }
    }
    String::from_str(s.substring_char(i, j))
}

} // verus!
