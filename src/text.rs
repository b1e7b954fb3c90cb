//! Text handling for what `git` prints: whitespace trimming and line splitting.
use vstd::prelude::*;

verus! {

/// Unicode's `White_Space` property, the whitespace that `str::trim` removes.
pub open spec fn is_white(c: char) -> bool {
    ('\u{9}' <= c && c <= '\u{d}') || c == ' ' || c == '\u{85}' || c == '\u{a0}'
        || c == '\u{1680}' || ('\u{2000}' <= c && c <= '\u{200a}') || c == '\u{2028}'
        || c == '\u{2029}' || c == '\u{202f}' || c == '\u{205f}' || c == '\u{3000}'
}

/// Index of the first character at or after `i` that is not whitespace
/// (`s.len()` when there is none).
pub open spec fn first_solid(s: Seq<char>, i: int) -> int
    decreases s.len() - i,
{
    if 0 <= i < s.len() && is_white(s[i]) {
        first_solid(s, i + 1)
    } else {
        i
    }
}

/// End of `s[lo..j]` once trailing whitespace is dropped.
pub open spec fn solid_end(s: Seq<char>, lo: int, j: int) -> int
    decreases j - lo,
{
    if lo < j && j <= s.len() && is_white(s[j - 1]) {
        solid_end(s, lo, j - 1)
    } else {
        j
    }
}

/// `s` without its leading and trailing whitespace.
pub open spec fn trimmed(s: Seq<char>) -> Seq<char> {
    let lo = first_solid(s, 0);
    s.subrange(lo, solid_end(s, lo, s.len() as int))
}

proof fn lemma_first_solid_bounds(s: Seq<char>, i: int)
    requires
        0 <= i <= s.len(),
    ensures
        i <= first_solid(s, i) <= s.len(),
    decreases s.len() - i,
{
    if i < s.len() && is_white(s[i]) {
        lemma_first_solid_bounds(s, i + 1);
    }
}

/// Index of the first line feed at or after `i` (`s.len()` when there is none).
pub open spec fn line_end(s: Seq<char>, i: int) -> int
    decreases s.len() - i,
{
    if 0 <= i < s.len() && s[i] != '\n' {
        line_end(s, i + 1)
    } else {
        i
    }
}

/// The lines of `s` from position `start` on, each trimmed. Lines end at a
/// line feed; a final line feed does not open an empty last line.
pub open spec fn trimmed_lines_from(s: Seq<char>, start: int) -> Seq<Seq<char>>
    decreases s.len() - start,
{
    if 0 <= start < s.len() {
        let e = line_end(s, start);
        if start <= e < s.len() {
            seq![trimmed(s.subrange(start, e))] + trimmed_lines_from(s, e + 1)
        } else {
            seq![trimmed(s.subrange(start, e))]
        }
    } else {
        seq![]
    }
}

/// The lines of `s`, each trimmed.
pub open spec fn trimmed_lines(s: Seq<char>) -> Seq<Seq<char>> {
    trimmed_lines_from(s, 0)
}

/// The views of a vector of strings.
pub open spec fn views(v: Seq<String>) -> Seq<Seq<char>> {
    v.map_values(|x: String| x@)
}

proof fn lemma_line_end_bounds(s: Seq<char>, i: int)
    requires
        0 <= i <= s.len(),
    ensures
        i <= line_end(s, i) <= s.len(),
    decreases s.len() - i,
{
    if i < s.len() && s[i] != '\n' {
        lemma_line_end_bounds(s, i + 1);
    }
}

/// Whether `c` is Unicode whitespace.
pub fn is_white_char(c: char) -> (r: bool)
    ensures
        r == is_white(c),
{
    ('\u{9}' <= c && c <= '\u{d}') || c == ' ' || c == '\u{85}' || c == '\u{a0}'
        || c == '\u{1680}' || ('\u{2000}' <= c && c <= '\u{200a}') || c == '\u{2028}'
        || c == '\u{2029}' || c == '\u{202f}' || c == '\u{205f}' || c == '\u{3000}'
}

/// `s` with leading and trailing whitespace removed.
pub fn trim(s: &str) -> (r: String)
    ensures
        r@ == trimmed(s@),
{
    let n = s.unicode_len();
    let mut lo: usize = 0;
    while lo < n && is_white_char(s.get_char(lo))
        invariant
            n == s@.len(),
            lo <= n,
            first_solid(s@, lo as int) == first_solid(s@, 0),
        decreases n - lo,
    {
        lo = lo + 1;
    }
    proof {
        lemma_first_solid_bounds(s@, 0);
    }
    let mut hi: usize = n;
    while hi > lo && is_white_char(s.get_char(hi - 1))
        invariant
            n == s@.len(),
            lo == first_solid(s@, 0),
            lo <= hi <= n,
            solid_end(s@, lo as int, hi as int) == solid_end(s@, lo as int, n as int),
        decreases hi - lo,
    {
        hi = hi - 1;
    }
    String::from_str(s.substring_char(lo, hi))
}

/// The lines of `s`, split at line feeds, each with its surrounding
/// whitespace (a carriage return included) removed.
pub fn split_trimmed_lines(s: &str) -> (r: Vec<String>)
    ensures
        views(r@) == trimmed_lines(s@),
{
    let n = s.unicode_len();
    let mut out: Vec<String> = Vec::new();
    let mut start: usize = 0;
    while start < n
        invariant
            n == s@.len(),
            start <= n,
            views(out@) + trimmed_lines_from(s@, start as int) == trimmed_lines(s@),
        decreases n - start,
    {
        let mut e: usize = start;
        while e < n && s.get_char(e) != '\n'
            invariant
                n == s@.len(),
                start <= e <= n,
                line_end(s@, e as int) == line_end(s@, start as int),
            decreases n - e,
        {
            e = e + 1;
        }
        proof {
            lemma_line_end_bounds(s@, start as int);
        }
        let line = trim(s.substring_char(start, e));
        let ghost before = views(out@);
        out.push(line);
        proof {
            assert(views(out@) =~= before.push(line@));
            if e < n {
                assert(trimmed_lines_from(s@, start as int) == seq![line@] + trimmed_lines_from(
                    s@,
                    e + 1,
                ));
                assert(views(out@) + trimmed_lines_from(s@, e + 1) =~= before
                    + trimmed_lines_from(s@, start as int));
            } else {
                assert(trimmed_lines_from(s@, n as int) =~= seq![]);
                assert(views(out@) + trimmed_lines_from(s@, n as int) =~= before
                    + trimmed_lines_from(s@, start as int));
            }
        }
        if e < n {
            start = e + 1;
        } else {
            start = n;
        }
    }
    out
}

} // verus!
