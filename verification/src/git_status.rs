//! Reading what `git` reports about a local repository.
use vstd::prelude::*;
use crate::text::{chars_of, is_whitespace_char, is_whitespace_exec};

verus! {

/// Number of leading characters of `s` that are not white space.
pub open spec fn word_len(s: Seq<char>) -> nat
    decreases s.len(),
{
    if s.len() == 0 || is_whitespace_char(s[0]) {
        0
    } else {
        1 + word_len(s.drop_first())
    }
}

/// The white-space separated words of `s`, in order (`str::split_whitespace`).
pub open spec fn words(s: Seq<char>) -> Seq<Seq<char>>
    decreases s.len(),
{
    if s.len() == 0 {
        Seq::empty()
    } else if is_whitespace_char(s[0]) {
        words(s.drop_first())
    } else {
        proof {
            lemma_word_len_bounds(s);
        }
        seq![s.take(word_len(s) as int)] + words(s.skip(word_len(s) as int))
    }
}

pub proof fn lemma_word_len_bounds(s: Seq<char>)
    ensures
        word_len(s) <= s.len(),
        s.len() > 0 && !is_whitespace_char(s[0]) ==> word_len(s) >= 1,
        word_len(s) < s.len() ==> is_whitespace_char(s[word_len(s) as int]),
        forall|k: int| 0 <= k < word_len(s) ==> !is_whitespace_char(#[trigger] s[k]),
    decreases s.len(),
{
    if s.len() > 0 && !is_whitespace_char(s[0]) {
        lemma_word_len_bounds(s.drop_first());
        assert forall|k: int| 0 <= k < word_len(s) implies !is_whitespace_char(#[trigger] s[k]) by {
            if k > 0 {
                assert(s[k] == s.drop_first()[k - 1]);
            }
        }
    }
}

/// The value of a non-empty string of ASCII digits.
pub open spec fn digits_value(w: Seq<char>) -> nat
    decreases w.len(),
{
    if w.len() == 0 {
        0
    } else {
        digits_value(w.drop_last()) * 10 + ((w.last() as u32) - ('0' as u32)) as nat
    }
}

/// Whether `w` is a non-empty string of ASCII digits.
pub open spec fn all_digits(w: Seq<char>) -> bool {
    w.len() > 0 && forall|k: int| 0 <= k < w.len() ==> '0' <= #[trigger] w[k] <= '9'
}

/// The digits of a count: the word without its optional leading `+`.
pub open spec fn count_digits(w: Seq<char>) -> Seq<char> {
    if w.len() > 0 && w[0] == '+' {
        w.drop_first()
    } else {
        w
    }
}

/// A word read as an unsigned integer the way `str::parse::<usize>` reads it:
/// an optional `+`, then ASCII digits whose value fits in `usize`.
pub open spec fn parse_count(w: Seq<char>) -> Option<usize> {
    let digits = count_digits(w);
    if all_digits(digits) && digits_value(digits) <= usize::MAX {
        Some(digits_value(digits) as usize)
    } else {
        None
    }
}

/// The counts `git rev-list --left-right --count` prints: two or three
/// numbers separated by white space, the third taken as zero when absent.
pub open spec fn branch_tracking_counts(output: Seq<char>) -> Option<(usize, usize, usize)> {
    let w = words(output);
    if w.len() != 2 && w.len() != 3 {
        None
    } else {
        match (parse_count(w[0]), parse_count(w[1])) {
            (Some(a), Some(b)) => if w.len() == 2 {
                Some((a, b, 0))
            } else {
                match parse_count(w[2]) {
                    Some(c) => Some((a, b, c)),
                    None => None,
                }
            },
            _ => None,
        }
    }
}

/// Reads a word as an unsigned integer (see [`parse_count`]).
fn parse_count_exec(w: &Vec<char>) -> (count: Option<usize>)
    ensures
        count == parse_count(w@),
{
    let n = w.len();
    let start: usize = if n > 0 && w[0] == '+' { 1 } else { 0 };
    let ghost digits = count_digits(w@);
    assert(digits =~= w@.skip(start as int));
    if start == n {
        return None;
    }
    let mut value: usize = 0;
    let mut i: usize = start;
    while i < n
        invariant
            n == w@.len(),
            start < n,
            start <= i <= n,
            digits == count_digits(w@),
            digits =~= w@.skip(start as int),
            value as nat == digits_value(w@.subrange(start as int, i as int)),
            forall|k: int| start <= k < i ==> '0' <= #[trigger] w@[k] <= '9',
        decreases n - i,
    {
        let c = w[i];
        assert(w@.subrange(start as int, i + 1).drop_last() =~= w@.subrange(start as int, i as int));
        if !('0' <= c && c <= '9') {
            assert(!all_digits(digits)) by {
                assert(digits[i - start] == c);
            }
            assert(parse_count(w@) is None);
            return None;
        }
        let d = (c as u32 - '0' as u32) as usize;
        match value.checked_mul(10) {
            Some(m) => match m.checked_add(d) {
                Some(v) => {
                    value = v;
                },
                None => {
                    proof {
                        if all_digits(digits) {
                            lemma_digits_value_prefix_bound(digits, (i + 1 - start) as int);
                            assert(w@.subrange(start as int, i + 1) =~= digits.take(i + 1 - start));
                        }
                    }
                    return None;
                },
            },
            None => {
                proof {
                    if all_digits(digits) {
                        lemma_digits_value_prefix_bound(digits, (i + 1 - start) as int);
                        assert(w@.subrange(start as int, i + 1) =~= digits.take(i + 1 - start));
                    }
                }
                return None;
            },
        }
        i = i + 1;
    }
    assert(w@.subrange(start as int, n as int) =~= digits);
    Some(value)
}

/// The value of a prefix of a digit string is at most the value of the whole.
proof fn lemma_digits_value_prefix_bound(w: Seq<char>, k: int)
    requires
        0 <= k <= w.len(),
        forall|j: int| 0 <= j < w.len() ==> '0' <= #[trigger] w[j] <= '9',
    ensures
        digits_value(w.take(k)) <= digits_value(w),
    decreases w.len(),
{
    if k < w.len() {
        assert(w.drop_last().take(k) =~= w.take(k));
        lemma_digits_value_prefix_bound(w.drop_last(), k);
    } else {
        assert(w.take(k) =~= w);
    }
}

/// The white-space separated words of `s`.
fn words_exec(s: &Vec<char>) -> (out: Vec<Vec<char>>)
    ensures
        out@.map_values(|w: Vec<char>| w@) == words(s@),
{
    let n = s.len();
    let mut out: Vec<Vec<char>> = Vec::new();
    let mut i: usize = 0;
    assert(s@.skip(0) =~= s@);
    while i < n
        invariant
            n == s@.len(),
            i <= n,
            words(s@) == out@.map_values(|w: Vec<char>| w@) + words(s@.skip(i as int)),
        decreases n - i,
    {
        let ghost rest = s@.skip(i as int);
        if is_whitespace_exec(s[i]) {
            assert(rest.drop_first() =~= s@.skip(i + 1));
            i = i + 1;
        } else {
            let mut word: Vec<char> = Vec::new();
            let mut j: usize = i;
            proof {
                lemma_word_len_bounds(rest);
            }
            while j < n && !is_whitespace_exec(s[j])
                invariant
                    n == s@.len(),
                    i <= j <= n,
                    word@ == s@.subrange(i as int, j as int),
                    rest == s@.skip(i as int),
                    word_len(rest) == (j - i) + word_len(s@.skip(j as int)),
                decreases n - j,
            {
                word.push(s[j]);
                assert(s@.subrange(i as int, j + 1) =~= s@.subrange(i as int, j as int).push(s@[j as int]));
                assert(s@.skip(j as int).drop_first() =~= s@.skip(j + 1));
                j = j + 1;
            }
            proof {
                if j < n {
                    assert(s@.skip(j as int)[0] == s@[j as int]);
                }
                assert(rest.take(word_len(rest) as int) =~= word@);
                assert(rest.skip(word_len(rest) as int) =~= s@.skip(j as int));
            }
            let ghost before = out@.map_values(|w: Vec<char>| w@);
            out.push(word);
            assert(out@.map_values(|w: Vec<char>| w@) =~= before.push(rest.take(word_len(rest) as int)));
            i = j;
        }
    }
    assert(s@.skip(n as int) =~= Seq::<char>::empty());
    assert(out@.map_values(|w: Vec<char>| w@) + Seq::<Seq<char>>::empty() =~= out@.map_values(|w: Vec<char>| w@));
    out
}

/// The local, file-watcher backed git status of a repository.
pub struct LocalGitRepoStatusModel;

impl LocalGitRepoStatusModel {
    /// Reads the output of `git rev-list --left-right --count`: two or three
    /// white-space separated counts, the third taken as zero when absent;
    /// `None` for any other output.
    pub fn parse_branch_tracking_counts(output: &str) -> (counts: Option<(usize, usize, usize)>)
        ensures
            counts == branch_tracking_counts(output@),
    {
        let chars = chars_of(output);
        let w = words_exec(&chars);
        let ghost ws = w@.map_values(|x: Vec<char>| x@);
        if w.len() != 2 && w.len() != 3 {
            return None;
        }
        assert(ws[0] == w@[0]@ && ws[1] == w@[1]@);
        let a = match parse_count_exec(&w[0]) {
            Some(a) => a,
            None => return None,
        };
        let b = match parse_count_exec(&w[1]) {
            Some(b) => b,
            None => return None,
        };
        if w.len() == 2 {
            return Some((a, b, 0));
        }
        assert(ws[2] == w@[2]@);
        match parse_count_exec(&w[2]) {
            Some(c) => Some((a, b, c)),
            None => None,
        }
    }
}

} // verus!
