//! Character-sequence helpers shared by the modules: lexicographic order on
//! strings (the order of `String`'s `Ord`, since UTF-8 keeps code-point order)
//! and growing a `String` one character at a time.
use vstd::prelude::*;
use vstd::relations::{sorted_by, total_ordering};

verus! {

/// Strict lexicographic order on character sequences, by code point.
pub open spec fn chars_lt(a: Seq<char>, b: Seq<char>) -> bool
    decreases a.len(),
{
    if a.len() == 0 {
        b.len() > 0
    } else if b.len() == 0 {
        false
    } else if a[0] == b[0] {
        chars_lt(a.drop_first(), b.drop_first())
    } else {
        (a[0] as int) < (b[0] as int)
    }
}

/// Non-strict lexicographic order on character sequences.
pub open spec fn chars_le(a: Seq<char>, b: Seq<char>) -> bool {
    chars_lt(a, b) || a == b
}

/// The order as a relation value, for `sort_by`.
pub open spec fn chars_leq_rel() -> spec_fn(Seq<char>, Seq<char>) -> bool {
    |a: Seq<char>, b: Seq<char>| chars_le(a, b)
}

proof fn lemma_chars_lt_irreflexive(a: Seq<char>)
    ensures
        !chars_lt(a, a),
    decreases a.len(),
{
    if a.len() > 0 {
        lemma_chars_lt_irreflexive(a.drop_first());
    }
}

proof fn lemma_chars_lt_asymmetric(a: Seq<char>, b: Seq<char>)
    ensures
        !(chars_lt(a, b) && chars_lt(b, a)),
    decreases a.len(),
{
    if a.len() > 0 && b.len() > 0 && a[0] == b[0] {
        lemma_chars_lt_asymmetric(a.drop_first(), b.drop_first());
    }
}

proof fn lemma_chars_lt_transitive(a: Seq<char>, b: Seq<char>, c: Seq<char>)
    requires
        chars_lt(a, b),
        chars_lt(b, c),
    ensures
        chars_lt(a, c),
    decreases a.len(),
{
    if a.len() > 0 && b.len() > 0 && c.len() > 0 && a[0] == b[0] && b[0] == c[0] {
        lemma_chars_lt_transitive(a.drop_first(), b.drop_first(), c.drop_first());
    }
}

/// Two sequences that are equal after their first characters and agree on it are equal.
proof fn lemma_eq_from_parts(a: Seq<char>, b: Seq<char>)
    requires
        a.len() > 0,
        b.len() > 0,
        a[0] == b[0],
        a.drop_first() == b.drop_first(),
    ensures
        a == b,
{
    assert(a =~= seq![a[0]] + a.drop_first());
    assert(b =~= seq![b[0]] + b.drop_first());
}

proof fn lemma_chars_lt_total(a: Seq<char>, b: Seq<char>)
    ensures
        chars_lt(a, b) || chars_lt(b, a) || a == b,
    decreases a.len(),
{
    if a.len() > 0 && b.len() > 0 && a[0] == b[0] {
        lemma_chars_lt_total(a.drop_first(), b.drop_first());
        if a.drop_first() == b.drop_first() {
            lemma_eq_from_parts(a, b);
        }
    } else if a.len() == 0 && b.len() == 0 {
        assert(a =~= b);
    } else if a.len() > 0 && b.len() > 0 {
        assert((a[0] as int) != (b[0] as int));
    }
}

/// Facts about the lexicographic order for any given triple of sequences.
pub proof fn lemma_chars_order_facts(a: Seq<char>, b: Seq<char>, c: Seq<char>)
    ensures
        !chars_lt(a, a),
        !(chars_lt(a, b) && chars_lt(b, a)),
        chars_lt(a, b) && chars_lt(b, c) ==> chars_lt(a, c),
        chars_lt(a, b) || chars_lt(b, a) || a == b,
{
    lemma_chars_lt_irreflexive(a);
    lemma_chars_lt_asymmetric(a, b);
    if chars_lt(a, b) && chars_lt(b, c) {
        lemma_chars_lt_transitive(a, b, c);
    }
    lemma_chars_lt_total(a, b);
}

/// The non-strict lexicographic order is a total order.
pub proof fn lemma_chars_le_total_ordering()
    ensures
        total_ordering(chars_leq_rel()),
{
    let r = chars_leq_rel();
    assert forall|x: Seq<char>| #[trigger] r(x, x) by {}
    assert forall|x: Seq<char>, y: Seq<char>| #[trigger] r(x, y) && #[trigger] r(y, x) implies x == y by {
        lemma_chars_order_facts(x, y, x);
    }
    assert forall|x: Seq<char>, y: Seq<char>, z: Seq<char>| #[trigger] r(x, y) && #[trigger] r(y, z) implies r(x, z) by {
        lemma_chars_order_facts(x, y, z);
    }
    assert forall|x: Seq<char>, y: Seq<char>| #[trigger] r(x, y) || #[trigger] r(y, x) by {
        lemma_chars_order_facts(x, y, x);
    }
}

proof fn lemma_chars_lt_skip(a: Seq<char>, b: Seq<char>, i: int)
    requires
        0 <= i < a.len(),
        i < b.len(),
        a[i] == b[i],
    ensures
        chars_lt(a.skip(i), b.skip(i)) == chars_lt(a.skip(i + 1), b.skip(i + 1)),
{
    assert(a.skip(i).drop_first() =~= a.skip(i + 1));
    assert(b.skip(i).drop_first() =~= b.skip(i + 1));
}

/// Whether `a` comes strictly before `b` in lexicographic order.
pub fn str_lt(a: &str, b: &str) -> (lt: bool)
    ensures
        lt == chars_lt(a@, b@),
{
    let a_len = a.unicode_len();
    let b_len = b.unicode_len();
    let mut i: usize = 0;
    assert(a@.skip(0) =~= a@);
    assert(b@.skip(0) =~= b@);
    while i < a_len && i < b_len
        invariant
            a_len == a@.len(),
            b_len == b@.len(),
            i <= a_len,
            i <= b_len,
            chars_lt(a@, b@) == chars_lt(a@.skip(i as int), b@.skip(i as int)),
        decreases a_len - i,
    {
        let ca = a.get_char(i);
        let cb = b.get_char(i);
        if ca != cb {
            assert(a@.skip(i as int)[0] == ca);
            assert(b@.skip(i as int)[0] == cb);
            return (ca as u32) < (cb as u32);
        }
        proof {
            lemma_chars_lt_skip(a@, b@, i as int);
        }
        i = i + 1;
    }
    assert(a@.skip(i as int).len() == a_len - i);
    assert(b@.skip(i as int).len() == b_len - i);
    i == a_len && i < b_len
}

/// The character sequences of a sequence of strings.
pub open spec fn string_views(v: Seq<String>) -> Seq<Seq<char>> {
    v.map_values(|s: String| s@)
}

/// Sorts strings in ascending lexicographic order (`slice::sort` on `String`s).
pub fn sort_strings(v: Vec<String>) -> (sorted: Vec<String>)
    ensures
        string_views(sorted@) == string_views(v@).sort_by(chars_leq_rel()),
{
    let ghost leq = chars_leq_rel();
    proof {
        lemma_chars_le_total_ordering();
    }
    let mut out: Vec<String> = Vec::new();
    let n = v.len();
    let mut i: usize = 0;
    assert(string_views(out@) =~= Seq::<Seq<char>>::empty());
    assert(string_views(v@.subrange(0, 0)) =~= Seq::<Seq<char>>::empty());
    while i < n
        invariant
            n == v@.len(),
            i <= n,
            leq == chars_leq_rel(),
            total_ordering(leq),
            sorted_by(string_views(out@), leq),
            string_views(out@).to_multiset() == string_views(v@.subrange(0, i as int)).to_multiset(),
        decreases n - i,
    {
        let x = v[i].clone();
        let len = out.len();
        let mut p: usize = 0;
        while p < len && !str_lt(x.as_str(), out[p].as_str())
            invariant
                len == out@.len(),
                p <= len,
                forall|q: int| 0 <= q < p ==> chars_le(#[trigger] out@[q]@, x@),
            decreases len - p,
        {
            proof {
                lemma_chars_order_facts(x@, out@[p as int]@, x@);
            }
            p = p + 1;
        }
        let ghost before = string_views(out@);
        let ghost out_old = out@;
        proof {
            if p < len {
                assert(chars_lt(x@, out@[p as int]@));
                assert(before[p as int] == out@[p as int]@);
            }
        }
        out.insert(p, x);
        proof {
            let after = string_views(out@);
            assert(after =~= before.insert(p as int, x@));
            vstd::seq_lib::to_multiset_insert(before, p as int, x@);
            assert(v@.subrange(0, i + 1) =~= v@.subrange(0, i as int).push(v@[i as int]));
            assert(string_views(v@.subrange(0, i + 1)) =~= string_views(v@.subrange(0, i as int)).push(x@));
            vstd::seq_lib::to_multiset_build(string_views(v@.subrange(0, i as int)), x@);
            assert(after.len() == before.len() + 1);
            assert forall|q: int| 0 <= q < p implies chars_le(#[trigger] before[q], x@) by {
                assert(before[q] == out_old[q]@);
            }
            assert forall|a: int, b: int| 0 <= a < b < after.len() implies #[trigger] leq(after[a], after[b]) by {
                if b < p {
                    assert(after[a] == before[a] && after[b] == before[b]);
                    assert(leq(before[a], before[b]));
                } else if b == p {
                    assert(after[a] == before[a]);
                    assert(after[b] == x@);
                    assert(chars_le(before[a], x@));
                } else if a < p {
                    assert(after[b] == before[b - 1]);
                    assert(after[a] == before[a]);
                    assert(chars_le(before[a], x@));
                    assert(chars_lt(x@, before[p as int]));
                    if b - 1 > p {
                        assert(leq(before[p as int], before[b - 1]));
                    }
                    lemma_chars_order_facts(before[a], x@, before[p as int]);
                    lemma_chars_order_facts(before[a], before[p as int], before[b - 1]);
                    lemma_chars_order_facts(x@, before[p as int], before[b - 1]);
                } else if a == p {
                    assert(after[a] == x@);
                    assert(after[b] == before[b - 1]);
                    assert(chars_lt(x@, before[p as int]));
                    if b - 1 > p {
                        assert(leq(before[p as int], before[b - 1]));
                    }
                    lemma_chars_order_facts(x@, before[p as int], before[b - 1]);
                } else {
                    assert(after[a] == before[a - 1]);
                    assert(after[b] == before[b - 1]);
                    assert(leq(before[a - 1], before[b - 1]));
                }
            }
        }
        i = i + 1;
    }
    proof {
        assert(v@.subrange(0, n as int) =~= v@);
        string_views(v@).lemma_sort_by_ensures(leq);
        vstd::seq_lib::lemma_sorted_unique(string_views(out@), string_views(v@).sort_by(leq), leq);
    }
    out
}

/// Whether `c` is Unicode white space (`char::is_whitespace`).
pub open spec fn is_whitespace_char(c: char) -> bool {
    let v = c as u32;
    ||| 0x09 <= v <= 0x0d
    ||| v == 0x20
    ||| v == 0x85
    ||| v == 0xa0
    ||| v == 0x1680
    ||| 0x2000 <= v <= 0x200a
    ||| v == 0x2028
    ||| v == 0x2029
    ||| v == 0x202f
    ||| v == 0x205f
    ||| v == 0x3000
}

/// Whether `c` is Unicode white space.
pub fn is_whitespace_exec(c: char) -> (ws: bool)
    ensures
        ws == is_whitespace_char(c),
{
    let v = c as u32;
    (0x09 <= v && v <= 0x0d) || v == 0x20 || v == 0x85 || v == 0xa0 || v == 0x1680
        || (0x2000 <= v && v <= 0x200a) || v == 0x2028 || v == 0x2029 || v == 0x202f
        || v == 0x205f || v == 0x3000
}

/// `s` without its leading white space.
pub open spec fn trim_start(s: Seq<char>) -> Seq<char>
    decreases s.len(),
{
    if s.len() > 0 && is_whitespace_char(s[0]) {
        trim_start(s.drop_first())
    } else {
        s
    }
}

/// `s` without its trailing white space.
pub open spec fn trim_end(s: Seq<char>) -> Seq<char>
    decreases s.len(),
{
    if s.len() > 0 && is_whitespace_char(s.last()) {
        trim_end(s.drop_last())
    } else {
        s
    }
}

/// `s` without leading and trailing white space (`str::trim`).
pub open spec fn trimmed(s: Seq<char>) -> Seq<char> {
    trim_end(trim_start(s))
}

/// `s` with leading and trailing white space removed.
pub fn trim(s: &str) -> (out: String)
    ensures
        out@ == trimmed(s@),
{
    let chars = chars_of(s);
    let n = chars.len();
    let mut lo: usize = 0;
    assert(chars@.skip(0) =~= chars@);
    while lo < n && is_whitespace_exec(chars[lo])
        invariant
            n == chars@.len(),
            chars@ == s@,
            lo <= n,
            trim_start(s@) == trim_start(chars@.skip(lo as int)),
        decreases n - lo,
    {
        assert(chars@.skip(lo as int).drop_first() =~= chars@.skip(lo + 1));
        lo = lo + 1;
    }
    proof {
        if lo < n {
            assert(chars@.skip(lo as int)[0] == chars@[lo as int]);
        }
    }
    let mut hi: usize = n;
    assert(chars@.subrange(lo as int, n as int) =~= chars@.skip(lo as int));
    while hi > lo && is_whitespace_exec(chars[hi - 1])
        invariant
            n == chars@.len(),
            lo <= hi <= n,
            trimmed(s@) == trim_end(chars@.subrange(lo as int, hi as int)),
        decreases hi - lo,
    {
        assert(chars@.subrange(lo as int, hi as int).drop_last() =~= chars@.subrange(lo as int, hi - 1));
        hi = hi - 1;
    }
    let mut out: Vec<char> = Vec::new();
    let mut i: usize = lo;
    while i < hi
        invariant
            n == chars@.len(),
            lo <= i <= hi <= n,
            out@ == chars@.subrange(lo as int, i as int),
        decreases hi - i,
    {
        out.push(chars[i]);
        assert(chars@.subrange(lo as int, i + 1) =~= chars@.subrange(lo as int, i as int).push(chars@[i as int]));
        i = i + 1;
    }
    string_from_chars(&out)
}

/// The decimal digit character for `d` (0..=9).
pub open spec fn digit_char(d: nat) -> char {
    if d == 0 { '0' } else if d == 1 { '1' } else if d == 2 { '2' } else if d == 3 { '3' }
    else if d == 4 { '4' } else if d == 5 { '5' } else if d == 6 { '6' } else if d == 7 { '7' }
    else if d == 8 { '8' } else { '9' }
}

/// The decimal representation of `n`.
pub open spec fn decimal(n: nat) -> Seq<char>
    decreases n,
{
    if n < 10 {
        seq![digit_char(n)]
    } else {
        decimal(n / 10).push(digit_char(n % 10))
    }
}

fn digit_char_exec(d: u64) -> (c: char)
    requires
        d < 10,
    ensures
        c == digit_char(d as nat),
{
    if d == 0 { '0' } else if d == 1 { '1' } else if d == 2 { '2' } else if d == 3 { '3' }
    else if d == 4 { '4' } else if d == 5 { '5' } else if d == 6 { '6' } else if d == 7 { '7' }
    else if d == 8 { '8' } else { '9' }
}

/// The decimal representation of `n`.
pub fn decimal_string(n: u64) -> (s: String)
    ensures
        s@ == decimal(n as nat),
    decreases n,
{
    if n < 10 {
        let mut s = String::new();
        push_char(&mut s, digit_char_exec(n));
        assert(s@ =~= seq![digit_char(n as nat)]);
        s
    } else {
        let mut s = decimal_string(n / 10);
        push_char(&mut s, digit_char_exec(n % 10));
        s
    }
}

/// The concatenation of two strings.
pub fn concat(a: &str, b: &str) -> (s: String)
    ensures
        s@ == a@ + b@,
{
    let mut s = a.to_owned();
    s.append(b);
    s
}

/// The characters of `s`, in order.
pub fn chars_of(s: &str) -> (chars: Vec<char>)
    ensures
        chars@ == s@,
{
    broadcast use vstd::string::group_string_axioms;
    let mut out: Vec<char> = Vec::new();
    for c in it: s.chars()
        invariant
            it.seq() == s@,
            out@ == it.seq().take(it.index() as int),
    {
        out.push(c);
        proof {
            assert(it.seq().take(it.index() + 1) =~= it.seq().take(it.index() as int).push(c));
        }
    }
    assert(out@ =~= s@);
    out
}

/// A `String` holding exactly the given characters.
pub fn string_from_chars(chars: &Vec<char>) -> (s: String)
    ensures
        s@ == chars@,
{
    let mut out = String::new();
    let n = chars.len();
    let mut i: usize = 0;
    while i < n
        invariant
            n == chars@.len(),
            i <= n,
            out@ == chars@.take(i as int),
        decreases n - i,
    {
        push_char(&mut out, chars[i]);
        assert(chars@.take(i + 1) =~= chars@.take(i as int).push(chars@[i as int]));
        i = i + 1;
    }
    assert(chars@.take(n as int) =~= chars@);
    out
}

/// Appends one character to a `String` (`String::push`).
#[verifier::external_body]
pub(crate) fn push_char(s: &mut String, c: char)
    ensures
        final(s)@ == old(s)@.push(c),
{
    s.push(c);
}

} // verus!
