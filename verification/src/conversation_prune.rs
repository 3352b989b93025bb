//! Tree-aware eviction of persisted agent conversations.
//!
//! Conversations form trees through their parent conversation ids
//! (orchestration sessions spawn child conversations). When more rows are
//! stored than the cap allows, whole trees are evicted, oldest first, so a
//! parent and its children never age out independently.
use vstd::prelude::*;
use crate::text::{chars_leq_rel, chars_lt, sort_strings, str_lt, string_views};

verus! {

/// Maximum number of conversation rows retained on disk before trees are evicted.
pub const MAX_PERSISTED_CONVERSATION_COUNT: usize = 200;

/// One persisted conversation row, as the eviction logic reads it.
///
/// `parent_conversation_id` is the parent declared by the row's stored
/// conversation data, or `None` when the data declares no parent or does not
/// parse. `last_modified_at` is the modification time in nanoseconds since
/// the Unix epoch.
#[derive(Debug)]
pub struct ConversationRecord {
    pub id: i32,
    pub conversation_id: String,
    pub parent_conversation_id: Option<String>,
    pub last_modified_at: i128,
}

// ---------------------------------------------------------------------------
// Specification
// ---------------------------------------------------------------------------

/// Index of the last row among the first `k` whose id is `s`, or -1 if none.
pub open spec fn last_index_in(rows: Seq<ConversationRecord>, s: Seq<char>, k: int) -> int
    decreases k,
{
    if k <= 0 {
        -1
    } else if rows[k - 1].conversation_id@ == s {
        k - 1
    } else {
        last_index_in(rows, s, k - 1)
    }
}

/// The row that represents id `s` (the last row carrying it), or -1 when no row does.
pub open spec fn last_index(rows: Seq<ConversationRecord>, s: Seq<char>) -> int {
    last_index_in(rows, s, rows.len() as int)
}

/// The parent link of row `c`: the row of its declared parent, when that
/// parent is one of the rows.
pub open spec fn parent_link(rows: Seq<ConversationRecord>, c: int) -> Option<int> {
    match rows[c].parent_conversation_id {
        Some(p) => if last_index(rows, p@) >= 0 {
            Some(last_index(rows, p@))
        } else {
            None
        },
        None => None,
    }
}

/// Follows parent links upward from `c`, stopping at a row without a parent
/// link or at the first row reached a second time (a cycle).
pub open spec fn walk(rows: Seq<ConversationRecord>, c: int, seen: Set<int>, fuel: nat) -> int
    decreases fuel,
{
    if fuel == 0 || seen.contains(c) {
        c
    } else {
        match parent_link(rows, c) {
            Some(d) => walk(rows, d, seen.insert(c), (fuel - 1) as nat),
            None => c,
        }
    }
}

/// The row at the root of row `i`'s tree.
pub open spec fn root_index(rows: Seq<ConversationRecord>, i: int) -> int {
    walk(
        rows,
        last_index(rows, rows[i].conversation_id@),
        Set::empty(),
        (rows.len() + 1) as nat,
    )
}

/// The conversation id of the root of row `i`'s tree.
pub open spec fn tree_root_id(rows: Seq<ConversationRecord>, i: int) -> Seq<char> {
    rows[root_index(rows, i)].conversation_id@
}

/// Latest modification time among the first `k` rows whose tree root is row `r`.
pub open spec fn tree_max_upto(rows: Seq<ConversationRecord>, r: int, k: int) -> Option<int>
    decreases k,
{
    if k <= 0 {
        None
    } else {
        let prev = tree_max_upto(rows, r, k - 1);
        if root_index(rows, k - 1) == r {
            match prev {
                Some(m) => if rows[k - 1].last_modified_at > m {
                    Some(rows[k - 1].last_modified_at as int)
                } else {
                    Some(m)
                },
                None => Some(rows[k - 1].last_modified_at as int),
            }
        } else {
            prev
        }
    }
}

/// The effective modification time of row `i`'s tree: the latest time of any member.
pub open spec fn tree_last_modified(rows: Seq<ConversationRecord>, i: int) -> int {
    match tree_max_upto(rows, root_index(rows, i), rows.len() as int) {
        Some(m) => m,
        None => rows[i].last_modified_at as int,
    }
}

/// Row `j`'s tree comes strictly before row `i`'s in freshness order: later
/// effective time first, ties broken by ascending root id.
pub open spec fn tree_before(rows: Seq<ConversationRecord>, j: int, i: int) -> bool {
    let ej = tree_last_modified(rows, j);
    let ei = tree_last_modified(rows, i);
    ej > ei || (ej == ei && chars_lt(tree_root_id(rows, j), tree_root_id(rows, i)))
}

/// Rows `i` and `j` belong to the same tree.
pub open spec fn same_tree(rows: Seq<ConversationRecord>, i: int, j: int) -> bool {
    root_index(rows, i) == root_index(rows, j)
}

/// Number of rows among the first `k` whose tree is row `i`'s tree or a fresher one.
pub open spec fn fresher_or_same_upto(rows: Seq<ConversationRecord>, i: int, k: int) -> nat
    decreases k,
{
    if k <= 0 {
        0
    } else {
        fresher_or_same_upto(rows, i, k - 1) + if tree_before(rows, k - 1, i) || same_tree(
            rows,
            k - 1,
            i,
        ) {
            1nat
        } else {
            0nat
        }
    }
}

/// Row `i` is evicted: its tree is not the freshest, and its tree together
/// with all fresher trees holds more than `limit` rows. (Walking trees from
/// freshest to oldest, every tree is kept while the running total fits, and
/// from the first tree that does not fit on, every tree is evicted.)
pub open spec fn is_evicted(rows: Seq<ConversationRecord>, limit: int, i: int) -> bool {
    &&& exists|j: int| 0 <= j < rows.len() && tree_before(rows, j, i)
    &&& fresher_or_same_upto(rows, i, rows.len() as int) > limit
}

/// Ids of the evicted rows among the first `k`, in row order.
pub open spec fn evicted_ids_upto(rows: Seq<ConversationRecord>, limit: int, k: int) -> Seq<Seq<char>>
    decreases k,
{
    if k <= 0 {
        Seq::empty()
    } else if is_evicted(rows, limit, k - 1) {
        evicted_ids_upto(rows, limit, k - 1).push(rows[k - 1].conversation_id@)
    } else {
        evicted_ids_upto(rows, limit, k - 1)
    }
}

/// Ids of all evicted rows, in ascending order.
pub open spec fn evicted_ids(rows: Seq<ConversationRecord>, limit: int) -> Seq<Seq<char>> {
    evicted_ids_upto(rows, limit, rows.len() as int).sort_by(chars_leq_rel())
}

// ---------------------------------------------------------------------------
// Basic lemmas
// ---------------------------------------------------------------------------

proof fn lemma_last_index_in_bounds(rows: Seq<ConversationRecord>, s: Seq<char>, k: int)
    requires
        0 <= k <= rows.len(),
    ensures
        -1 <= last_index_in(rows, s, k) < k,
        last_index_in(rows, s, k) >= 0 ==> rows[last_index_in(rows, s, k)].conversation_id@ == s,
        forall|m: int| 0 <= m < k && rows[m].conversation_id@ == s ==> m <= last_index_in(rows, s, k),
    decreases k,
{
    if k > 0 {
        lemma_last_index_in_bounds(rows, s, k - 1);
    }
}

/// Every walk ends at a row index.
proof fn lemma_walk_in_bounds(rows: Seq<ConversationRecord>, c: int, seen: Set<int>, fuel: nat)
    requires
        0 <= c < rows.len(),
    ensures
        0 <= walk(rows, c, seen, fuel) < rows.len(),
    decreases fuel,
{
    if fuel > 0 && !seen.contains(c) {
        match parent_link(rows, c) {
            Some(d) => {
                let p = rows[c].parent_conversation_id->0;
                lemma_last_index_in_bounds(rows, p@, rows.len() as int);
                lemma_walk_in_bounds(rows, d, seen.insert(c), (fuel - 1) as nat);
            },
            None => {},
        }
    }
}

proof fn lemma_root_index_in_bounds(rows: Seq<ConversationRecord>, i: int)
    requires
        0 <= i < rows.len(),
    ensures
        0 <= root_index(rows, i) < rows.len(),
        0 <= last_index(rows, rows[i].conversation_id@) < rows.len(),
{
    lemma_last_index_in_bounds(rows, rows[i].conversation_id@, rows.len() as int);
    lemma_walk_in_bounds(
        rows,
        last_index(rows, rows[i].conversation_id@),
        Set::empty(),
        (rows.len() + 1) as nat,
    );
}

proof fn lemma_fresher_or_same_upto_le(rows: Seq<ConversationRecord>, i: int, k: int)
    requires
        0 <= k,
    ensures
        fresher_or_same_upto(rows, i, k) <= k,
    decreases k,
{
    if k > 0 {
        lemma_fresher_or_same_upto_le(rows, i, k - 1);
    }
}

// ---------------------------------------------------------------------------
// Execution
// ---------------------------------------------------------------------------

/// Number of `true` entries.
spec fn count_true(s: Seq<bool>) -> nat
    decreases s.len(),
{
    if s.len() == 0 {
        0
    } else {
        count_true(s.drop_last()) + if s.last() {
            1nat
        } else {
            0nat
        }
    }
}

proof fn lemma_count_true_le(s: Seq<bool>)
    ensures
        count_true(s) <= s.len(),
    decreases s.len(),
{
    if s.len() > 0 {
        lemma_count_true_le(s.drop_last());
    }
}

proof fn lemma_count_true_set(s: Seq<bool>, k: int)
    requires
        0 <= k < s.len(),
        !s[k],
    ensures
        count_true(s.update(k, true)) == count_true(s) + 1,
    decreases s.len(),
{
    let t = s.update(k, true);
    if k == s.len() - 1 {
        assert(t.drop_last() =~= s.drop_last());
    } else {
        assert(t.drop_last() =~= s.drop_last().update(k, true));
        lemma_count_true_set(s.drop_last(), k);
    }
}

/// The row representing id `s`: the last row carrying it.
fn last_index_of(rows: &Vec<ConversationRecord>, s: &String) -> (r: Option<usize>)
    ensures
        match r {
            Some(k) => k as int == last_index(rows@, s@),
            None => last_index(rows@, s@) == -1,
        },
{
    let n = rows.len();
    let mut found: Option<usize> = None;
    let mut k: usize = 0;
    while k < n
        invariant
            n == rows@.len(),
            k <= n,
            match found {
                Some(f) => f as int == last_index_in(rows@, s@, k as int),
                None => last_index_in(rows@, s@, k as int) == -1,
            },
        decreases n - k,
    {
        if rows[k].conversation_id == *s {
            found = Some(k);
        }
        k = k + 1;
    }
    found
}

/// Follows parent links from `start` until a row without a parent link or a
/// row reached twice.
fn find_root(links: &Vec<Option<usize>>, start: usize, Ghost(rows): Ghost<Seq<ConversationRecord>>) -> (root: usize)
    requires
        links@.len() == rows.len(),
        start < rows.len(),
        forall|c: int|
            0 <= c < rows.len() ==> match #[trigger] links@[c] {
                Some(d) => parent_link(rows, c) == Some(d as int) && d < rows.len(),
                None => parent_link(rows, c) is None,
            },
    ensures
        root as int == walk(rows, start as int, Set::empty(), (rows.len() + 1) as nat),
{
    let n = links.len();
    let mut seen: Vec<bool> = Vec::new();
    let mut k: usize = 0;
    while k < n
        invariant
            n == links@.len(),
            k <= n,
            seen@.len() == k,
            forall|m: int| 0 <= m < k ==> !#[trigger] seen@[m],
        decreases n - k,
    {
        seen.push(false);
        k = k + 1;
    }
    proof {
        assert(count_true(seen@) == 0) by {
            assert forall|j: int| 0 <= j <= n implies count_true(#[trigger] seen@.subrange(0, j)) == 0 by {
                lemma_count_true_prefix_zero(seen@, j);
            }
            assert(seen@.subrange(0, n as int) =~= seen@);
        }
    }
    let mut cur = start;
    let ghost mut seen_set: Set<int> = Set::empty();
    loop
        invariant
            n == links@.len(),
            n == rows.len(),
            seen@.len() == n,
            cur < n,
            forall|c: int|
                0 <= c < rows.len() ==> match #[trigger] links@[c] {
                    Some(d) => parent_link(rows, c) == Some(d as int) && d < rows.len(),
                    None => parent_link(rows, c) is None,
                },
            forall|m: int| 0 <= m < n ==> (#[trigger] seen@[m] <==> seen_set.contains(m)),
            count_true(seen@) <= n,
            walk(rows, cur as int, seen_set, (n + 1 - count_true(seen@)) as nat) == walk(
                rows,
                start as int,
                Set::empty(),
                (rows.len() + 1) as nat,
            ),
        decreases n + 1 - count_true(seen@),
    {
        if seen[cur] {
            return cur;
        }
        let ghost old_seen = seen@;
        seen.set(cur, true);
        proof {
            lemma_count_true_set(old_seen, cur as int);
            lemma_count_true_le(seen@);
            seen_set = seen_set.insert(cur as int);
        }
        match links[cur] {
            Some(d) => {
                cur = d;
            },
            None => {
                return cur;
            },
        }
    }
}

proof fn lemma_count_true_prefix_zero(s: Seq<bool>, j: int)
    requires
        0 <= j <= s.len(),
        forall|m: int| 0 <= m < s.len() ==> !#[trigger] s[m],
    ensures
        count_true(s.subrange(0, j)) == 0,
    decreases j,
{
    if j > 0 {
        assert(s.subrange(0, j).drop_last() =~= s.subrange(0, j - 1));
        lemma_count_true_prefix_zero(s, j - 1);
    }
}

/// Rows are within the limit: nothing is evicted.
proof fn lemma_nothing_evicted_within_limit(rows: Seq<ConversationRecord>, limit: int, k: int)
    requires
        rows.len() <= limit,
        0 <= k <= rows.len(),
    ensures
        evicted_ids_upto(rows, limit, k) == Seq::<Seq<char>>::empty(),
    decreases k,
{
    if k > 0 {
        lemma_nothing_evicted_within_limit(rows, limit, k - 1);
        lemma_fresher_or_same_upto_le(rows, k - 1, rows.len() as int);
    }
}

/// Whether row `j`'s tree comes strictly before row `i`'s, from the computed
/// roots and effective times.
fn tree_before_exec(
    rows: &Vec<ConversationRecord>,
    roots: &Vec<usize>,
    effs: &Vec<i128>,
    j: usize,
    i: usize,
) -> (before: bool)
    requires
        roots@.len() == rows@.len(),
        effs@.len() == rows@.len(),
        j < rows@.len(),
        i < rows@.len(),
        forall|m: int| 0 <= m < rows@.len() ==> #[trigger] roots@[m] as int == root_index(rows@, m),
        forall|m: int| 0 <= m < rows@.len() ==> #[trigger] effs@[m] as int == tree_last_modified(rows@, m),
    ensures
        before == tree_before(rows@, j as int, i as int),
{
    proof {
        lemma_root_index_in_bounds(rows@, j as int);
        lemma_root_index_in_bounds(rows@, i as int);
    }
    let ej = effs[j];
    let ei = effs[i];
    if ej > ei {
        true
    } else if ej == ei {
        str_lt(rows[roots[j]].conversation_id.as_str(), rows[roots[i]].conversation_id.as_str())
    } else {
        false
    }
}

/// Computes the conversation ids to evict so that the remaining rows fit
/// within `limit` without ever splitting a tree.
///
/// Rows are grouped into trees by following declared parent ids upward (a
/// parent that is not among the rows makes its child a root; a cycle stops at
/// the first row reached twice). Trees are ordered freshest first by the latest
/// modification time of any member, ties broken by ascending root id. The
/// freshest tree is always kept, even when it alone exceeds `limit`; each later
/// tree is kept while the kept total plus its size stays within `limit`, and
/// from the first tree that does not fit on, that tree and every older one are
/// evicted. The ids are returned in ascending order.
pub fn select_conversations_to_evict(rows: &Vec<ConversationRecord>, limit: usize) -> (evicted: Vec<String>)
    ensures
        string_views(evicted@) == evicted_ids(rows@, limit as int),
{
    let n = rows.len();
    if n <= limit {
        let empty: Vec<String> = Vec::new();
        proof {
            lemma_nothing_evicted_within_limit(rows@, limit as int, n as int);
            assert(string_views(empty@) =~= evicted_ids_upto(rows@, limit as int, n as int));
        }
        return sort_strings(empty);
    }
    // Parent links between rows.
    let mut links: Vec<Option<usize>> = Vec::new();
    let mut c: usize = 0;
    while c < n
        invariant
            n == rows@.len(),
            c <= n,
            links@.len() == c,
            forall|m: int|
                0 <= m < c ==> match #[trigger] links@[m] {
                    Some(d) => parent_link(rows@, m) == Some(d as int) && d < rows@.len(),
                    None => parent_link(rows@, m) is None,
                },
        decreases n - c,
    {
        let link = match &rows[c].parent_conversation_id {
            Some(p) => last_index_of(rows, p),
            None => None,
        };
        proof {
            match rows@[c as int].parent_conversation_id {
                Some(p) => lemma_last_index_in_bounds(rows@, p@, n as int),
                None => {},
            }
        }
        links.push(link);
        c = c + 1;
    }
    // Tree root of every row.
    let mut roots: Vec<usize> = Vec::new();
    let mut i: usize = 0;
    while i < n
        invariant
            n == rows@.len(),
            i <= n,
            links@.len() == n,
            forall|m: int|
                0 <= m < n ==> match #[trigger] links@[m] {
                    Some(d) => parent_link(rows@, m) == Some(d as int) && d < rows@.len(),
                    None => parent_link(rows@, m) is None,
                },
            roots@.len() == i,
            forall|m: int| 0 <= m < i ==> #[trigger] roots@[m] as int == root_index(rows@, m),
        decreases n - i,
    {
        proof {
            lemma_root_index_in_bounds(rows@, i as int);
        }
        let start = match last_index_of(rows, &rows[i].conversation_id) {
            Some(k) => k,
            None => 0,
        };
        let root = find_root(&links, start, Ghost(rows@));
        roots.push(root);
        i = i + 1;
    }
    // Effective modification time of every row's tree.
    let mut effs: Vec<i128> = Vec::new();
    let mut i: usize = 0;
    while i < n
        invariant
            n == rows@.len(),
            i <= n,
            roots@.len() == n,
            forall|m: int| 0 <= m < n ==> #[trigger] roots@[m] as int == root_index(rows@, m),
            effs@.len() == i,
            forall|m: int| 0 <= m < i ==> #[trigger] effs@[m] as int == tree_last_modified(rows@, m),
        decreases n - i,
    {
        let r = roots[i];
        let mut best: Option<i128> = None;
        let mut j: usize = 0;
        while j < n
            invariant
                n == rows@.len(),
                j <= n,
                i < n,
                r as int == root_index(rows@, i as int),
                roots@.len() == n,
                forall|m: int| 0 <= m < n ==> #[trigger] roots@[m] as int == root_index(rows@, m),
                match best {
                    Some(b) => tree_max_upto(rows@, r as int, j as int) == Some(b as int),
                    None => tree_max_upto(rows@, r as int, j as int) is None,
                },
            decreases n - j,
        {
            if roots[j] == r {
                let t = rows[j].last_modified_at;
                best = match best {
                    Some(b) => if t > b {
                        Some(t)
                    } else {
                        Some(b)
                    },
                    None => Some(t),
                };
            }
            j = j + 1;
        }
        let e = match best {
            Some(b) => b,
            None => rows[i].last_modified_at,
        };
        effs.push(e);
        i = i + 1;
    }
    // Rows whose tree does not fit after all fresher trees.
    let mut ev: Vec<String> = Vec::new();
    let mut i: usize = 0;
    while i < n
        invariant
            n == rows@.len(),
            i <= n,
            roots@.len() == n,
            effs@.len() == n,
            forall|m: int| 0 <= m < n ==> #[trigger] roots@[m] as int == root_index(rows@, m),
            forall|m: int| 0 <= m < n ==> #[trigger] effs@[m] as int == tree_last_modified(rows@, m),
            string_views(ev@) == evicted_ids_upto(rows@, limit as int, i as int),
        decreases n - i,
    {
        let mut has_before = false;
        let mut count: usize = 0;
        let mut j: usize = 0;
        while j < n
            invariant
                n == rows@.len(),
                j <= n,
                i < n,
                roots@.len() == n,
                effs@.len() == n,
                forall|m: int| 0 <= m < n ==> #[trigger] roots@[m] as int == root_index(rows@, m),
                forall|m: int| 0 <= m < n ==> #[trigger] effs@[m] as int == tree_last_modified(rows@, m),
                has_before <==> exists|m: int| 0 <= m < j && tree_before(rows@, m, i as int),
                count as int == fresher_or_same_upto(rows@, i as int, j as int),
                count <= j,
            decreases n - j,
        {
            let before = tree_before_exec(rows, &roots, &effs, j, i);
            if before {
                has_before = true;
            }
            if before || roots[j] == roots[i] {
                count = count + 1;
            }
            j = j + 1;
        }
        let ghost prev = string_views(ev@);
        if has_before && count > limit {
            ev.push(rows[i].conversation_id.clone());
            proof {
                assert(string_views(ev@) =~= prev.push(rows@[i as int].conversation_id@));
            }
        }
        i = i + 1;
    }
    sort_strings(ev)
}

// ---------------------------------------------------------------------------
// Laws
// ---------------------------------------------------------------------------

proof fn lemma_tree_max_some(rows: Seq<ConversationRecord>, i: int, k: int)
    requires
        0 <= i < k,
    ensures
        tree_max_upto(rows, root_index(rows, i), k) is Some,
    decreases k,
{
    if k - 1 != i {
        lemma_tree_max_some(rows, i, k - 1);
    }
}

/// Rows of one tree share its effective time and root id.
proof fn lemma_same_tree_same_key(rows: Seq<ConversationRecord>, i: int, j: int)
    requires
        0 <= i < rows.len(),
        0 <= j < rows.len(),
        same_tree(rows, i, j),
    ensures
        tree_last_modified(rows, i) == tree_last_modified(rows, j),
        tree_root_id(rows, i) == tree_root_id(rows, j),
{
    lemma_tree_max_some(rows, i, rows.len() as int);
    lemma_tree_max_some(rows, j, rows.len() as int);
}

proof fn lemma_fresher_or_same_upto_congruent(rows: Seq<ConversationRecord>, i: int, j: int, k: int)
    requires
        0 <= i < rows.len(),
        0 <= j < rows.len(),
        same_tree(rows, i, j),
        0 <= k,
    ensures
        fresher_or_same_upto(rows, i, k) == fresher_or_same_upto(rows, j, k),
    decreases k,
{
    lemma_same_tree_same_key(rows, i, j);
    if k > 0 {
        lemma_fresher_or_same_upto_congruent(rows, i, j, k - 1);
    }
}

/// Eviction never splits a tree: all rows of one tree share their fate.
pub proof fn lemma_eviction_never_splits_a_tree(rows: Seq<ConversationRecord>, limit: int, i: int, j: int)
    requires
        0 <= i < rows.len(),
        0 <= j < rows.len(),
        same_tree(rows, i, j),
    ensures
        is_evicted(rows, limit, i) == is_evicted(rows, limit, j),
{
    lemma_same_tree_same_key(rows, i, j);
    lemma_fresher_or_same_upto_congruent(rows, i, j, rows.len() as int);
    assert forall|x: int| #[trigger] tree_before(rows, x, i) == tree_before(rows, x, j) by {}
    if exists|x: int| 0 <= x < rows.len() && tree_before(rows, x, i) {
        let w = choose|x: int| 0 <= x < rows.len() && tree_before(rows, x, i);
        assert(tree_before(rows, w, j));
    }
    if exists|x: int| 0 <= x < rows.len() && tree_before(rows, x, j) {
        let w = choose|x: int| 0 <= x < rows.len() && tree_before(rows, x, j);
        assert(tree_before(rows, w, i));
    }
}

/// The freshest tree is always kept, even when it alone exceeds the limit.
pub proof fn lemma_freshest_tree_is_kept(rows: Seq<ConversationRecord>, limit: int, i: int)
    requires
        0 <= i < rows.len(),
        forall|j: int| 0 <= j < rows.len() ==> !tree_before(rows, j, i),
    ensures
        !is_evicted(rows, limit, i),
{
}

/// At or below the limit nothing is evicted.
pub proof fn lemma_no_eviction_within_limit(rows: Seq<ConversationRecord>, limit: int)
    requires
        rows.len() <= limit,
    ensures
        evicted_ids(rows, limit) == Seq::<Seq<char>>::empty(),
{
    lemma_nothing_evicted_within_limit(rows, limit, rows.len() as int);
    crate::text::lemma_chars_le_total_ordering();
    let e = evicted_ids_upto(rows, limit, rows.len() as int);
    e.lemma_sort_by_ensures(chars_leq_rel());
    vstd::seq_lib::to_multiset_len(e);
    vstd::seq_lib::to_multiset_len(e.sort_by(chars_leq_rel()));
    assert(e.sort_by(chars_leq_rel()) =~= Seq::<Seq<char>>::empty());
}

proof fn lemma_tree_before_transitive(rows: Seq<ConversationRecord>, a: int, b: int, c: int)
    requires
        tree_before(rows, a, b),
        tree_before(rows, b, c),
    ensures
        tree_before(rows, a, c),
{
    crate::text::lemma_chars_order_facts(tree_root_id(rows, a), tree_root_id(rows, b), tree_root_id(rows, c));
}

proof fn lemma_fresher_or_same_upto_monotone(rows: Seq<ConversationRecord>, i: int, j: int, k: int)
    requires
        0 <= i < rows.len(),
        0 <= j < rows.len(),
        tree_before(rows, i, j),
        0 <= k <= rows.len(),
    ensures
        fresher_or_same_upto(rows, i, k) <= fresher_or_same_upto(rows, j, k),
    decreases k,
{
    if k > 0 {
        lemma_fresher_or_same_upto_monotone(rows, i, j, k - 1);
        let x = k - 1;
        if tree_before(rows, x, i) {
            lemma_tree_before_transitive(rows, x, i, j);
        } else if same_tree(rows, x, i) {
            lemma_same_tree_same_key(rows, x, i);
        }
    }
}

/// Once a tree is evicted, every older tree is evicted too.
pub proof fn lemma_eviction_is_a_suffix(rows: Seq<ConversationRecord>, limit: int, i: int, j: int)
    requires
        0 <= i < rows.len(),
        0 <= j < rows.len(),
        is_evicted(rows, limit, i),
        tree_before(rows, i, j),
    ensures
        is_evicted(rows, limit, j),
{
    lemma_fresher_or_same_upto_monotone(rows, i, j, rows.len() as int);
}

/// A kept tree that is not the freshest fits, together with every fresher
/// tree, within the limit.
pub proof fn lemma_kept_trees_fit(rows: Seq<ConversationRecord>, limit: int, i: int, j: int)
    requires
        0 <= i < rows.len(),
        0 <= j < rows.len(),
        tree_before(rows, j, i),
        !is_evicted(rows, limit, i),
    ensures
        fresher_or_same_upto(rows, i, rows.len() as int) <= limit,
{
}

proof fn lemma_walk_canonical(rows: Seq<ConversationRecord>, c: int, seen: Set<int>, fuel: nat)
    requires
        0 <= c < rows.len(),
        last_index(rows, rows[c].conversation_id@) == c,
    ensures
        last_index(rows, rows[walk(rows, c, seen, fuel)].conversation_id@) == walk(rows, c, seen, fuel),
    decreases fuel,
{
    if fuel > 0 && !seen.contains(c) {
        match parent_link(rows, c) {
            Some(d) => {
                let p = rows[c].parent_conversation_id->0;
                lemma_last_index_in_bounds(rows, p@, rows.len() as int);
                lemma_walk_canonical(rows, d, seen.insert(c), (fuel - 1) as nat);
            },
            None => {},
        }
    }
}

/// Rows are in the same tree exactly when their trees' root ids are equal,
/// so grouping by root row and grouping by root id agree.
pub proof fn lemma_same_tree_iff_same_root_id(rows: Seq<ConversationRecord>, i: int, j: int)
    requires
        0 <= i < rows.len(),
        0 <= j < rows.len(),
    ensures
        same_tree(rows, i, j) <==> tree_root_id(rows, i) == tree_root_id(rows, j),
{
    lemma_root_index_in_bounds(rows, i);
    lemma_root_index_in_bounds(rows, j);
    let si = rows[i].conversation_id@;
    let sj = rows[j].conversation_id@;
    lemma_last_index_in_bounds(rows, si, rows.len() as int);
    lemma_last_index_in_bounds(rows, sj, rows.len() as int);
    lemma_walk_canonical(rows, last_index(rows, si), Set::empty(), (rows.len() + 1) as nat);
    lemma_walk_canonical(rows, last_index(rows, sj), Set::empty(), (rows.len() + 1) as nat);
}

} // verus!
