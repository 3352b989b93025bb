//! Reads of app-state metadata: the files open in code views.
use vstd::prelude::*;
use vstd::relations::sorted_by;
use crate::json::str_eq;
use crate::local_control::protocol::{action_name, ActionKind, ControlError, ErrorCode};
use crate::local_control::selectors::TargetSelector;
use crate::text::{
    chars_le, chars_leq_rel, chars_lt, concat, lemma_chars_le_total_ordering, lemma_chars_order_facts,
    sort_strings, string_views,
};

verus! {

/// Refuses window, tab, pane and session selectors on a read of app-state
/// metadata.
pub fn validate_instance_metadata_read_target(action: ActionKind, target: &TargetSelector) -> (result: Result<(), ControlError>)
    ensures
        result is Ok <==> (target.window is None && target.tab is None && target.pane is None && target.session is None),
        result matches Err(e) ==> e.code == ErrorCode::InvalidSelector
            && e.message@ == action_name(action) + " does not accept target selectors; it reads app-state metadata already represented in Warp"@,
{
    if target.window.is_some() || target.tab.is_some() || target.pane.is_some() || target.session.is_some() {
        return Err(ControlError::new(
            ErrorCode::InvalidSelector,
            concat(action.as_str(), " does not accept target selectors; it reads app-state metadata already represented in Warp"),
        ));
    }
    Ok(())
}

/// A file open in a code view.
#[derive(Debug, Clone)]
pub struct FileSummary {
    pub path: String,
    pub tab_id: Option<String>,
}

/// Whether the paths are in strictly increasing order.
pub open spec fn strictly_sorted(s: Seq<Seq<char>>) -> bool {
    forall|a: int, b: int| 0 <= a < b < s.len() ==> chars_lt(#[trigger] s[a], #[trigger] s[b])
}

/// The open files to report from the paths of the code-view tabs, in any
/// order with repeats: each path once, in lexicographic order.
pub fn open_file_summaries(paths: Vec<String>) -> (files: Vec<FileSummary>)
    ensures
        strictly_sorted(files@.map_values(|f: FileSummary| f.path@)),
        forall|p: Seq<char>| #![trigger string_views(paths@).contains(p)]
            string_views(paths@).contains(p) <==> files@.map_values(|f: FileSummary| f.path@).contains(p),
        forall|k: int| 0 <= k < files@.len() ==> (#[trigger] files@[k]).tab_id is None,
{
    let ghost leq = chars_leq_rel();
    proof {
        lemma_chars_le_total_ordering();
        string_views(paths@).lemma_sort_by_ensures(leq);
    }
    let ghost input = string_views(paths@);
    let sorted = sort_strings(paths);
    let ghost sv = string_views(sorted@);
    assert(sorted_by(sv, leq));
    let mut files: Vec<FileSummary> = Vec::new();
    let n = sorted.len();
    let mut i: usize = 0;
    while i < n
        invariant
            n == sorted@.len(),
            sv == string_views(sorted@),
            sorted_by(sv, leq),
            leq == chars_leq_rel(),
            i <= n,
            strictly_sorted(files@.map_values(|f: FileSummary| f.path@)),
            forall|k: int| 0 <= k < files@.len() ==> (#[trigger] files@[k]).tab_id is None,
            i > 0 ==> files@.len() > 0 && files@.last().path@ == sv[i - 1],
            i == 0 ==> files@.len() == 0,
            forall|p: Seq<char>| #![trigger sv.take(i as int).contains(p)]
                sv.take(i as int).contains(p) <==> files@.map_values(|f: FileSummary| f.path@).contains(p),
        decreases n - i,
    {
        let ghost before = files@.map_values(|f: FileSummary| f.path@);
        let ghost x = sv[i as int];
        assert(sorted@[i as int]@ == x);
        assert(sv.take(i + 1) =~= sv.take(i as int).push(x));
        let repeat = files.len() > 0 && str_eq(files[files.len() - 1].path.as_str(), sorted[i].as_str());
        if !repeat {
            proof {
                if i > 0 {
                    assert(leq(sv[i - 1], x));
                    assert(before.last() == sv[i - 1]);
                }
            }
            files.push(FileSummary { path: sorted[i].clone(), tab_id: None });
            proof {
                let after = files@.map_values(|f: FileSummary| f.path@);
                assert(after =~= before.push(x));
                assert forall|a: int, b: int| 0 <= a < b < after.len() implies chars_lt(#[trigger] after[a], #[trigger] after[b]) by {
                    if b < before.len() {
                        assert(after[a] == before[a] && after[b] == before[b]);
                    } else {
                        assert(after[b] == x);
                        assert(after[a] == before[a]);
                        if a < before.len() - 1 {
                            assert(chars_lt(before[a], before[before.len() - 1]));
                        }
                        lemma_chars_order_facts(before[a], before[before.len() - 1], x);
                    }
                }
                assert forall|p: Seq<char>| #![trigger sv.take(i + 1).contains(p)]
                    sv.take(i + 1).contains(p) <==> after.contains(p) by {
                    if sv.take(i + 1).contains(p) && p != x {
                        let t1 = sv.take(i + 1);
                        let j = choose|j: int| 0 <= j < t1.len() && t1[j] == p;
                        assert(sv.take(i as int)[j] == p);
                        assert(sv.take(i as int).contains(p));
                        let q = choose|q: int| 0 <= q < before.len() && before[q] == p;
                        assert(after[q] == p);
                    }
                    if after.contains(p) && p != x {
                        let q = choose|q: int| 0 <= q < after.len() && after[q] == p;
                        assert(before[q] == p);
                        assert(before.contains(p));
                        assert(sv.take(i as int).contains(p));
                        let t0 = sv.take(i as int);
                        let j = choose|j: int| 0 <= j < t0.len() && t0[j] == p;
                        assert(sv.take(i + 1)[j] == p);
                    }
                    if p == x {
                        assert(sv.take(i + 1)[i as int] == x);
                        assert(after[after.len() - 1] == x);
                    }
                }
            }
        } else {
            proof {
                assert(before.last() == x);
                assert forall|p: Seq<char>| #![trigger sv.take(i + 1).contains(p)]
                    sv.take(i + 1).contains(p) <==> before.contains(p) by {
                    if sv.take(i + 1).contains(p) && p != x {
                        let t1 = sv.take(i + 1);
                        let j = choose|j: int| 0 <= j < t1.len() && t1[j] == p;
                        assert(sv.take(i as int)[j] == p);
                        assert(sv.take(i as int).contains(p));
                    }
                    if before.contains(p) {
                        assert(sv.take(i as int).contains(p));
                        let t0 = sv.take(i as int);
                        let j = choose|j: int| 0 <= j < t0.len() && t0[j] == p;
                        assert(sv.take(i + 1)[j] == p);
                    }
                    if p == x {
                        assert(before[before.len() - 1] == x);
                    }
                }
            }
        }
        i = i + 1;
    }
    proof {
        assert(sv.take(n as int) =~= sv);
        input.lemma_sort_by_ensures(leq);
        input.to_multiset_ensures();
        sv.to_multiset_ensures();
        assert(sv == input.sort_by(leq));
        assert(input.to_multiset() == sv.to_multiset());
        assert forall|p: Seq<char>| #![trigger input.contains(p)] input.contains(p) <==> sv.contains(p) by {
            assert(input.contains(p) <==> input.to_multiset().count(p) > 0);
            assert(sv.contains(p) <==> sv.to_multiset().count(p) > 0);
        }
        assert forall|p: Seq<char>| #![trigger input.contains(p)]
            input.contains(p) <==> files@.map_values(|f: FileSummary| f.path@).contains(p) by {
            assert(sv.take(n as int).contains(p) == sv.contains(p));
            assert(input.contains(p) == sv.contains(p));
        }
    }
    files
}

} // verus!
