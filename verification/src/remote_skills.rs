//! The bundled-skill catalog snapshot a remote daemon pushes to clients.
use vstd::prelude::*;
use crate::skills::{
    activation_holds, mcp_integration_wire_id, ActivationEnvironment, BundledSkill,
    BundledSkillActivation, BundledSkillDefinition, McpIntegration,
};
use crate::text::{chars_le, chars_lt, lemma_chars_order_facts, str_lt};

verus! {

/// What a bundled skill of a remote catalog carries on the wire.
#[derive(Debug, Clone)]
pub struct BundledSkillMetadata {
    pub id: String,
    /// The wire id of the MCP integration the skill needs, if any.
    pub requires_mcp: Option<String>,
}

/// Where a remote skill comes from.
#[derive(Debug, Clone)]
pub enum RemoteSkillSource {
    Bundled(BundledSkillMetadata),
}

/// One skill of a remote host as pushed to clients.
#[derive(Debug, Clone)]
pub struct RemoteSkillProto {
    pub path: String,
    pub content: String,
    pub source: Option<RemoteSkillSource>,
}

/// The plain value of a pushed skill: path, content, and the bundled id
/// with the required MCP integration.
pub open spec fn proto_view(p: RemoteSkillProto) -> (Seq<char>, Seq<char>, Option<(Seq<char>, Option<Seq<char>>)>) {
    (p.path@, p.content@, match p.source {
        Some(RemoteSkillSource::Bundled(m)) => Some((m.id@, match m.requires_mcp {
            Some(w) => Some(w@),
            None => None,
        })),
        None => None,
    })
}

/// The plain values of a list of pushed skills.
pub open spec fn proto_views(s: Seq<RemoteSkillProto>) -> Seq<(Seq<char>, Seq<char>, Option<(Seq<char>, Option<Seq<char>>)>)> {
    s.map_values(|p: RemoteSkillProto| proto_view(p))
}

/// Whether a skill goes into the snapshot: a feature or file condition is
/// evaluated on the daemon, an MCP condition is left to the client.
pub open spec fn snapshot_keeps(activation: BundledSkillActivation, env: ActivationEnvironment) -> bool {
    match activation {
        BundledSkillActivation::RequiresFeature(_) | BundledSkillActivation::RequiresFile(_) => activation_holds(activation, env),
        _ => true,
    }
}

/// The wire id of the MCP integration an activation needs.
pub open spec fn required_mcp(activation: BundledSkillActivation) -> Option<Seq<char>> {
    match activation {
        BundledSkillActivation::RequiresMcp(McpIntegration::Figma) => Some("figma"@),
        _ => None,
    }
}

/// The pushed value of one catalog entry.
pub open spec fn snapshot_entry(entry: (String, BundledSkillDefinition)) -> (Seq<char>, Seq<char>, Option<(Seq<char>, Option<Seq<char>>)>) {
    (entry.1.skill.path@, entry.1.skill.content@, Some((entry.0@, required_mcp(entry.1.activation))))
}

/// The pushed values of the entries that go into the snapshot, in catalog
/// order.
pub open spec fn snapshot_views(defs: Seq<(String, BundledSkillDefinition)>, env: ActivationEnvironment) -> Seq<(Seq<char>, Seq<char>, Option<(Seq<char>, Option<Seq<char>>)>)>
    decreases defs.len(),
{
    if defs.len() == 0 {
        Seq::empty()
    } else if snapshot_keeps(defs.last().1.activation, env) {
        snapshot_views(defs.drop_last(), env).push(snapshot_entry(defs.last()))
    } else {
        snapshot_views(defs.drop_last(), env)
    }
}

/// Whether pushed skills are in order of their paths.
pub open spec fn paths_sorted(s: Seq<RemoteSkillProto>) -> bool {
    forall|a: int, b: int| 0 <= a < b < s.len() ==> chars_le((#[trigger] s[a]).path@, (#[trigger] s[b]).path@)
}

/// The pushed value of a skill: path, content, bundled id and required MCP.
pub type SkillView = (Seq<char>, Seq<char>, Option<(Seq<char>, Option<Seq<char>>)>);

/// Where a value with `path` goes: before the first value whose path is
/// greater, so after every value whose path is not.
pub open spec fn path_insert_position(v: Seq<SkillView>, path: Seq<char>) -> int
    decreases v.len(),
{
    if v.len() == 0 {
        0
    } else if chars_lt(path, v[0].0) {
        0
    } else {
        1 + path_insert_position(v.drop_first(), path)
    }
}

/// The values in order of their paths, values with equal paths in the
/// order they come in `s` (a stable sort by path).
pub open spec fn stably_sorted_by_path(s: Seq<SkillView>) -> Seq<SkillView>
    decreases s.len(),
{
    if s.len() == 0 {
        Seq::empty()
    } else {
        let sorted = stably_sorted_by_path(s.drop_last());
        sorted.insert(path_insert_position(sorted, s.last().0), s.last())
    }
}

proof fn lemma_path_insert_position(v: Seq<SkillView>, path: Seq<char>, p: int)
    requires
        0 <= p <= v.len(),
        forall|q: int| 0 <= q < p ==> !chars_lt(path, #[trigger] v[q].0),
        p == v.len() || chars_lt(path, v[p].0),
    ensures
        path_insert_position(v, path) == p,
    decreases p,
{
    if p > 0 {
        let rest = v.drop_first();
        assert(!chars_lt(path, v[0].0));
        assert forall|q: int| 0 <= q < p - 1 implies !chars_lt(path, #[trigger] rest[q].0) by {
            assert(rest[q] == v[q + 1]);
        }
        if p < v.len() {
            assert(rest[p - 1] == v[p]);
        }
        lemma_path_insert_position(rest, path, p - 1);
    }
}

/// Inserts `x` after the skills whose path is not greater than its own.
fn insert_by_path(out: &mut Vec<RemoteSkillProto>, x: RemoteSkillProto)
    requires
        paths_sorted(old(out)@),
    ensures
        paths_sorted(final(out)@),
        proto_views(final(out)@).to_multiset() == proto_views(old(out)@).to_multiset().insert(proto_view(x)),
        proto_views(final(out)@) == proto_views(old(out)@).insert(
            path_insert_position(proto_views(old(out)@), x.path@),
            proto_view(x),
        ),
{
    let len = out.len();
    let mut p: usize = 0;
    while p < len && !str_lt(x.path.as_str(), out[p].path.as_str())
        invariant
            len == out@.len(),
            p <= len,
            forall|q: int| 0 <= q < p ==> chars_le((#[trigger] out@[q]).path@, x.path@),
            forall|q: int| 0 <= q < p ==> !chars_lt(x.path@, (#[trigger] out@[q]).path@),
        decreases len - p,
    {
        proof {
            lemma_chars_order_facts(x.path@, out@[p as int].path@, x.path@);
        }
        p = p + 1;
    }
    let ghost before = out@;
    let ghost xp = x.path@;
    let ghost xv = proto_view(x);
    out.insert(p, x);
    proof {
        let after = out@;
        assert(after == before.insert(p as int, after[p as int]));
        assert(proto_views(after) =~= proto_views(before).insert(p as int, xv));
        let bv = proto_views(before);
        assert forall|q: int| 0 <= q < p implies !chars_lt(xp, #[trigger] bv[q].0) by {
            assert(bv[q].0 == before[q].path@);
        }
        if p < len {
            assert(bv[p as int].0 == before[p as int].path@);
        }
        lemma_path_insert_position(bv, xp, p as int);
        vstd::seq_lib::to_multiset_insert(proto_views(before), p as int, xv);
        if p < len {
            assert(chars_lt(xp, before[p as int].path@));
        }
        assert forall|a: int, b: int| 0 <= a < b < after.len() implies chars_le((#[trigger] after[a]).path@, (#[trigger] after[b]).path@) by {
            if b < p {
                assert(after[a] == before[a] && after[b] == before[b]);
            } else if b == p {
                assert(after[a] == before[a]);
            } else if a < p {
                assert(after[b] == before[b - 1]);
                assert(after[a] == before[a]);
                if b - 1 > p {
                    assert(chars_le(before[p as int].path@, before[b - 1].path@));
                }
                lemma_chars_order_facts(before[a].path@, xp, before[p as int].path@);
                lemma_chars_order_facts(before[a].path@, before[p as int].path@, before[b - 1].path@);
                lemma_chars_order_facts(xp, before[p as int].path@, before[b - 1].path@);
            } else if a == p {
                assert(after[b] == before[b - 1]);
                if b - 1 > p {
                    assert(chars_le(before[p as int].path@, before[b - 1].path@));
                }
                lemma_chars_order_facts(xp, before[p as int].path@, before[b - 1].path@);
            } else {
                assert(after[a] == before[a - 1]);
                assert(after[b] == before[b - 1]);
            }
        }
    }
}

/// The snapshot of a daemon-side catalog that the daemon pushes to
/// clients: the skills whose feature or file condition holds in `env` (an
/// MCP condition travels with the skill), in order of their paths, skills
/// with equal paths in catalog order.
pub fn bundled_skill_snapshot_protos(catalog: &BundledSkill, env: &ActivationEnvironment) -> (protos: Vec<RemoteSkillProto>)
    ensures
        proto_views(protos@) == stably_sorted_by_path(snapshot_views(catalog.definitions@, *env)),
        paths_sorted(protos@),
        proto_views(protos@).to_multiset() == snapshot_views(catalog.definitions@, *env).to_multiset(),
{
    let defs = &catalog.definitions;
    let n = defs.len();
    let mut protos: Vec<RemoteSkillProto> = Vec::new();
    let mut i: usize = 0;
    assert(proto_views(protos@) =~= snapshot_views(defs@.take(0), *env));
    while i < n
        invariant
            n == defs@.len(),
            i <= n,
            paths_sorted(protos@),
            proto_views(protos@).to_multiset() == snapshot_views(defs@.take(i as int), *env).to_multiset(),
            proto_views(protos@) == stably_sorted_by_path(snapshot_views(defs@.take(i as int), *env)),
        decreases n - i,
    {
        let entry = &defs[i];
        let activation = &entry.1.activation;
        let (keep, requires_mcp): (bool, Option<String>) = match activation {
            BundledSkillActivation::Always => (true, None),
            BundledSkillActivation::RequiresMcp(integration) => (true, Some(mcp_integration_wire_id(*integration).to_owned())),
            BundledSkillActivation::RequiresFeature(_) | BundledSkillActivation::RequiresFile(_) => (activation.is_enabled(env), None),
        };
        proof {
            let prefix = defs@.take(i + 1);
            assert(prefix.drop_last() =~= defs@.take(i as int));
            assert(prefix.last() == defs@[i as int]);
        }
        if keep {
            let proto = RemoteSkillProto {
                path: entry.1.skill.path.clone(),
                content: entry.1.skill.content.clone(),
                source: Some(RemoteSkillSource::Bundled(BundledSkillMetadata { id: entry.0.clone(), requires_mcp })),
            };
            let ghost view = proto_view(proto);
            assert(view == snapshot_entry(defs@[i as int]));
            insert_by_path(&mut protos, proto);
            proof {
                let prev = snapshot_views(defs@.take(i as int), *env);
                vstd::seq_lib::to_multiset_build(prev, view);
                assert(prev.push(view).drop_last() =~= prev);
            }
        }
        i = i + 1;
    }
    assert(defs@.take(n as int) =~= defs@);
    protos
}

/// The pushed values in order of their paths.
pub open spec fn views_sorted(v: Seq<(Seq<char>, Seq<char>, Option<(Seq<char>, Option<Seq<char>>)>)>) -> bool {
    forall|a: int, b: int| 0 <= a < b < v.len() ==> chars_le((#[trigger] v[a]).0, (#[trigger] v[b]).0)
}

/// No two pushed values share a path.
pub open spec fn views_paths_distinct(v: Seq<(Seq<char>, Seq<char>, Option<(Seq<char>, Option<Seq<char>>)>)>) -> bool {
    forall|a: int, b: int| 0 <= a < b < v.len() ==> (#[trigger] v[a]).0 != (#[trigger] v[b]).0
}

proof fn lemma_sorted_views_unique(
    x: Seq<(Seq<char>, Seq<char>, Option<(Seq<char>, Option<Seq<char>>)>)>,
    y: Seq<(Seq<char>, Seq<char>, Option<(Seq<char>, Option<Seq<char>>)>)>,
)
    requires
        views_sorted(x),
        views_sorted(y),
        views_paths_distinct(x),
        x.to_multiset() == y.to_multiset(),
    ensures
        x == y,
    decreases x.len(),
{
    x.to_multiset_ensures();
    y.to_multiset_ensures();
    if x.len() == 0 {
        assert(y.len() == 0);
        assert(x =~= y);
    } else {
        assert(y.len() == x.len());
        assert(y.to_multiset().count(x[0]) > 0);
        let j = choose|j: int| 0 <= j < y.len() && y[j] == x[0];
        assert(x.to_multiset().count(y[0]) > 0);
        let k = choose|k: int| 0 <= k < x.len() && x[k] == y[0];
        lemma_chars_order_facts(x[0].0, y[0].0, x[0].0);
        if j > 0 {
            assert(chars_le(y[0].0, y[j].0));
        }
        if k > 0 {
            assert(chars_le(x[0].0, x[k].0));
        }
        assert(x[0].0 == y[0].0);
        if k > 0 {
            assert(x[0].0 != x[k].0);
        }
        assert(x[0] == y[0]);
        let xs = x.drop_first();
        let ys = y.drop_first();
        assert(x.remove(0) =~= xs);
        assert(y.remove(0) =~= ys);
        assert(xs.to_multiset() == ys.to_multiset());
        assert forall|a: int, b: int| 0 <= a < b < xs.len() implies chars_le((#[trigger] xs[a]).0, (#[trigger] xs[b]).0) by {
            assert(xs[a] == x[a + 1] && xs[b] == x[b + 1]);
        }
        assert forall|a: int, b: int| 0 <= a < b < ys.len() implies chars_le((#[trigger] ys[a]).0, (#[trigger] ys[b]).0) by {
            assert(ys[a] == y[a + 1] && ys[b] == y[b + 1]);
        }
        assert forall|a: int, b: int| 0 <= a < b < xs.len() implies (#[trigger] xs[a]).0 != (#[trigger] xs[b]).0 by {
            assert(xs[a] == x[a + 1] && xs[b] == x[b + 1]);
        }
        lemma_sorted_views_unique(xs, ys);
        assert(x =~= seq![x[0]] + xs);
        assert(y =~= seq![y[0]] + ys);
    }
}

/// Snapshots are deterministic: two snapshots in order of their paths that
/// hold the same pushed values, with no path twice, are the same list,
/// whatever order the catalogs listed their skills in.
pub proof fn lemma_snapshot_order_is_deterministic(a: Seq<RemoteSkillProto>, b: Seq<RemoteSkillProto>)
    requires
        paths_sorted(a),
        paths_sorted(b),
        views_paths_distinct(proto_views(a)),
        proto_views(a).to_multiset() == proto_views(b).to_multiset(),
    ensures
        proto_views(a) == proto_views(b),
{
    let x = proto_views(a);
    let y = proto_views(b);
    assert forall|i: int, j: int| 0 <= i < j < x.len() implies chars_le((#[trigger] x[i]).0, (#[trigger] x[j]).0) by {
        assert(x[i].0 == a[i].path@ && x[j].0 == a[j].path@);
    }
    assert forall|i: int, j: int| 0 <= i < j < y.len() implies chars_le((#[trigger] y[i]).0, (#[trigger] y[j]).0) by {
        assert(y[i].0 == b[i].path@ && y[j].0 == b[j].path@);
    }
    lemma_sorted_views_unique(x, y);
}

} // verus!
