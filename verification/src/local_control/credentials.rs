//! Scoped bearer credentials: the grants a credential broker issues, and
//! the in-memory store that the control endpoint checks bearer tokens
//! against. Times are milliseconds since the Unix epoch, read by the caller.
use vstd::prelude::*;
use crate::json::str_eq;
use crate::local_control::protocol::{ActionKind, ControlError, ErrorCode, InvocationContext};

verus! {

/// The most credentials the store keeps at once.
pub const MAX_ACTIVE_CREDENTIALS: usize = 128;

/// How long an issued credential stays valid, in milliseconds (five minutes).
pub const CREDENTIAL_TTL_MILLIS: i64 = 300_000;

/// What a bearer token allows: one action, for one instance, from one
/// invocation context, until it expires.
#[derive(Debug)]
pub struct CredentialGrant {
    pub instance_id: String,
    pub action: ActionKind,
    pub invocation_context: InvocationContext,
    pub issued_at: i64,
    pub expires_at: i64,
}

impl CredentialGrant {
    /// Whether the grant has expired at `now`.
    pub open spec fn expired_at(&self, now: i64) -> bool {
        self.expires_at <= now
    }

    /// A grant issued at `now`, valid for [`CREDENTIAL_TTL_MILLIS`].
    pub fn new(
        instance_id: String,
        action: ActionKind,
        invocation_context: InvocationContext,
        now: i64,
    ) -> (grant: CredentialGrant)
        requires
            now + CREDENTIAL_TTL_MILLIS <= i64::MAX,
        ensures
            grant.instance_id == instance_id,
            grant.action == action,
            grant.invocation_context == invocation_context,
            grant.issued_at == now,
            grant.expires_at == now + CREDENTIAL_TTL_MILLIS,
    {
        CredentialGrant {
            instance_id,
            action,
            invocation_context,
            issued_at: now,
            expires_at: now + CREDENTIAL_TTL_MILLIS,
        }
    }

    /// Whether the grant has expired at `now`.
    pub fn is_expired(&self, now: i64) -> (expired: bool)
        ensures
            expired == self.expired_at(now),
    {
        self.expires_at <= now
    }

    /// A copy of the grant.
    pub fn duplicate(&self) -> (copy: CredentialGrant)
        ensures
            copy == *self,
    {
        CredentialGrant {
            instance_id: self.instance_id.clone(),
            action: self.action,
            invocation_context: self.invocation_context,
            issued_at: self.issued_at,
            expires_at: self.expires_at,
        }
    }

    /// Whether the grant authorizes `action` on `instance_id` at `now`.
    pub open spec fn authorizes(&self, instance_id: Seq<char>, action: ActionKind, now: i64) -> bool {
        &&& self.instance_id@ == instance_id
        &&& self.action == action
        &&& !self.expired_at(now)
    }

    /// Checks that the grant authorizes `action` on `instance_id` at `now`.
    pub fn verify_for_action(&self, instance_id: &str, action: ActionKind, now: i64) -> (result: Result<(), ControlError>)
        ensures
            result is Ok <==> self.authorizes(instance_id@, action, now),
            match result {
                Ok(()) => true,
                Err(e) => e.code == ErrorCode::UnauthorizedLocalClient && e.message@ == (
                    if self.instance_id@ != instance_id@ {
                        "local-control credential was issued for a different instance"@
                    } else if self.action != action {
                        "local-control credential does not grant the requested action"@
                    } else {
                        "local-control credential has expired"@
                    }),
            },
    {
        if !str_eq(self.instance_id.as_str(), instance_id) {
            return Err(ControlError::new(
                ErrorCode::UnauthorizedLocalClient,
                "local-control credential was issued for a different instance".to_owned(),
            ));
        }
        if self.action != action {
            return Err(ControlError::new(
                ErrorCode::UnauthorizedLocalClient,
                "local-control credential does not grant the requested action".to_owned(),
            ));
        }
        if self.is_expired(now) {
            return Err(ControlError::new(
                ErrorCode::UnauthorizedLocalClient,
                "local-control credential has expired".to_owned(),
            ));
        }
        Ok(())
    }
}

/// A stored credential: the bearer secret and its grant.
pub type CredentialEntry = (String, CredentialGrant);

/// The entries whose grant has not expired at `now`, in order.
pub open spec fn live_entries(e: Seq<CredentialEntry>, now: i64) -> Seq<CredentialEntry>
    decreases e.len(),
{
    if e.len() == 0 {
        e
    } else if e.last().1.expired_at(now) {
        live_entries(e.drop_last(), now)
    } else {
        live_entries(e.drop_last(), now).push(e.last())
    }
}

/// No secret occurs twice.
pub open spec fn secrets_unique(e: Seq<CredentialEntry>) -> bool {
    forall|i: int, j: int| 0 <= i < j < e.len() ==> (#[trigger] e[i]).0@ != (#[trigger] e[j]).0@
}

/// Index of the entry for `secret`, if any.
pub open spec fn secret_index(e: Seq<CredentialEntry>, secret: Seq<char>) -> Option<int>
    decreases e.len(),
{
    if e.len() == 0 {
        None
    } else if e.last().0@ == secret {
        Some(e.len() - 1)
    } else {
        secret_index(e.drop_last(), secret)
    }
}

/// The grant stored for `secret`, if any.
pub open spec fn stored_grant(e: Seq<CredentialEntry>, secret: Seq<char>) -> Option<CredentialGrant> {
    match secret_index(e, secret) {
        Some(i) => Some(e[i].1),
        None => None,
    }
}

/// `e` with `secret` mapped to `grant`: its entry replaced in place, or a
/// new entry appended.
pub open spec fn upserted(e: Seq<CredentialEntry>, secret: String, grant: CredentialGrant) -> Seq<CredentialEntry> {
    match secret_index(e, secret@) {
        Some(i) => e.update(i, (secret, grant)),
        None => e.push((secret, grant)),
    }
}

/// Whether entry `j` was issued no later than every other entry.
pub open spec fn is_oldest(e: Seq<CredentialEntry>, j: int) -> bool {
    &&& 0 <= j < e.len()
    &&& forall|k: int| 0 <= k < e.len() ==> e[j].1.issued_at <= (#[trigger] e[k]).1.issued_at
}

/// The store of issued credentials, keyed by bearer secret.
pub struct CredentialStore {
    pub entries: Vec<CredentialEntry>,
}

proof fn lemma_secret_index(e: Seq<CredentialEntry>, secret: Seq<char>)
    ensures
        match secret_index(e, secret) {
            Some(i) => 0 <= i < e.len() && e[i].0@ == secret,
            None => forall|k: int| 0 <= k < e.len() ==> (#[trigger] e[k]).0@ != secret,
        },
    decreases e.len(),
{
    if e.len() > 0 {
        lemma_secret_index(e.drop_last(), secret);
        if e.last().0@ != secret {
            assert forall|k: int| 0 <= k < e.len() - 1 implies #[trigger] e[k] == e.drop_last()[k] by {}
        }
    }
}

proof fn lemma_secret_index_unique(e: Seq<CredentialEntry>, secret: Seq<char>, i: int)
    requires
        secrets_unique(e),
        0 <= i < e.len(),
        e[i].0@ == secret,
    ensures
        secret_index(e, secret) == Some(i),
{
    lemma_secret_index(e, secret);
    match secret_index(e, secret) {
        Some(j) => {
            if i < j {
                assert(e[i].0@ != e[j].0@);
            } else if j < i {
                assert(e[j].0@ != e[i].0@);
            }
        },
        None => {
            assert(e[i].0@ != secret);
        },
    }
}

/// Every live entry is an entry of `e`, and the live entries keep the
/// order of `e`: each is `e[f(k)]` for an increasing `f`.
proof fn lemma_live_entries(e: Seq<CredentialEntry>, now: i64)
    ensures
        live_entries(e, now).len() <= e.len(),
        forall|k: int| 0 <= k < live_entries(e, now).len() ==> !(#[trigger] live_entries(e, now)[k]).1.expired_at(now),
        forall|k: int| 0 <= k < live_entries(e, now).len() ==> exists|i: int| 0 <= i < e.len() && e[i] == #[trigger] live_entries(e, now)[k],
        secrets_unique(e) ==> secrets_unique(live_entries(e, now)),
        forall|i: int| 0 <= i < e.len() && !(#[trigger] e[i]).1.expired_at(now) ==> live_entries(e, now).contains(e[i]),
    decreases e.len(),
{
    if e.len() > 0 {
        let d = e.drop_last();
        lemma_live_entries(d, now);
        let l = live_entries(d, now);
        assert forall|k: int| 0 <= k < live_entries(e, now).len() implies exists|i: int| 0 <= i < e.len() && e[i] == #[trigger] live_entries(e, now)[k] by {
            if k < l.len() {
                let i = choose|i: int| 0 <= i < d.len() && d[i] == l[k];
                assert(e[i] == d[i]);
            } else {
                assert(e[e.len() - 1] == live_entries(e, now)[k]);
            }
        }
        if secrets_unique(e) {
            assert(secrets_unique(d)) by {
                assert forall|i: int, j: int| 0 <= i < j < d.len() implies (#[trigger] d[i]).0@ != (#[trigger] d[j]).0@ by {
                    assert(d[i] == e[i] && d[j] == e[j]);
                }
            }
            if !e.last().1.expired_at(now) {
                let r = live_entries(e, now);
                assert forall|i: int, j: int| 0 <= i < j < r.len() implies (#[trigger] r[i]).0@ != (#[trigger] r[j]).0@ by {
                    if j == r.len() - 1 {
                        let i2 = choose|i2: int| 0 <= i2 < d.len() && d[i2] == l[i];
                        assert(e[i2] == l[i]);
                        assert(e[i2].0@ != e[e.len() - 1].0@);
                    } else {
                        assert(r[i] == l[i] && r[j] == l[j]);
                    }
                }
            }
        }
        assert forall|i: int| 0 <= i < e.len() && !(#[trigger] e[i]).1.expired_at(now) implies live_entries(e, now).contains(e[i]) by {
            if i < e.len() - 1 {
                assert(e[i] == d[i]);
                assert(l.contains(d[i]));
                let k = choose|k: int| 0 <= k < l.len() && l[k] == d[i];
                if !e.last().1.expired_at(now) {
                    assert(live_entries(e, now)[k] == l[k]);
                }
            } else {
                assert(live_entries(e, now)[live_entries(e, now).len() - 1] == e[i]);
            }
        }
    }
}

proof fn lemma_remove_keeps_unique(e: Seq<CredentialEntry>, j: int)
    requires
        secrets_unique(e),
        0 <= j < e.len(),
    ensures
        secrets_unique(e.remove(j)),
{
    let r = e.remove(j);
    assert forall|a: int, b: int| 0 <= a < b < r.len() implies (#[trigger] r[a]).0@ != (#[trigger] r[b]).0@ by {
        let a2 = if a < j { a } else { a + 1 };
        let b2 = if b < j { b } else { b + 1 };
        assert(r[a] == e[a2] && r[b] == e[b2]);
        assert(e[a2].0@ != e[b2].0@);
    }
}

proof fn lemma_upserted(e: Seq<CredentialEntry>, secret: String, grant: CredentialGrant)
    requires
        secrets_unique(e),
    ensures
        secrets_unique(upserted(e, secret, grant)),
        stored_grant(upserted(e, secret, grant), secret@) == Some(grant),
        upserted(e, secret, grant).len() == e.len() + (if secret_index(e, secret@) is Some { 0int } else { 1int }),
{
    lemma_secret_index(e, secret@);
    let u = upserted(e, secret, grant);
    match secret_index(e, secret@) {
        Some(i) => {
            assert forall|a: int, b: int| 0 <= a < b < u.len() implies (#[trigger] u[a]).0@ != (#[trigger] u[b]).0@ by {
                if a != i && b != i {
                    assert(u[a] == e[a] && u[b] == e[b]);
                } else if a == i {
                    assert(u[b] == e[b]);
                    assert(e[i].0@ != e[b].0@);
                } else {
                    assert(u[a] == e[a]);
                    assert(e[a].0@ != e[i].0@);
                }
            }
            lemma_secret_index_unique(u, secret@, i);
        },
        None => {
            assert forall|a: int, b: int| 0 <= a < b < u.len() implies (#[trigger] u[a]).0@ != (#[trigger] u[b]).0@ by {
                if b == e.len() {
                    assert(u[a] == e[a]);
                } else {
                    assert(u[a] == e[a] && u[b] == e[b]);
                }
            }
            lemma_secret_index_unique(u, secret@, e.len() as int);
        },
    }
}

impl CredentialStore {
    /// Secrets are unique, and the store holds at most
    /// [`MAX_ACTIVE_CREDENTIALS`] credentials.
    pub open spec fn wf(&self) -> bool {
        &&& secrets_unique(self.entries@)
        &&& self.entries@.len() <= MAX_ACTIVE_CREDENTIALS
    }

    /// The grant stored for `secret`, if any.
    pub open spec fn grant_of(&self, secret: Seq<char>) -> Option<CredentialGrant> {
        stored_grant(self.entries@, secret)
    }

    /// An empty store.
    pub fn new() -> (store: CredentialStore)
        ensures
            store.wf(),
            store.entries@.len() == 0,
    {
        CredentialStore { entries: Vec::new() }
    }

    /// Stores `grant` under `secret`. Expired grants are dropped first; when
    /// the store is still full, the grant issued earliest leaves (any one of
    /// several issued at the same time); then `secret` is mapped to
    /// `grant`, replacing its previous grant if it had one.
    pub fn insert_credential(&mut self, secret: String, grant: CredentialGrant, now: i64)
        requires
            old(self).wf(),
        ensures
            final(self).wf(),
            live_entries(old(self).entries@, now).len() < MAX_ACTIVE_CREDENTIALS ==> final(self).entries@
                == upserted(live_entries(old(self).entries@, now), secret, grant),
            live_entries(old(self).entries@, now).len() >= MAX_ACTIVE_CREDENTIALS ==> exists|j: int|
                is_oldest(live_entries(old(self).entries@, now), j) && final(self).entries@
                    == upserted(live_entries(old(self).entries@, now).remove(j), secret, grant),
    {
        let n = self.entries.len();
        let mut live: Vec<CredentialEntry> = Vec::new();
        let mut i: usize = 0;
        while i < n
            invariant
                n == self.entries@.len(),
                i <= n,
                live@ == live_entries(self.entries@.take(i as int), now),
            decreases n - i,
        {
            assert(self.entries@.take(i + 1).drop_last() =~= self.entries@.take(i as int));
            if !self.entries[i].1.is_expired(now) {
                let entry = (self.entries[i].0.clone(), self.entries[i].1.duplicate());
                live.push(entry);
            }
            i = i + 1;
        }
        assert(self.entries@.take(n as int) =~= self.entries@);
        let ghost live0 = live@;
        proof {
            lemma_live_entries(self.entries@, now);
        }
        if live.len() >= MAX_ACTIVE_CREDENTIALS {
            let j = oldest_index(&live);
            live.remove(j);
            proof {
                lemma_remove_keeps_unique(live0, j as int);
            }
            let ghost evicted = live@;
            upsert(&mut live, secret, grant);
            assert(is_oldest(live0, j as int) && live@ == upserted(live0.remove(j as int), secret, grant));
        } else {
            upsert(&mut live, secret, grant);
        }
        self.entries = live;
        proof {
            lemma_insert_bounds_and_freshness(old(self).entries@, secret, grant, now, self.entries@);
        }
    }

    /// The grant for the bearer `secret`, checked for `instance_id` at `now`.
    /// An expired grant is removed first. An unknown (or just removed)
    /// secret, and a grant that does not authorize its own action on
    /// `instance_id`, are refused as unauthorized.
    pub fn lookup_credential(&mut self, secret: &str, instance_id: &str, now: i64) -> (result: Result<CredentialGrant, ControlError>)
        requires
            old(self).wf(),
        ensures
            final(self).wf(),
            match old(self).grant_of(secret@) {
                Some(g) => if g.expired_at(now) {
                    &&& final(self).entries@ == old(self).entries@.remove(secret_index(old(self).entries@, secret@)->0)
                    &&& final(self).grant_of(secret@) is None
                } else {
                    final(self).entries@ == old(self).entries@
                },
                None => final(self).entries@ == old(self).entries@,
            },
            match result {
                Ok(g) => old(self).grant_of(secret@) == Some(g) && g.authorizes(instance_id@, g.action, now),
                Err(e) => e.code == ErrorCode::UnauthorizedLocalClient && !(match old(self).grant_of(secret@) {
                    Some(g) => g.authorizes(instance_id@, g.action, now),
                    None => false,
                }) && e.message@ == (match old(self).grant_of(secret@) {
                    Some(g) => if g.expired_at(now) {
                        "local-control credential is invalid"@
                    } else {
                        "local-control credential was issued for a different instance"@
                    },
                    None => "local-control credential is invalid"@,
                }),
            },
    {
        let found = find_entry(&self.entries, secret);
        proof {
            lemma_secret_index(self.entries@, secret@);
        }
        match found {
            Some(i) => {
                if self.entries[i].1.is_expired(now) {
                    let ghost before = self.entries@;
                    self.entries.remove(i);
                    proof {
                        lemma_remove_keeps_unique(before, i as int);
                        lemma_secret_index(self.entries@, secret@);
                        if let Some(k) = secret_index(self.entries@, secret@) {
                            let k2 = if k < i { k } else { k + 1 };
                            assert(self.entries@[k] == before[k2]);
                            assert(before[k2].0@ != before[i as int].0@);
                        }
                    }
                    return Err(ControlError::new(
                        ErrorCode::UnauthorizedLocalClient,
                        "local-control credential is invalid".to_owned(),
                    ));
                }
                let grant = self.entries[i].1.duplicate();
                let action = grant.action;
                match grant.verify_for_action(instance_id, action, now) {
                    Ok(()) => Ok(grant),
                    Err(e) => Err(e),
                }
            },
            None => Err(ControlError::new(
                ErrorCode::UnauthorizedLocalClient,
                "local-control credential is invalid".to_owned(),
            )),
        }
    }
}

/// Index of the first entry issued no later than any other.
fn oldest_index(e: &Vec<CredentialEntry>) -> (j: usize)
    requires
        e@.len() > 0,
    ensures
        is_oldest(e@, j as int),
{
    let mut j: usize = 0;
    let mut i: usize = 1;
    while i < e.len()
        invariant
            0 < e@.len(),
            j < i <= e@.len(),
            forall|k: int| 0 <= k < i ==> e@[j as int].1.issued_at <= (#[trigger] e@[k]).1.issued_at,
        decreases e@.len() - i,
    {
        if e[i].1.issued_at < e[j].1.issued_at {
            j = i;
        }
        i = i + 1;
    }
    j
}

/// Index of the entry for `secret`.
fn find_entry(e: &Vec<CredentialEntry>, secret: &str) -> (index: Option<usize>)
    ensures
        match index {
            Some(i) => secret_index(e@, secret@) == Some(i as int),
            None => secret_index(e@, secret@) is None,
        },
{
    let mut i = e.len();
    assert(e@.take(i as int) =~= e@);
    while i > 0
        invariant
            i <= e@.len(),
            secret_index(e@, secret@) == secret_index(e@.take(i as int), secret@),
        decreases i,
    {
        assert(e@.take(i as int).drop_last() =~= e@.take(i - 1));
        if str_eq(e[i - 1].0.as_str(), secret) {
            return Some(i - 1);
        }
        i = i - 1;
    }
    None
}

/// Maps `secret` to `grant` in `e`.
fn upsert(e: &mut Vec<CredentialEntry>, secret: String, grant: CredentialGrant)
    requires
        secrets_unique(old(e)@),
    ensures
        secrets_unique(final(e)@),
        final(e)@ == upserted(old(e)@, secret, grant),
{
    proof {
        lemma_upserted(old(e)@, secret, grant);
        lemma_secret_index(old(e)@, secret@);
    }
    match find_entry(e, secret.as_str()) {
        Some(i) => {
            e.set(i, (secret, grant));
        },
        None => {
            e.push((secret, grant));
        },
    }
}

/// A credential stored under a secret is what a lookup of that secret at
/// the same time finds, as long as it has not expired and is checked for
/// the instance it was issued for.
pub proof fn lemma_inserted_credential_is_found(
    entries: Seq<CredentialEntry>,
    secret: String,
    grant: CredentialGrant,
)
    requires
        secrets_unique(entries),
    ensures
        stored_grant(upserted(entries, secret, grant), secret@) == Some(grant),
{
    lemma_upserted(entries, secret, grant);
}

/// After an insertion the store holds at most [`MAX_ACTIVE_CREDENTIALS`]
/// credentials, and every credential in it other than the one just
/// inserted was live at the time of the insertion.
pub proof fn lemma_insert_bounds_and_freshness(
    entries: Seq<CredentialEntry>,
    secret: String,
    grant: CredentialGrant,
    now: i64,
    after: Seq<CredentialEntry>,
)
    requires
        secrets_unique(entries),
        entries.len() <= MAX_ACTIVE_CREDENTIALS,
        live_entries(entries, now).len() < MAX_ACTIVE_CREDENTIALS ==> after == upserted(live_entries(entries, now), secret, grant),
        live_entries(entries, now).len() >= MAX_ACTIVE_CREDENTIALS ==> exists|j: int|
            is_oldest(live_entries(entries, now), j) && after == upserted(live_entries(entries, now).remove(j), secret, grant),
    ensures
        after.len() <= MAX_ACTIVE_CREDENTIALS,
        forall|k: int| 0 <= k < after.len() && (#[trigger] after[k]).0@ != secret@ ==> !after[k].1.expired_at(now),
{
    lemma_live_entries(entries, now);
    let live = live_entries(entries, now);
    let base = if live.len() >= MAX_ACTIVE_CREDENTIALS {
        let j = choose|j: int| is_oldest(live, j) && after == upserted(live.remove(j), secret, grant);
        lemma_remove_keeps_unique(live, j);
        live.remove(j)
    } else {
        live
    };
    lemma_upserted(base, secret, grant);
    lemma_secret_index(base, secret@);
    assert forall|k: int| 0 <= k < base.len() implies !(#[trigger] base[k]).1.expired_at(now) by {
        if live.len() >= MAX_ACTIVE_CREDENTIALS {
            let j = choose|j: int| is_oldest(live, j) && after == upserted(live.remove(j), secret, grant);
            let k2 = if k < j { k } else { k + 1 };
            assert(base[k] == live[k2]);
        }
    }
    assert forall|k: int| 0 <= k < after.len() && (#[trigger] after[k]).0@ != secret@ implies !after[k].1.expired_at(now) by {
        match secret_index(base, secret@) {
            Some(i) => {
                assert(k != i);
                assert(after[k] == base[k]);
            },
            None => {
                assert(after[k] == base[k]);
            },
        }
    }
}

} // verus!
