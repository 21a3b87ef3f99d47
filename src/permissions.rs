//! Permission grants: named capabilities held by an identity. Names are
//! opaque and compared exactly. The store is a database table that the
//! application drives; this module decides what a grant writes, reads grant
//! rows into permission names, and states what grant and revoke do to the
//! table.
use vstd::prelude::*;

verus! {

/// One grant row: `name` is granted to the identity `gh_user_id`.
#[derive(Debug, Clone)]
pub struct Permission {
    /// Surrogate key of the row.
    pub id: i32,
    /// The identity the permission is granted to.
    pub gh_user_id: i64,
    /// The name of the permission.
    pub name: String,
}

/// A grant as the table's uniqueness rule sees it: identity and name.
pub type GrantKey = (i64, Seq<char>);

impl View for Permission {
    type V = GrantKey;

    open spec fn view(&self) -> GrantKey {
        (self.gh_user_id, self.name@)
    }
}

/// The grant table: its rows' keys, in storage order.
pub type GrantTable = Seq<GrantKey>;

pub open spec fn grant_keys(rows: Seq<Permission>) -> GrantTable {
    rows.map_values(|p: Permission| p@)
}

/// At most one row per (identity, name) pair.
pub open spec fn grants_unique(t: GrantTable) -> bool {
    forall|i: int, j: int| 0 <= i < t.len() && 0 <= j < t.len() && i != j ==> t[i] != t[j]
}

/// The names granted to `uid`.
pub open spec fn names_of(t: GrantTable, uid: i64) -> Set<Seq<char>> {
    Set::new(|n: Seq<char>| t.contains((uid, n)))
}

/// The names of a sequence of rows, in order.
pub open spec fn row_names(rows: Seq<Permission>) -> Seq<Seq<char>> {
    rows.map_values(|p: Permission| p.name@)
}

/// The texts of a sequence of strings.
pub open spec fn strings_view(v: Seq<String>) -> Seq<Seq<char>> {
    v.map_values(|s: String| s@)
}

/// What a grant writes.
pub enum GrantPlan {
    /// Insert a row granting `name` to `gh_user_id`.
    Insert { gh_user_id: i64, name: String },
    /// The grant exists already: write nothing.
    AlreadyGranted,
}

pub enum GrantPlanView {
    Insert(GrantKey),
    AlreadyGranted,
}

impl View for GrantPlan {
    type V = GrantPlanView;

    open spec fn view(&self) -> GrantPlanView {
        match self {
            GrantPlan::Insert { gh_user_id, name } => GrantPlanView::Insert((*gh_user_id, name@)),
            GrantPlan::AlreadyGranted => GrantPlanView::AlreadyGranted,
        }
    }
}

/// The write a grant makes, given the rows a lookup found: none when the pair
/// is there already, else an insert of it.
pub open spec fn grant_plan(found: GrantTable, key: GrantKey) -> GrantPlanView {
    if found.contains(key) {
        GrantPlanView::AlreadyGranted
    } else {
        GrantPlanView::Insert(key)
    }
}

/// The table after a planned grant write.
pub open spec fn apply_grant(t: GrantTable, plan: GrantPlanView) -> GrantTable {
    match plan {
        GrantPlanView::Insert(key) => t.push(key),
        GrantPlanView::AlreadyGranted => t,
    }
}

/// The table after a grant decided on a lookup of the whole table.
pub open spec fn grant(t: GrantTable, key: GrantKey) -> GrantTable {
    apply_grant(t, grant_plan(t, key))
}

/// The table after deleting every row with the key.
pub open spec fn revoke(t: GrantTable, key: GrantKey) -> GrantTable
    decreases t.len(),
{
    if t.len() == 0 {
        t
    } else if t.last() == key {
        revoke(t.drop_last(), key)
    } else {
        revoke(t.drop_last(), key).push(t.last())
    }
}

/// The number of rows a revoke deletes.
pub open spec fn revoked_count(t: GrantTable, key: GrantKey) -> nat {
    (t.len() - revoke(t, key).len()) as nat
}

impl Permission {
    /// Decides the write that grants `permission_name` to `user_id`, from the
    /// rows a lookup of that pair found: nothing when one is there, else an
    /// insert. Granting is thereby idempotent.
    pub fn grant_permission(found: &Vec<Permission>, user_id: i64, permission_name: &str) -> (r:
        GrantPlan)
        ensures
            r@ == grant_plan(grant_keys(found@), (user_id, permission_name@)),
    {
        let wanted = String::from_str(permission_name);
        let mut i: usize = 0;
        while i < found.len()
            invariant
                0 <= i <= found.len(),
                wanted@ == permission_name@,
                forall|j: int| 0 <= j < i ==> found@[j]@ != (user_id, permission_name@),
            decreases found.len() - i,
        {
            let p = &found[i];
            if p.gh_user_id == user_id && p.name == wanted {
                assert(grant_keys(found@)[i as int] == (user_id, permission_name@));
                return GrantPlan::AlreadyGranted;
            }
            i = i + 1;
        }
        proof {
            let keys = grant_keys(found@);
            if keys.contains((user_id, permission_name@)) {
                let j = choose|j: int| 0 <= j < keys.len() && keys[j] == (user_id, permission_name@);
                assert(found@[j]@ == keys[j]);
            }
        }
        GrantPlan::Insert { gh_user_id: user_id, name: wanted }
    }

    /// The names of the given grant rows, in their order.
    pub fn names(perms: &Vec<Permission>) -> (r: Vec<String>)
        ensures
            strings_view(r@) == row_names(perms@),
    {
        let mut r: Vec<String> = Vec::new();
        let mut i: usize = 0;
        while i < perms.len()
            invariant
                0 <= i <= perms.len(),
                r@.len() == i,
                forall|j: int| 0 <= j < i ==> (#[trigger] r@[j])@ == perms@[j].name@,
            decreases perms.len() - i,
        {
            r.push(perms[i].name.clone());
            i = i + 1;
        }
        assert(strings_view(r@) =~= row_names(perms@));
        r
    }
}

/// A grant decided on the rows that a lookup of the pair found is the grant
/// decided on the whole table, whenever the lookup finds the pair exactly
/// when the table holds it.
pub proof fn lemma_grant_plan_from_lookup(t: GrantTable, found: GrantTable, key: GrantKey)
    requires
        found.contains(key) <==> t.contains(key),
    ensures
        grant_plan(found, key) == grant_plan(t, key),
        apply_grant(t, grant_plan(found, key)) == grant(t, key),
{
}

proof fn lemma_contains_split(t: GrantTable, k: GrantKey)
    requires
        t.len() > 0,
    ensures
        t.contains(k) <==> (t.drop_last().contains(k) || t.last() == k),
{
    if t.contains(k) {
        let i = choose|i: int| 0 <= i < t.len() && t[i] == k;
        if i < t.len() - 1 {
            assert(t.drop_last()[i] == k);
        }
    }
    if t.drop_last().contains(k) {
        let i = choose|i: int| 0 <= i < t.drop_last().len() && t.drop_last()[i] == k;
        assert(t[i] == k);
    }
    if t.last() == k {
        assert(t[t.len() - 1] == k);
    }
}

proof fn lemma_push_contains(t: GrantTable, x: GrantKey, k: GrantKey)
    ensures
        t.push(x).contains(k) <==> (t.contains(k) || x == k),
{
    lemma_contains_split(t.push(x), k);
    assert(t.push(x).drop_last() =~= t);
}

/// The rows a revoke keeps are those of the table without the key.
pub proof fn lemma_revoke_keeps(t: GrantTable, key: GrantKey)
    ensures
        !revoke(t, key).contains(key),
        revoke(t, key).len() <= t.len(),
        forall|k: GrantKey| k != key ==> (revoke(t, key).contains(k) <==> t.contains(k)),
    decreases t.len(),
{
    if t.len() > 0 {
        lemma_revoke_keeps(t.drop_last(), key);
        let r0 = revoke(t.drop_last(), key);
        assert forall|k: GrantKey| k != key implies (revoke(t, key).contains(k) <==> t.contains(
            k,
        )) by {
            lemma_contains_split(t, k);
            lemma_push_contains(r0, t.last(), k);
        }
        lemma_push_contains(r0, t.last(), key);
    }
}

/// Revoking a pair that has no row deletes nothing and leaves the table as
/// it was.
pub proof fn lemma_revoke_absent(t: GrantTable, key: GrantKey)
    requires
        !t.contains(key),
    ensures
        revoke(t, key) == t,
        revoked_count(t, key) == 0,
    decreases t.len(),
{
    if t.len() > 0 {
        assert(!t.drop_last().contains(key)) by {
            if t.drop_last().contains(key) {
                let i = choose|i: int| 0 <= i < t.drop_last().len() && t.drop_last()[i] == key;
                assert(t[i] == key);
            }
        }
        assert(t.last() != key) by {
            assert(t[t.len() - 1] == t.last());
        }
        lemma_revoke_absent(t.drop_last(), key);
        assert(revoke(t, key) =~= t);
    }
}

/// Granting the same pair twice leaves exactly one row for it: the second
/// grant writes nothing, the uniqueness rule holds, and the identity's names
/// include the granted one.
pub proof fn lemma_grant_twice(t: GrantTable, key: GrantKey)
    requires
        grants_unique(t),
    ensures
        grant_plan(grant(t, key), key) == GrantPlanView::AlreadyGranted,
        grant(grant(t, key), key) == grant(t, key),
        grants_unique(grant(t, key)),
        grant(t, key).contains(key),
        forall|i: int, j: int|
            0 <= i < grant(t, key).len() && 0 <= j < grant(t, key).len() && grant(t, key)[i]
                == key && grant(t, key)[j] == key ==> i == j,
        names_of(grant(grant(t, key), key), key.0).contains(key.1),
{
    let g = grant(t, key);
    if t.contains(key) {
        assert(g == t);
    } else {
        assert(g[t.len() as int] == key);
        assert forall|i: int, j: int| 0 <= i < g.len() && 0 <= j < g.len() && i != j implies g[i]
            != g[j] by {
            if i < t.len() && j < t.len() {
                assert(g[i] == t[i] && g[j] == t[j]);
            } else if i < t.len() {
                assert(g[i] == t[i]);
            } else if j < t.len() {
                assert(g[j] == t[j]);
            }
        }
    }
    assert(g.contains(key));
    assert(names_of(g, key.0).contains(key.1));
}

} // verus!
