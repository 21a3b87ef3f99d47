//! The identity cache: locally known users, keyed by the id the OAuth
//! provider issued. Storage itself is a database that the application
//! drives; this module decides what an upsert writes and states what the
//! table holds afterwards.
use vstd::prelude::*;

verus! {

/// A user as the OAuth provider knows them, cached locally. The id persists
/// across renames; the login is the human-readable name.
#[derive(Debug, Clone)]
pub struct GhUserRecord {
    /// Provider-issued id, the primary key.
    pub id: i64,
    /// The user's human-readable name.
    pub login: String,
    /// Url of the user's picture.
    pub avatar_url: String,
    /// Url of the user's provider profile.
    pub html_url: String,
}

/// The value of a `GhUserRecord`.
pub struct IdentityView {
    pub id: i64,
    pub login: Seq<char>,
    pub avatar_url: Seq<char>,
    pub html_url: Seq<char>,
}

impl View for GhUserRecord {
    type V = IdentityView;

    open spec fn view(&self) -> IdentityView {
        IdentityView {
            id: self.id,
            login: self.login@,
            avatar_url: self.avatar_url@,
            html_url: self.html_url@,
        }
    }
}

/// The identity table: each stored record under its id.
pub type IdentityTable = Map<i64, IdentityView>;

pub open spec fn identity_table_wf(t: IdentityTable) -> bool {
    forall|k: i64| #[trigger] t.contains_key(k) ==> t[k].id == k
}

/// The record an upsert with these arguments stores.
pub open spec fn identity_of(
    id: i64,
    login: Seq<char>,
    avatar_url: Seq<char>,
    html_url: Seq<char>,
) -> IdentityView {
    IdentityView { id, login, avatar_url, html_url }
}

/// True when a stored record already carries every field of `incoming`.
pub open spec fn same_fields(stored: IdentityView, incoming: IdentityView) -> bool {
    &&& stored.login == incoming.login
    &&& stored.avatar_url == incoming.avatar_url
    &&& stored.html_url == incoming.html_url
}

/// What an upsert writes to the identity table.
pub enum UpsertPlan {
    /// No record had the id: insert this one.
    Insert(GhUserRecord),
    /// A record had the id but differed: overwrite it with this one.
    Update(GhUserRecord),
    /// The stored record already matches: write nothing.
    Unchanged,
}

pub enum UpsertPlanView {
    Insert(IdentityView),
    Update(IdentityView),
    Unchanged,
}

impl View for UpsertPlan {
    type V = UpsertPlanView;

    open spec fn view(&self) -> UpsertPlanView {
        match self {
            UpsertPlan::Insert(r) => UpsertPlanView::Insert(r@),
            UpsertPlan::Update(r) => UpsertPlanView::Update(r@),
            UpsertPlan::Unchanged => UpsertPlanView::Unchanged,
        }
    }
}

/// The write an upsert of `incoming` makes, given what a lookup by its id
/// found: insert when absent, update only when some field differs.
pub open spec fn upsert_plan(existing: Option<IdentityView>, incoming: IdentityView) -> UpsertPlanView {
    match existing {
        None => UpsertPlanView::Insert(incoming),
        Some(stored) => if same_fields(stored, incoming) {
            UpsertPlanView::Unchanged
        } else {
            UpsertPlanView::Update(incoming)
        },
    }
}

/// The identity table after a planned write.
pub open spec fn apply_upsert(t: IdentityTable, plan: UpsertPlanView) -> IdentityTable {
    match plan {
        UpsertPlanView::Insert(r) => t.insert(r.id, r),
        UpsertPlanView::Update(r) => t.insert(r.id, r),
        UpsertPlanView::Unchanged => t,
    }
}

/// How many writes a plan makes.
pub open spec fn plan_writes(plan: UpsertPlanView) -> nat {
    match plan {
        UpsertPlanView::Unchanged => 0,
        _ => 1,
    }
}

/// The lookup by id that starts an upsert.
pub open spec fn lookup(t: IdentityTable, id: i64) -> Option<IdentityView> {
    if t.contains_key(id) {
        Some(t[id])
    } else {
        None
    }
}

/// The identity table after an upsert of `incoming`.
pub open spec fn upsert(t: IdentityTable, incoming: IdentityView) -> IdentityTable {
    apply_upsert(t, upsert_plan(lookup(t, incoming.id), incoming))
}

fn copy_string(s: &String) -> (r: String)
    ensures
        r@ == s@,
{
    s.clone()
}

fn string_from(s: &str) -> (r: String)
    ensures
        r@ == s@,
{
    String::from_str(s)
}

impl GhUserRecord {
    /// A record with the given fields.
    pub fn new(id: i64, login: &str, avatar_url: &str, html_url: &str) -> (r: GhUserRecord)
        ensures
            r@ == identity_of(id, login@, avatar_url@, html_url@),
    {
        GhUserRecord {
            id,
            login: string_from(login),
            avatar_url: string_from(avatar_url),
            html_url: string_from(html_url),
        }
    }

    /// A field-by-field copy.
    pub fn duplicate(&self) -> (r: GhUserRecord)
        ensures
            r@ == self@,
    {
        GhUserRecord {
            id: self.id,
            login: copy_string(&self.login),
            avatar_url: copy_string(&self.avatar_url),
            html_url: copy_string(&self.html_url),
        }
    }

    /// Decides the write that makes the identity table hold the given
    /// fields under `gh_id`, from what a lookup of `gh_id` found: insert when
    /// nothing was found, update only when a field differs, else nothing.
    pub fn find_and_update(
        existing: Option<&GhUserRecord>,
        gh_id: i64,
        gh_login: &str,
        gh_avatar_url: &str,
        gh_html_url: &str,
    ) -> (r: UpsertPlan)
        ensures
            r@ == upsert_plan(
                match existing {
                    Some(u) => Some(u@),
                    None => None,
                },
                identity_of(gh_id, gh_login@, gh_avatar_url@, gh_html_url@),
            ),
    {
        let incoming = GhUserRecord::new(gh_id, gh_login, gh_avatar_url, gh_html_url);
        match existing {
            None => UpsertPlan::Insert(incoming),
            Some(u) => {
                if incoming.login == u.login && incoming.avatar_url == u.avatar_url
                    && incoming.html_url == u.html_url {
                    UpsertPlan::Unchanged
                } else {
                    UpsertPlan::Update(incoming)
                }
            },
        }
    }

    /// The record an upsert hands back: the one the table holds after its
    /// write, read back by id. Absence there means the write was lost.
    pub fn upserted(reloaded: Option<GhUserRecord>) -> (r: Result<GhUserRecord, crate::models::ModelError>)
        ensures
            match reloaded {
                Some(u) => r == Ok::<GhUserRecord, crate::models::ModelError>(u),
                None => r == Err::<GhUserRecord, crate::models::ModelError>(
                    crate::models::ModelError::NotFound,
                ),
            },
    {
        match reloaded {
            Some(u) => Ok(u),
            None => Err(crate::models::ModelError::NotFound),
        }
    }
}

/// After an upsert the table holds exactly the incoming record under its id,
/// every other id keeps its record, and the table stays well formed.
pub proof fn lemma_upsert_stores(t: IdentityTable, incoming: IdentityView)
    requires
        identity_table_wf(t),
    ensures
        upsert(t, incoming).contains_key(incoming.id),
        same_fields(upsert(t, incoming)[incoming.id], incoming),
        upsert(t, incoming)[incoming.id].id == incoming.id,
        forall|k: i64| k != incoming.id ==> lookup(#[trigger] upsert(t, incoming), k) == lookup(t, k),
        identity_table_wf(upsert(t, incoming)),
{
}

/// Upserting the same arguments twice makes at most one write: the second
/// upsert finds the record already current and writes nothing, and the table
/// is what the first upsert left.
pub proof fn lemma_upsert_idempotent(t: IdentityTable, incoming: IdentityView)
    requires
        identity_table_wf(t),
    ensures
        upsert_plan(lookup(upsert(t, incoming), incoming.id), incoming) == UpsertPlanView::Unchanged,
        plan_writes(upsert_plan(lookup(t, incoming.id), incoming)) + plan_writes(
            upsert_plan(lookup(upsert(t, incoming), incoming.id), incoming),
        ) <= 1,
        upsert(upsert(t, incoming), incoming) == upsert(t, incoming),
{
    lemma_upsert_stores(t, incoming);
}

} // verus!
