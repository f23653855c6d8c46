//! An in-memory model of the `users` table: rows kept in insertion order,
//! keyed by a unique identifier. The handlers are verified against this
//! model; a relational store that honours the same point-lookup, insert,
//! update and delete semantics can stand in for it.

use vstd::prelude::*;

use crate::email::valid_email;
use crate::models::{SpecUser, User};
use crate::validate::valid_name;

verus! {

/// No two rows share an identifier.
pub open spec fn ids_unique(s: Seq<SpecUser>) -> bool {
    forall|i: int, j: int| 0 <= i < j < s.len() ==> s[i].id != s[j].id
}

/// A stored row meets the same constraints as a freshly validated create
/// payload.
pub open spec fn valid_user(u: SpecUser) -> bool {
    valid_name(u.name) && valid_email(u.email)
}

/// A well-formed table: unique identifiers, every row valid.
pub open spec fn wf_table(s: Seq<SpecUser>) -> bool {
    ids_unique(s) && forall|i: int| 0 <= i < s.len() ==> valid_user(#[trigger] s[i])
}

/// Whether some row carries the identifier.
pub open spec fn contains_user_id(s: Seq<SpecUser>, id: u128) -> bool {
    exists|i: int| 0 <= i < s.len() && (#[trigger] s[i]).id == id
}

/// The index of the row with the identifier, when one exists.
pub open spec fn user_index(s: Seq<SpecUser>, id: u128) -> int {
    choose|i: int| 0 <= i < s.len() && (#[trigger] s[i]).id == id
}

/// The row with the identifier, when one exists.
pub open spec fn user_with_id(s: Seq<SpecUser>, id: u128) -> SpecUser {
    s[user_index(s, id)]
}

/// The table after deleting the identifier: without that row when present,
/// unchanged otherwise.
pub open spec fn spec_delete(s: Seq<SpecUser>, id: u128) -> Seq<SpecUser> {
    if contains_user_id(s, id) {
        s.remove(user_index(s, id))
    } else {
        s
    }
}

/// One row with the given changes applied: a present field replaces the
/// current value, an absent one keeps it; identifier and creation time never
/// change.
pub open spec fn merge_changes(
    u: SpecUser,
    name: Option<Seq<char>>,
    email: Option<Seq<char>>,
) -> SpecUser {
    SpecUser {
        id: u.id,
        name: match name {
            Option::Some(n) => n,
            Option::None => u.name,
        },
        email: match email {
            Option::Some(e) => e,
            Option::None => u.email,
        },
        created_at: u.created_at,
    }
}

/// The table after updating the identifier with the changes, unchanged when
/// the identifier is absent.
pub open spec fn spec_update(
    s: Seq<SpecUser>,
    id: u128,
    name: Option<Seq<char>>,
    email: Option<Seq<char>>,
) -> Seq<SpecUser> {
    if contains_user_id(s, id) {
        s.update(user_index(s, id), merge_changes(user_with_id(s, id), name, email))
    } else {
        s
    }
}

/// The index picked by [`user_index`] does carry the identifier.
pub proof fn lemma_user_index(s: Seq<SpecUser>, id: u128)
    requires
        contains_user_id(s, id),
    ensures
        0 <= user_index(s, id) < s.len(),
        s[user_index(s, id)].id == id,
{
}

/// With unique identifiers, [`user_index`] is the only index carrying one.
pub proof fn lemma_user_index_unique(s: Seq<SpecUser>, id: u128, i: int)
    requires
        ids_unique(s),
        0 <= i < s.len(),
        s[i].id == id,
    ensures
        user_index(s, id) == i,
{
    assert(contains_user_id(s, id));
    let j = user_index(s, id);
    lemma_user_index(s, id);
    if i < j {
        assert(s[i].id != s[j].id);
    } else if j < i {
        assert(s[j].id != s[i].id);
    }
}

/// Removing a row keeps the table well-formed, and removing the one row with
/// an identifier leaves no row with it.
pub proof fn lemma_remove_keeps_wf(s: Seq<SpecUser>, i: int)
    requires
        wf_table(s),
        0 <= i < s.len(),
    ensures
        wf_table(s.remove(i)),
        !contains_user_id(s.remove(i), s[i].id),
{
    let t = s.remove(i);
    assert forall|p: int, q: int| 0 <= p < q < t.len() implies t[p].id != t[q].id by {
        let p0 = if p < i { p } else { p + 1 };
        let q0 = if q < i { q } else { q + 1 };
        assert(t[p] == s[p0] && t[q] == s[q0]);
    }
    assert forall|p: int| 0 <= p < t.len() implies valid_user(t[p]) by {
        let p0 = if p < i { p } else { p + 1 };
        assert(t[p] == s[p0]);
    }
    assert forall|p: int| 0 <= p < t.len() implies t[p].id != s[i].id by {
        let p0 = if p < i { p } else { p + 1 };
        assert(t[p] == s[p0]);
    }
}

/// The in-memory table, rows in insertion order.
#[derive(Debug)]
pub struct UserStore {
    pub users: Vec<User>,
}

/// The views of a sequence of rows.
pub open spec fn table_view(v: Seq<User>) -> Seq<SpecUser> {
    v.map_values(|u: User| u@)
}

impl View for UserStore {
    type V = Seq<SpecUser>;

    open spec fn view(&self) -> Seq<SpecUser> {
        table_view(self.users@)
    }
}

impl UserStore {
    /// A well-formed table.
    pub open spec fn wf(&self) -> bool {
        wf_table(self@)
    }

    /// An empty table.
    pub fn new() -> (r: Self)
        ensures
            r@ == Seq::<SpecUser>::empty(),
            r.wf(),
    {
        let r = UserStore { users: Vec::new() };
        proof {
            assert(r@ =~= Seq::<SpecUser>::empty());
        }
        r
    }

    /// Point lookup: the position of the row carrying `id`, when present.
    pub fn find_index(&self, id: u128) -> (r: Option<usize>)
        ensures
            match r {
                Some(i) => i < self@.len() && self@[i as int].id == id && contains_user_id(
                    self@,
                    id,
                ),
                None => !contains_user_id(self@, id),
            },
    {
        let mut i: usize = 0;
        while i < self.users.len()
            invariant
                i <= self.users.len(),
                forall|k: int| 0 <= k < i ==> self@[k].id != id,
            decreases self.users.len() - i,
        {
            if self.users[i].id == id {
                return Some(i);
            }
            i = i + 1;
        }
        None
    }
}

} // verus!
