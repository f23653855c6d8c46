//! Laws of the service, stated over the spec-level model and proved once for
//! all inputs: how validation reports failing fields, what a partial update
//! may and may not touch, and how create and delete move the table.

use vstd::prelude::*;

use crate::email::valid_email;
use crate::models::SpecUser;
use crate::store::{
    contains_user_id, lemma_remove_keeps_wf, lemma_user_index,
    lemma_user_index_unique, merge_changes, spec_delete, spec_update, user_index, user_with_id,
    valid_user, wf_table,
};
use crate::validate::{
    create_issues, sanitize_email, sanitize_name, update_email_field, update_issues,
    update_name_field, valid_name,
};

verus! {

/// The create path reports one error per failing field, the name's first,
/// the email's last, and none when nothing fails.
pub proof fn lemma_create_one_error_per_failing_field(raw_name: Seq<char>, raw_email: Seq<char>)
    ensures
        ({
            let issues = create_issues(raw_name, raw_email);
            let name_bad = !valid_name(sanitize_name(raw_name));
            let email_bad = sanitize_email(raw_email).len() == 0 || !valid_email(
                sanitize_email(raw_email),
            );
            &&& issues.len() == (if name_bad {
                1int
            } else {
                0int
            }) + (if email_bad {
                1int
            } else {
                0int
            })
            &&& (name_bad ==> issues[0].field == "name"@)
            &&& (email_bad ==> issues[issues.len() - 1].field == "email"@)
            &&& (!name_bad && !email_bad <==> issues.len() == 0)
        }),
{
}

/// An update that provides nothing — both fields missing or whitespace-only,
/// which sanitization cannot tell apart — fails with the one `general` error.
pub proof fn lemma_update_must_change_something(
    raw_name: Option<Seq<char>>,
    raw_email: Option<Seq<char>>,
)
    requires
        update_name_field(raw_name) is None,
        update_email_field(raw_email) is None,
    ensures
        update_issues(raw_name, raw_email).len() == 1,
        update_issues(raw_name, raw_email)[0].field == "general"@,
{
}

/// A partial update never touches the identifier or the creation time, never
/// touches a field the payload leaves absent, and stores a present field as
/// given.
pub proof fn lemma_update_keeps_absent_fields(
    s: Seq<SpecUser>,
    id: u128,
    nf: Option<Seq<char>>,
    ef: Option<Seq<char>>,
)
    requires
        wf_table(s),
        contains_user_id(s, id),
    ensures
        ({
            let before = user_with_id(s, id);
            let t = spec_update(s, id, nf, ef);
            let after = user_with_id(t, id);
            &&& t.len() == s.len()
            &&& contains_user_id(t, id)
            &&& after.id == before.id
            &&& after.created_at == before.created_at
            &&& (nf is None ==> after.name == before.name)
            &&& (nf matches Some(n) ==> after.name == n)
            &&& (ef is None ==> after.email == before.email)
            &&& (ef matches Some(e) ==> after.email == e)
        }),
{
    let i = user_index(s, id);
    lemma_user_index(s, id);
    let t = spec_update(s, id, nf, ef);
    assert(t[i] == merge_changes(s[i], nf, ef));
    assert(contains_user_id(t, id));
    assert forall|p: int, q: int| 0 <= p < q < t.len() implies t[p].id != t[q].id by {
        assert(t[p].id == s[p].id);
        assert(t[q].id == s[q].id);
    }
    lemma_user_index_unique(t, id, i);
}

/// Deleting an identifier removes exactly that row, so the identifier is
/// gone afterwards and a second delete of it finds nothing to remove.
pub proof fn lemma_delete_then_delete(s: Seq<SpecUser>, id: u128)
    requires
        wf_table(s),
        contains_user_id(s, id),
    ensures
        ({
            let t = spec_delete(s, id);
            &&& wf_table(t)
            &&& t.len() == s.len() - 1
            &&& !contains_user_id(t, id)
            &&& spec_delete(t, id) == t
        }),
{
    lemma_user_index(s, id);
    lemma_remove_keeps_wf(s, user_index(s, id));
}

/// An identifier that was never created leaves the table untouched, whether
/// updated or deleted.
pub proof fn lemma_missing_id_changes_nothing(
    s: Seq<SpecUser>,
    id: u128,
    nf: Option<Seq<char>>,
    ef: Option<Seq<char>>,
)
    requires
        !contains_user_id(s, id),
    ensures
        spec_delete(s, id) == s,
        spec_update(s, id, nf, ef) == s,
{
}

/// Two creates append two rows: afterwards the table holds the old rows,
/// then the first new row, then the second, each id exactly once.
pub proof fn lemma_two_creates_list_in_order(s: Seq<SpecUser>, u1: SpecUser, u2: SpecUser)
    requires
        wf_table(s),
        valid_user(u1),
        valid_user(u2),
        !contains_user_id(s, u1.id),
        !contains_user_id(s.push(u1), u2.id),
    ensures
        ({
            let t = s.push(u1).push(u2);
            &&& wf_table(t)
            &&& t == s + seq![u1, u2]
            &&& t.len() == s.len() + 2
            &&& t[s.len() as int] == u1
            &&& t[s.len() as int + 1] == u2
            &&& forall|k: int| 0 <= k < s.len() ==> t[k] == s[k]
        }),
{
    let s1 = s.push(u1);
    let t = s1.push(u2);
    assert(s1[s.len() as int].id == u1.id);
    assert(!contains_user_id(s, u2.id)) by {
        if contains_user_id(s, u2.id) {
            let w = choose|w: int| 0 <= w < s.len() && s[w].id == u2.id;
            assert(s1[w].id == u2.id);
        }
    }
    assert(u1.id != u2.id);
    assert forall|p: int, q: int| 0 <= p < q < t.len() implies t[p].id != t[q].id by {
        if q < s.len() {
            assert(t[p] == s[p] && t[q] == s[q]);
        } else if q == s.len() {
            assert(t[p] == s[p] && t[q] == u1);
        } else {
            assert(t[q] == u2);
            if p < s.len() {
                assert(t[p] == s[p]);
            } else {
                assert(t[p] == u1);
            }
        }
    }
    assert forall|p: int| 0 <= p < t.len() implies valid_user(t[p]) by {
        if p < s.len() {
            assert(t[p] == s[p]);
        }
    }
    assert(t =~= s + seq![u1, u2]);
}

} // verus!
