//! The request handlers over the table model, and the error taxonomy they
//! map outcomes through: a validation failure, a missing row, or an
//! unexpected store failure, each with its one response shape.

use vstd::prelude::*;

use crate::models::{
    CreateUser, ErrView, NewUser, SpecUser, UpdateUser, User, UserChanges, ValidationError,
    ValidationErrors, errs_view,
};
use crate::store::{
    UserStore, contains_user_id, lemma_remove_keeps_wf, lemma_user_index_unique, merge_changes,
    spec_delete, spec_update, table_view, user_with_id, valid_user,
};
use crate::validate::{
    create_issues, opt_view, sanitize_email, sanitize_name, update_email_field, update_issues,
    update_name_field,
};

verus! {

/// The ways a request can fail.
#[derive(Debug)]
pub enum AppErrorKind {
    /// One or more field-level problems in a write payload.
    Validation(ValidationErrors),
    /// The target identifier does not exist.
    NotFound,
    /// An unexpected store failure; no detail is surfaced to the caller.
    Internal,
}

/// An application-level error, classified for response mapping.
#[derive(Debug)]
pub struct AppError {
    pub kind: AppErrorKind,
}

/// Mathematical value of an application error.
pub ghost enum AppErrorV {
    Validation(Seq<ErrView>),
    NotFound,
    Internal,
}

impl View for AppError {
    type V = AppErrorV;

    open spec fn view(&self) -> AppErrorV {
        match self.kind {
            AppErrorKind::Validation(es) => AppErrorV::Validation(es@),
            AppErrorKind::NotFound => AppErrorV::NotFound,
            AppErrorKind::Internal => AppErrorV::Internal,
        }
    }
}

impl AppError {
    /// A validation failure.
    pub fn validation(errors: ValidationErrors) -> (r: Self)
        ensures
            r@ == AppErrorV::Validation(errors@),
    {
        AppError { kind: AppErrorKind::Validation(errors) }
    }

    /// A missing resource.
    pub fn not_found() -> (r: Self)
        ensures
            r@ == AppErrorV::NotFound,
    {
        AppError { kind: AppErrorKind::NotFound }
    }

    /// An unexpected store failure.
    pub fn internal() -> (r: Self)
        ensures
            r@ == AppErrorV::Internal,
    {
        AppError { kind: AppErrorKind::Internal }
    }

    /// Maps the error to its one response: 422 with every field error for a
    /// validation failure; 404 and 500 with a generic message and no field
    /// list, so no internal detail leaks.
    pub fn into_response(self) -> (r: ErrorResponse)
        ensures
            match self@ {
                AppErrorV::Validation(es) => r.status == 422 && r.message@
                    == "invalid input data"@ && (r.errors matches Some(v) && errs_view(v@) == es),
                AppErrorV::NotFound => r.status == 404 && r.message@ == "resource not found"@
                    && r.errors is None,
                AppErrorV::Internal => r.status == 500 && r.message@
                    == "an unexpected error occurred"@ && r.errors is None,
            },
    {
        match self.kind {
            AppErrorKind::Validation(es) => ErrorResponse {
                status: 422,
                message: "invalid input data",
                errors: Some(es.errors),
            },
            AppErrorKind::NotFound => ErrorResponse {
                status: 404,
                message: "resource not found",
                errors: None,
            },
            AppErrorKind::Internal => ErrorResponse {
                status: 500,
                message: "an unexpected error occurred",
                errors: None,
            },
        }
    }
}

/// Wire shape of an error response: a status code, a generic message, and,
/// for validation failures only, the field errors.
#[derive(Debug)]
pub struct ErrorResponse {
    pub status: u16,
    pub message: &'static str,
    pub errors: Option<Vec<ValidationError>>,
}

/// Relies on `uuid::Uuid::new_v4`: a freshly drawn random 128-bit
/// identifier. Nothing is assumed of its value; collision with an existing
/// row is handled, not assumed away.
#[verifier::external_body]
fn fresh_id() -> (r: u128) {
    uuid::Uuid::new_v4().as_u128()
}

/// Relies on `chrono::Utc::now`: the current time, converted to microseconds
/// since the Unix epoch. Nothing is assumed of its value.
#[verifier::external_body]
fn now_micros() -> (r: i64) {
    chrono::Utc::now().timestamp_micros()
}

/// All rows, in insertion order.
pub fn list_users(store: &UserStore) -> (r: Vec<User>)
    ensures
        table_view(r@) == store@,
{
    let mut out: Vec<User> = Vec::new();
    let mut i: usize = 0;
    while i < store.users.len()
        invariant
            i <= store.users.len(),
            out@.len() == i,
            forall|k: int| 0 <= k < i ==> out@[k] == store.users@[k],
        decreases store.users.len() - i,
    {
        out.push(store.users[i].clone());
        i = i + 1;
    }
    proof {
        assert(table_view(out@) =~= store@);
    }
    out
}

/// Point lookup by identifier; a missing row is NotFound.
pub fn get_user(store: &UserStore, id: u128) -> (r: Result<User, AppError>)
    requires
        store.wf(),
    ensures
        match r {
            Ok(u) => contains_user_id(store@, id) && u@ == user_with_id(store@, id),
            Err(e) => e@ == AppErrorV::NotFound && !contains_user_id(store@, id),
        },
{
    match store.find_index(id) {
        Some(i) => {
            let u = store.users[i].clone();
            proof {
                lemma_user_index_unique(store@, id, i as int);
            }
            Ok(u)
        },
        None => Err(AppError::not_found()),
    }
}

/// Creates a row from a raw payload under a given identifier and creation
/// time. A payload that fails validation is rejected with every field error;
/// an identifier already in use surfaces as an internal failure, as a store
/// with a primary-key constraint would report it.
pub fn create_user_with(
    store: &mut UserStore,
    payload: CreateUser,
    id: u128,
    created_at: i64,
) -> (r: Result<User, AppError>)
    requires
        old(store).wf(),
    ensures
        final(store).wf(),
        match r {
            Ok(u) => create_issues(payload.name@, payload.email@).len() == 0 && !contains_user_id(
                old(store)@,
                id,
            ) && u@ == (SpecUser {
                id,
                name: sanitize_name(payload.name@),
                email: sanitize_email(payload.email@),
                created_at,
            }) && final(store)@ == old(store)@.push(u@),
            Err(e) => match e@ {
                AppErrorV::Validation(es) => es == create_issues(payload.name@, payload.email@)
                    && es.len() > 0 && final(store)@ == old(store)@,
                AppErrorV::Internal => create_issues(payload.name@, payload.email@).len() == 0
                    && contains_user_id(old(store)@, id) && final(store)@ == old(store)@,
                AppErrorV::NotFound => false,
            },
        },
{
    let validated = match NewUser::try_from(payload) {
        Ok(v) => v,
        Err(es) => {
            return Err(AppError::validation(es));
        },
    };
    if store.find_index(id).is_some() {
        return Err(AppError::internal());
    }
    let user = User { id, name: validated.name, email: validated.email, created_at };
    let result = user.clone();
    let ghost before = store@;
    store.users.push(user);
    proof {
        assert(store@ =~= before.push(result@));
        assert forall|p: int| 0 <= p < store@.len() implies valid_user(store@[p]) by {
            if p < before.len() {
                assert(store@[p] == before[p]);
            }
        }
        assert forall|p: int, q: int| 0 <= p < q < store@.len() implies store@[p].id
            != store@[q].id by {
            if q < before.len() {
                assert(store@[p] == before[p] && store@[q] == before[q]);
            } else {
                assert(store@[p] == before[p] && store@[q].id == id);
            }
        }
    }
    Ok(result)
}

/// Creates a row from a raw payload, generating a fresh random identifier
/// and taking the current time; otherwise exactly [`create_user_with`].
pub fn create_user(store: &mut UserStore, payload: CreateUser) -> (r: Result<User, AppError>)
    requires
        old(store).wf(),
    ensures
        final(store).wf(),
        match r {
            Ok(u) => create_issues(payload.name@, payload.email@).len() == 0 && !contains_user_id(
                old(store)@,
                u@.id,
            ) && u@.name == sanitize_name(payload.name@) && u@.email == sanitize_email(
                payload.email@,
            ) && final(store)@ == old(store)@.push(u@),
            Err(e) => match e@ {
                AppErrorV::Validation(es) => es == create_issues(payload.name@, payload.email@)
                    && es.len() > 0 && final(store)@ == old(store)@,
                AppErrorV::Internal => create_issues(payload.name@, payload.email@).len() == 0
                    && final(store)@ == old(store)@,
                AppErrorV::NotFound => false,
            },
        },
{
    let id = fresh_id();
    let created_at = now_micros();
    create_user_with(store, payload, id, created_at)
}

/// One row with validated changes applied: a present field replaces the
/// current value, an absent one keeps it; identifier and creation time stay.
pub fn merge_user(current: User, changes: UserChanges) -> (r: User)
    ensures
        r@ == merge_changes(current@, opt_view(changes.name), opt_view(changes.email)),
{
    User {
        id: current.id,
        name: match changes.name {
            Some(n) => n,
            None => current.name,
        },
        email: match changes.email {
            Some(e) => e,
            None => current.email,
        },
        created_at: current.created_at,
    }
}

/// Updates a row by identifier from a raw partial payload: validate, read
/// the current row, write the merged row. The creation time never changes; a
/// missing row is NotFound.
pub fn update_user(store: &mut UserStore, id: u128, payload: UpdateUser) -> (r: Result<
    User,
    AppError,
>)
    requires
        old(store).wf(),
    ensures
        final(store).wf(),
        match r {
            Ok(u) => update_issues(opt_view(payload.name), opt_view(payload.email)).len() == 0
                && contains_user_id(old(store)@, id) && u@ == merge_changes(
                user_with_id(old(store)@, id),
                update_name_field(opt_view(payload.name)),
                update_email_field(opt_view(payload.email)),
            ) && final(store)@ == spec_update(
                old(store)@,
                id,
                update_name_field(opt_view(payload.name)),
                update_email_field(opt_view(payload.email)),
            ),
            Err(e) => match e@ {
                AppErrorV::Validation(es) => es == update_issues(
                    opt_view(payload.name),
                    opt_view(payload.email),
                ) && es.len() > 0 && final(store)@ == old(store)@,
                AppErrorV::NotFound => update_issues(
                    opt_view(payload.name),
                    opt_view(payload.email),
                ).len() == 0 && !contains_user_id(old(store)@, id) && final(store)@ == old(
                    store,
                )@,
                AppErrorV::Internal => false,
            },
        },
{
    let changes = match UserChanges::try_from(payload) {
        Ok(c) => c,
        Err(es) => {
            return Err(AppError::validation(es));
        },
    };
    let idx = match store.find_index(id) {
        Some(i) => i,
        None => {
            return Err(AppError::not_found());
        },
    };
    let ghost before = store@;
    let current = store.users[idx].clone();
    let merged = merge_user(current, changes);
    let result = merged.clone();
    let _ = store.users.remove(idx);
    store.users.insert(idx, merged);
    proof {
        lemma_user_index_unique(before, id, idx as int);
        assert(store@ =~= before.update(idx as int, result@));
        assert forall|p: int| 0 <= p < store@.len() implies valid_user(store@[p]) by {
            if p != idx {
                assert(store@[p] == before[p]);
            }
        }
        assert forall|p: int, q: int| 0 <= p < q < store@.len() implies store@[p].id
            != store@[q].id by {
            assert(store@[p].id == before[p].id);
            assert(store@[q].id == before[q].id);
        }
    }
    Ok(result)
}

/// Deletes a row by identifier; a missing row is NotFound, the rest of the
/// table keeps its order.
pub fn delete_user(store: &mut UserStore, id: u128) -> (r: Result<(), AppError>)
    requires
        old(store).wf(),
    ensures
        final(store).wf(),
        final(store)@ == spec_delete(old(store)@, id),
        match r {
            Ok(_) => contains_user_id(old(store)@, id),
            Err(e) => e@ == AppErrorV::NotFound && !contains_user_id(old(store)@, id),
        },
{
    match store.find_index(id) {
        Some(i) => {
            let ghost before = store@;
            let _ = store.users.remove(i);
            proof {
                lemma_user_index_unique(before, id, i as int);
                assert(store@ =~= before.remove(i as int));
                lemma_remove_keeps_wf(before, i as int);
            }
            Ok(())
        },
        None => Err(AppError::not_found()),
    }
}

} // verus!
