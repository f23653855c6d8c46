//! Sanitization and validation of the create and update payloads.
//!
//! Sanitization trims surrounding whitespace and, for emails, lower-cases the
//! result. Validation then checks the sanitized values: a name must be
//! non-empty and at most 100 characters; an email must pass the shape check
//! of [`crate::email`]. All independent checks run, so one bad field never
//! hides another.

use vstd::prelude::*;

use crate::email::{is_valid_email, valid_email};
use crate::models::{CreateUser, ErrView, NewUser, UpdateUser, UserChanges, ValidationErrors};

verus! {

/// What `str::trim` returns on the given characters.
pub uninterp spec fn trim_of(s: Seq<char>) -> Seq<char>;

/// What `str::to_lowercase` returns on the given characters.
pub uninterp spec fn lower_of(s: Seq<char>) -> Seq<char>;

/// Relies on `str::trim`: the input without leading and trailing whitespace,
/// a substring of the input that depends on the characters alone.
#[verifier::external_body]
fn trim_str(s: &str) -> (r: &str)
    ensures
        r@ == trim_of(s@),
        r@.len() <= s@.len(),
{
    s.trim()
}

/// Relies on `str::to_lowercase`: the Unicode lowercase mapping of the input,
/// which depends on the characters alone and maps an empty input to an empty
/// result.
#[verifier::external_body]
fn lower_str(s: &str) -> (r: String)
    ensures
        r@ == lower_of(s@),
        s@.len() == 0 ==> r@.len() == 0,
{
    s.to_lowercase()
}

/// A name as stored: the raw name without surrounding whitespace.
pub open spec fn sanitize_name(s: Seq<char>) -> Seq<char> {
    trim_of(s)
}

/// An email as stored: trimmed, then lower-cased. Lower-casing an empty
/// string is spelled out, so emptiness of the result depends on the trim
/// alone.
pub open spec fn sanitize_email(s: Seq<char>) -> Seq<char> {
    if trim_of(s).len() == 0 {
        Seq::empty()
    } else {
        lower_of(trim_of(s))
    }
}

/// A stored name is valid when non-empty and at most 100 characters.
pub open spec fn valid_name(s: Seq<char>) -> bool {
    0 < s.len() <= 100
}

/// The errors of a sanitized create name, in the order reported.
pub open spec fn name_issues(san: Seq<char>) -> Seq<ErrView> {
    if san.len() == 0 {
        seq![ErrView { field: "name"@, message: "must contain at least one character"@ }]
    } else if san.len() > 100 {
        seq![ErrView { field: "name"@, message: "must be 100 characters or fewer"@ }]
    } else {
        Seq::empty()
    }
}

/// The errors of a sanitized create email, in the order reported.
pub open spec fn email_issues(san: Seq<char>) -> Seq<ErrView> {
    if san.len() == 0 {
        seq![ErrView { field: "email"@, message: "must contain at least one character"@ }]
    } else if !valid_email(san) {
        seq![ErrView { field: "email"@, message: "invalid email format"@ }]
    } else {
        Seq::empty()
    }
}

/// All errors of one create validation pass: the name's, then the email's.
pub open spec fn create_issues(raw_name: Seq<char>, raw_email: Seq<char>) -> Seq<ErrView> {
    name_issues(sanitize_name(raw_name)) + email_issues(sanitize_email(raw_email))
}

/// The view of an optional raw field.
pub open spec fn opt_view(o: Option<String>) -> Option<Seq<char>> {
    match o {
        Option::Some(s) => Option::Some(s@),
        Option::None => Option::None,
    }
}

/// The name an update will store, if any: a whitespace-only or missing name
/// counts as absent.
pub open spec fn update_name_field(raw: Option<Seq<char>>) -> Option<Seq<char>> {
    match raw {
        Option::Some(s) => if sanitize_name(s).len() == 0 {
            Option::None
        } else {
            Option::Some(sanitize_name(s))
        },
        Option::None => Option::None,
    }
}

/// The email an update will store, if any: a whitespace-only or missing
/// email counts as absent.
pub open spec fn update_email_field(raw: Option<Seq<char>>) -> Option<Seq<char>> {
    match raw {
        Option::Some(s) => if sanitize_email(s).len() == 0 {
            Option::None
        } else {
            Option::Some(sanitize_email(s))
        },
        Option::None => Option::None,
    }
}

/// All errors of one update validation pass: a present name too long, then a
/// present email of the wrong shape, then, when both fields ended up absent,
/// the demand that an update change something.
pub open spec fn update_issues(raw_name: Option<Seq<char>>, raw_email: Option<Seq<char>>) -> Seq<
    ErrView,
> {
    let nf = update_name_field(raw_name);
    let ef = update_email_field(raw_email);
    (match nf {
        Option::Some(s) => if s.len() > 100 {
            seq![ErrView { field: "name"@, message: "must be 100 characters or fewer"@ }]
        } else {
            Seq::<ErrView>::empty()
        },
        Option::None => Seq::<ErrView>::empty(),
    }) + (match ef {
        Option::Some(s) => if !valid_email(s) {
            seq![ErrView { field: "email"@, message: "invalid email format"@ }]
        } else {
            Seq::<ErrView>::empty()
        },
        Option::None => Seq::<ErrView>::empty(),
    }) + (if nf is None && ef is None {
        seq![ErrView { field: "general"@, message: "must provide at least one field to update"@ }]
    } else {
        Seq::<ErrView>::empty()
    })
}

impl NewUser {
    /// Validates a raw create payload. On success the sanitized values come
    /// back; on failure, every failing field's error, in order.
    pub fn try_from(value: CreateUser) -> (r: Result<NewUser, ValidationErrors>)
        ensures
            match r {
                Ok(nu) => create_issues(value.name@, value.email@).len() == 0 && nu.name@
                    == sanitize_name(value.name@) && nu.email@ == sanitize_email(value.email@),
                Err(es) => es@ == create_issues(value.name@, value.email@) && es@.len() > 0,
            },
    {
        let mut errors = ValidationErrors::new();

        let trimmed_name = trim_str(value.name.as_str());
        if trimmed_name.is_empty() {
            errors.push("name", "must contain at least one character");
        } else if trimmed_name.unicode_len() > 100 {
            errors.push("name", "must be 100 characters or fewer");
        }
        let sanitized_name = trimmed_name.to_owned();

        let trimmed_email = trim_str(value.email.as_str());
        let sanitized_email = lower_str(trimmed_email);
        if sanitized_email.as_str().is_empty() {
            errors.push("email", "must contain at least one character");
        } else if !is_valid_email(sanitized_email.as_str()) {
            errors.push("email", "invalid email format");
        }

        proof {
            assert(errors@ =~= create_issues(value.name@, value.email@));
        }
        if errors.is_empty() {
            proof {
                assert(sanitized_email@ =~= sanitize_email(value.email@));
            }
            Ok(NewUser { name: sanitized_name, email: sanitized_email })
        } else {
            Err(errors)
        }
    }
}

impl UserChanges {
    /// Validates a raw update payload. A whitespace-only field counts as
    /// absent; both fields absent is itself an error.
    pub fn try_from(value: UpdateUser) -> (r: Result<UserChanges, ValidationErrors>)
        ensures
            match r {
                Ok(uc) => update_issues(opt_view(value.name), opt_view(value.email)).len() == 0
                    && opt_view(uc.name) == update_name_field(opt_view(value.name)) && opt_view(
                    uc.email,
                ) == update_email_field(opt_view(value.email)),
                Err(es) => es@ == update_issues(opt_view(value.name), opt_view(value.email))
                    && es@.len() > 0,
            },
    {
        let mut errors = ValidationErrors::new();

        let sanitized_name: Option<String> = match &value.name {
            Some(raw) => {
                let trimmed = trim_str(raw.as_str());
                if trimmed.is_empty() {
                    None
                } else {
                    Some(trimmed.to_owned())
                }
            },
            None => None,
        };
        if let Some(candidate) = &sanitized_name {
            if candidate.as_str().unicode_len() > 100 {
                errors.push("name", "must be 100 characters or fewer");
            }
        }

        let sanitized_email: Option<String> = match &value.email {
            Some(raw) => {
                let lowered = lower_str(trim_str(raw.as_str()));
                if lowered.as_str().is_empty() {
                    None
                } else {
                    Some(lowered)
                }
            },
            None => None,
        };
        if let Some(candidate) = &sanitized_email {
            if !is_valid_email(candidate.as_str()) {
                errors.push("email", "invalid email format");
            }
        }

        if sanitized_name.is_none() && sanitized_email.is_none() {
            errors.push("general", "must provide at least one field to update");
        }

        proof {
            assert(errors@ =~= update_issues(opt_view(value.name), opt_view(value.email)));
        }
        if errors.is_empty() {
            Ok(UserChanges { name: sanitized_name, email: sanitized_email })
        } else {
            Err(errors)
        }
    }
}

} // verus!
