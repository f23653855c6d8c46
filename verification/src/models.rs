//! The data types of the users service: the persisted `User` row, the raw
//! create/update payloads, their validated counterparts, and the validation
//! error collection.

use vstd::prelude::*;

verus! {

/// Mathematical value of a persisted user row.
pub ghost struct SpecUser {
    pub id: u128,
    pub name: Seq<char>,
    pub email: Seq<char>,
    pub created_at: i64,
}

/// A persisted user row: a server-generated 128-bit identifier, a sanitized
/// name and email, and the creation time in microseconds since the Unix epoch.
#[derive(Debug)]
pub struct User {
    pub id: u128,
    pub name: String,
    pub email: String,
    pub created_at: i64,
}

impl View for User {
    type V = SpecUser;

    open spec fn view(&self) -> SpecUser {
        SpecUser {
            id: self.id,
            name: self.name@,
            email: self.email@,
            created_at: self.created_at,
        }
    }
}

impl Clone for User {
    fn clone(&self) -> (r: Self)
        ensures
            r == *self,
    {
        User {
            id: self.id,
            name: self.name.clone(),
            email: self.email.clone(),
            created_at: self.created_at,
        }
    }
}

/// Raw create payload; untrusted, may be empty, padded or malformed.
#[derive(Debug)]
pub struct CreateUser {
    pub name: String,
    pub email: String,
}

/// Raw partial-update payload; an absent field means "leave unchanged".
#[derive(Debug)]
pub struct UpdateUser {
    pub name: Option<String>,
    pub email: Option<String>,
}

/// A sanitized create payload; produced only by successful validation.
#[derive(Debug, Clone)]
pub struct NewUser {
    pub name: String,
    pub email: String,
}

/// Sanitized optional changes; each present field passed validation, a
/// `None` field keeps the current value.
#[derive(Debug, Clone)]
pub struct UserChanges {
    pub name: Option<String>,
    pub email: Option<String>,
}

/// Mathematical value of one validation error.
pub ghost struct ErrView {
    pub field: Seq<char>,
    pub message: Seq<char>,
}

/// A validation error tied to one input field.
#[derive(Debug, Clone)]
pub struct ValidationError {
    pub field: &'static str,
    pub message: &'static str,
}

impl View for ValidationError {
    type V = ErrView;

    open spec fn view(&self) -> ErrView {
        ErrView { field: self.field@, message: self.message@ }
    }
}

/// The views of a sequence of validation errors.
pub open spec fn errs_view(v: Seq<ValidationError>) -> Seq<ErrView> {
    v.map_values(|e: ValidationError| e@)
}

/// The errors of one validation pass, in the order they were found.
#[derive(Debug, Clone)]
pub struct ValidationErrors {
    pub errors: Vec<ValidationError>,
}

impl View for ValidationErrors {
    type V = Seq<ErrView>;

    open spec fn view(&self) -> Seq<ErrView> {
        errs_view(self.errors@)
    }
}

/// One rendered error: `field: message`.
pub open spec fn issue_line(e: ErrView) -> Seq<char> {
    e.field + ": "@ + e.message
}

/// All rendered errors, one per line.
pub open spec fn issues_text(s: Seq<ErrView>) -> Seq<char>
    decreases s.len(),
{
    if s.len() == 0 {
        Seq::empty()
    } else if s.len() == 1 {
        issue_line(s[0])
    } else {
        issues_text(s.drop_last()) + "\n"@ + issue_line(s.last())
    }
}

impl ValidationErrors {
    /// An empty collection.
    pub fn new() -> (r: Self)
        ensures
            r@ == Seq::<ErrView>::empty(),
    {
        let r = ValidationErrors { errors: Vec::new() };
        proof {
            assert(r@ =~= Seq::<ErrView>::empty());
        }
        r
    }

    /// Records one more error for the given field.
    pub fn push(&mut self, field: &'static str, message: &'static str)
        ensures
            final(self)@ == old(self)@.push(ErrView { field: field@, message: message@ }),
    {
        self.errors.push(ValidationError { field, message });
        proof {
            assert(self@ =~= old(self)@.push(ErrView { field: field@, message: message@ }));
        }
    }

    /// Whether no error was recorded.
    pub fn is_empty(&self) -> (r: bool)
        ensures
            r == (self@.len() == 0),
    {
        self.errors.is_empty()
    }

    /// Renders the errors as text, one `field: message` line per error.
    pub fn to_text(&self) -> (r: String)
        ensures
            r@ == issues_text(self@),
    {
        let mut out = String::new();
        let mut i: usize = 0;
        while i < self.errors.len()
            invariant
                i <= self.errors.len(),
                out@ == issues_text(self@.take(i as int)),
            decreases self.errors.len() - i,
        {
            if i > 0 {
                out.append("\n");
            }
            out.append(self.errors[i].field);
            out.append(": ");
            out.append(self.errors[i].message);
            i = i + 1;
            proof {
                let t = self@.take(i as int);
                assert(t.drop_last() =~= self@.take(i as int - 1));
                assert(t.last() == self@[i as int - 1]);
                assert(out@ =~= issues_text(t));
            }
        }
        proof {
            assert(self@.take(self.errors@.len() as int) =~= self@);
        }
        out
    }
}

} // verus!
