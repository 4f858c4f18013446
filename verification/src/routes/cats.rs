//! The decisions of the cat routes: which fields a request goes on with,
//! and which errors a refused request is answered with.
use vstd::prelude::*;

use crate::db::cats::{MewCatBoopsies, UpdateCatData};
use crate::errors::{Errors, FieldValidator};
use crate::models::cats::Cat;

verus! {

/// A registration request.
#[derive(Debug)]
pub struct MewCat {
    pub cat: MewCatData,
}

/// The fields of a registration request, each possibly missing.
#[derive(Debug)]
pub struct MewCatData {
    pub name: Option<String>,
    pub email: Option<String>,
    pub password: Option<String>,
}

/// A login request.
pub struct LoginCat {
    pub cat: LoginCatData,
}

/// The fields of a login request, each possibly missing.
pub struct LoginCatData {
    pub email: Option<String>,
    pub password: Option<String>,
}

/// A profile update request.
pub struct UpdateCat {
    pub cat: UpdateCatData,
}

/// The message for a name or email that another cat already has.
pub open spec fn taken_message() -> Seq<char> {
    "has already been taken"@
}

/// The field that a refused registration is reported on.
pub open spec fn duplicate_field(b: MewCatBoopsies) -> Seq<char> {
    match b {
        MewCatBoopsies::DuplicateEmail => "email"@,
        MewCatBoopsies::DuplicateName => "name"@,
    }
}

/// The field under which a failed login is reported.
pub open spec fn login_field() -> Seq<char> {
    "email or password"@
}

/// The message of a failed login.
pub open spec fn invalid_message() -> Seq<char> {
    "is invalid"@
}

/// The value of an optional field, the empty string where it is missing.
pub open spec fn value_or_empty(o: Option<String>) -> Seq<char> {
    match o {
        Some(s) => s@,
        None => Seq::empty(),
    }
}

/// The blank-field errors of a login request whose email or password is
/// missing, email first.
pub open spec fn login_blank_errors(data: LoginCatData) -> Seq<(Seq<char>, Seq<char>)> {
    let after_email = if data.email is Some {
        Seq::empty()
    } else {
        seq![("email"@, crate::errors::blank_message())]
    };
    if data.password is Some {
        after_email
    } else {
        after_email.push(("password"@, crate::errors::blank_message()))
    }
}

/// A field that is given is read exactly as given, and a missing one as the
/// empty string.
pub proof fn lemma_fields_read_as_given(o: Option<String>)
    ensures
        o matches Some(s) ==> value_or_empty(o) == s@,
        o is None ==> value_or_empty(o).len() == 0,
{
}

/// The name, email and password that a registration goes on with: each
/// field as given, a missing one as the empty string. Registration does
/// not refuse a request for a missing field.
pub fn registration_credentials(data: MewCatData) -> (r: (String, String, String))
    ensures
        r.0@ == value_or_empty(data.name),
        r.1@ == value_or_empty(data.email),
        r.2@ == value_or_empty(data.password),
        data.name matches Some(s) ==> r.0@ == s@,
        data.email matches Some(s) ==> r.1@ == s@,
        data.password matches Some(s) ==> r.2@ == s@,
        data.name is None ==> r.0@.len() == 0,
        data.email is None ==> r.1@.len() == 0,
        data.password is None ==> r.2@.len() == 0,
{
    let mut extractor = FieldValidator::default();
    let name = extractor.extract("name", data.name);
    let email = extractor.extract("email", data.email);
    let password = extractor.extract("password", data.password);
    (name, email, password)
}

/// The answer to a registration that the store refused: the duplicate
/// field, "has already been taken".
pub fn registration_error(err: MewCatBoopsies) -> (e: Errors)
    ensures
        e@ == seq![(duplicate_field(err), taken_message())],
{
    let field = match err {
        MewCatBoopsies::DuplicateEmail => "email",
        MewCatBoopsies::DuplicateName => "name",
    };
    proof {
        reveal_strlit("email");
        reveal_strlit("name");
    }
    let e = Errors::new(&[(field, "has already been taken")]);
    e
}

/// The answer to a registration once the store has run: the new cat, or
/// the error for the duplicate field.
pub fn registration_reply(created: Result<Cat, MewCatBoopsies>) -> (r: Result<Cat, Errors>)
    ensures
        match created {
            Ok(cat) => r == Ok::<Cat, Errors>(cat),
            Err(b) => r matches Err(e) && e@ == seq![(duplicate_field(b), taken_message())],
        },
{
    match created {
        Ok(cat) => Ok(cat),
        Err(b) => Err(registration_error(b)),
    }
}

/// The email and password that a login goes on with; where either is
/// missing, the login is refused with a "can't be blank" error for each
/// missing field.
pub fn login_credentials(data: LoginCatData) -> (r: Result<(String, String), Errors>)
    ensures
        (data.email is Some && data.password is Some) <==> r is Ok,
        r matches Ok(p) ==> p.0@ == value_or_empty(data.email) && p.1@ == value_or_empty(
            data.password,
        ),
        r matches Err(e) ==> e@ == login_blank_errors(data),
        r matches Ok(p) ==> (data.email matches Some(s) && p.0@ == s@),
        r matches Ok(p) ==> (data.password matches Some(s) && p.1@ == s@),
{
    let ghost d = data;
    let mut extractor = FieldValidator::default();
    let email = extractor.extract("email", data.email);
    let password = extractor.extract("password", data.password);
    proof {
        reveal_strlit("email");
        reveal_strlit("password");
        assert(extractor@ =~= login_blank_errors(d));
    }
    match extractor.check() {
        Ok(()) => Ok((email, password)),
        Err(e) => Err(e),
    }
}

/// The answer to a login that found no cat with that email and password.
pub fn invalid_login() -> (e: Errors)
    ensures
        e@ == seq![(login_field(), invalid_message())],
{
    Errors::new(&[("email or password", "is invalid")])
}

/// The answer to a login: the cat let in, or "email or password" "is
/// invalid".
pub fn login_reply(logged_in: Option<Cat>) -> (r: Result<Cat, Errors>)
    ensures
        match logged_in {
            Some(cat) => r == Ok::<Cat, Errors>(cat),
            None => r matches Err(e) && e@ == seq![(login_field(), invalid_message())],
        },
{
    match logged_in {
        Some(cat) => Ok(cat),
        None => Err(invalid_login()),
    }
}

} // verus!
