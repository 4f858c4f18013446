//! The decisions around writing and reading the cats table: what is
//! inserted on registration, how a refused insert is reported, whether a
//! login succeeds, and what an update may change.
use vstd::prelude::*;

use crate::models::cats::{clone_opt, Cat};
use crate::scrypt::{scrypt_check_password, scrypt_simple_hash, HASH_LOG_N, HASH_P, HASH_R};

verus! {

/// A cat about to be inserted: its name, its email and its password hash.
pub struct MewCat {
    pub name: String,
    pub email: String,
    pub hash: String,
}

/// Why a registration was refused.
#[derive(Clone, Copy, Debug, PartialEq, Eq, Structural)]
pub enum MewCatBoopsies {
    DuplicateEmail,
    DuplicateName,
}

/// A failed insert into the cats table, as far as registration reads it.
pub enum StoreError {
    /// A unique constraint was violated; it carries the constraint's name
    /// where the database reported one.
    UniqueViolation(Option<String>),
    /// Any other failure.
    Other,
}

/// The unique constraint on the name column.
pub open spec fn name_constraint() -> Seq<char> {
    "cats_name_key"@
}

/// The unique constraint on the email column.
pub open spec fn email_constraint() -> Seq<char> {
    "cats_email_key"@
}

/// How a failed insert is reported to the registering cat; `None` where
/// the failure is not a duplicate name or email, which registration does
/// not expect.
pub open spec fn boopsies_for(err: StoreError) -> Option<MewCatBoopsies> {
    match err {
        StoreError::UniqueViolation(Some(c)) => {
            if c@ == name_constraint() {
                Some(MewCatBoopsies::DuplicateName)
            } else if c@ == email_constraint() {
                Some(MewCatBoopsies::DuplicateEmail)
            } else {
                None
            }
        },
        _ => None,
    }
}

/// `m` is what registration inserts for `name`, `email` and `password`:
/// the name and email as given, and a stored-layout hash that the scrypt
/// check runs on without panicking and accepts for the password.
pub open spec fn created_from(m: MewCat, name: Seq<char>, email: Seq<char>, password: Seq<char>) -> bool {
    &&& m.name@ == name
    &&& m.email@ == email
    &&& crate::scrypt::stored_hash_layout(m.hash@)
    &&& crate::scrypt::scrypt_check_completes(m.hash@)
    &&& crate::scrypt::scrypt_check_verdict(password, m.hash@) == Some(true)
}

/// The cat that a login with `password` lets in, given the cat found under
/// the email: the found cat where the password checks against its stored
/// hash, and nobody otherwise.
pub open spec fn login_result(found: Option<Cat>, password: Seq<char>) -> Option<Cat> {
    match found {
        Some(cat) => if crate::scrypt::scrypt_check_verdict(password, cat.hash@) == Some(true) {
            Some(cat)
        } else {
            None
        },
        None => None,
    }
}

impl StoreError {
    /// Whether this failure is a duplicate name or email, the only failed
    /// inserts that registration expects.
    pub fn is_duplicate(&self) -> (b: bool)
        ensures
            b == boopsies_for(*self) is Some,
    {
        match self {
            StoreError::UniqueViolation(Some(c)) => {
                let name_key = "cats_name_key".to_owned();
                let email_key = "cats_email_key".to_owned();
                *c == name_key || *c == email_key
            },
            _ => false,
        }
    }
}

impl MewCatBoopsies {
    /// Reads a failed insert that is a duplicate name or email. Any other
    /// failure is left out: registration does not expect it.
    pub fn from_store_error(err: &StoreError) -> (r: MewCatBoopsies)
        requires
            boopsies_for(*err) is Some,
        ensures
            boopsies_for(*err) == Some(r),
    {
        match err {
            StoreError::UniqueViolation(Some(c)) => {
                let name_key = "cats_name_key".to_owned();
                if *c == name_key {
                    MewCatBoopsies::DuplicateName
                } else {
                    MewCatBoopsies::DuplicateEmail
                }
            },
            _ => MewCatBoopsies::DuplicateEmail,
        }
    }
}

impl MewCat {
    /// The row to insert for a registering cat: its password is hashed
    /// with scrypt (N = 2^14, r = 8, p = 1) under a fresh random salt. Fails
    /// only where the system random source cannot be opened; a read from it
    /// that fails once it is open makes the hashing panic.
    pub fn new(name: &str, email: &str, password: &str) -> (r: Result<MewCat, std::io::Error>)
        ensures
            r matches Ok(m) ==> created_from(m, name@, email@, password@),
            r matches Ok(m) ==> m.name@ == name@ && m.email@ == email@,
            r matches Ok(m) ==> crate::scrypt::scrypt_check_verdict(password@, m.hash@) == Some(
                true,
            ),
    {
        proof {
            crate::scrypt::lemma_stored_params();
        }
        match scrypt_simple_hash(password, HASH_LOG_N, HASH_R, HASH_P) {
            Ok(hash) => Ok(MewCat { name: name.to_owned(), email: email.to_owned(), hash }),
            Err(e) => Err(e),
        }
    }
}

/// The outcome of registration once the insert has run: the inserted cat,
/// or why it was refused. A failed insert other than a duplicate name or
/// email is left out: registration does not expect it.
pub fn create(inserted: Result<Cat, StoreError>) -> (r: Result<Cat, MewCatBoopsies>)
    requires
        inserted matches Err(e) ==> boopsies_for(e) is Some,
    ensures
        match inserted {
            Ok(cat) => r == Ok::<Cat, MewCatBoopsies>(cat),
            Err(e) => boopsies_for(e) matches Some(b) && r == Err::<Cat, MewCatBoopsies>(b),
        },
{
    match inserted {
        Ok(cat) => Ok(cat),
        Err(e) => Err(MewCatBoopsies::from_store_error(&e)),
    }
}

/// Logs a cat in: `found` is the cat stored under the email given, if any.
/// The cat is let in where `password` checks against its stored hash. A
/// stored hash on which the scrypt check panics (parameters that
/// `ScryptParams::new` refuses, or an empty key) is left out.
pub fn login(found: Option<Cat>, password: &str) -> (r: Option<Cat>)
    requires
        found matches Some(cat) ==> crate::scrypt::scrypt_check_completes(cat.hash@),
    ensures
        r == login_result(found, password@),
        r is Some ==> r == found,
        r is Some <==> (found matches Some(cat) && crate::scrypt::scrypt_check_verdict(
            password@,
            cat.hash@,
        ) == Some(true)),
{
    match found {
        Some(cat) => match scrypt_check_password(password, cat.hash.as_str()) {
            Some(true) => Some(cat),
            _ => None,
        },
        None => None,
    }
}

/// The row that registration builds carries the name and email exactly as
/// given, and a hash that the scrypt check accepts for the password given.
pub proof fn lemma_created_row_keeps_what_was_given(
    m: MewCat,
    name: Seq<char>,
    email: Seq<char>,
    password: Seq<char>,
)
    requires
        created_from(m, name, email, password),
    ensures
        m.name@ == name,
        m.email@ == email,
        crate::scrypt::scrypt_check_verdict(password, m.hash@) == Some(true),
{
}

/// A login lets a cat in only where one was found under the email and the
/// password given checks against that cat's stored hash; it then lets in
/// exactly the cat found, and it refuses every password that does not check.
pub proof fn lemma_login_lets_in_only_on_a_match(found: Option<Cat>, password: Seq<char>)
    ensures
        login_result(found, password) is Some ==> {
            &&& login_result(found, password) == found
            &&& found matches Some(cat) && crate::scrypt::scrypt_check_verdict(password, cat.hash@)
                == Some(true)
        },
        (found matches Some(cat) && crate::scrypt::scrypt_check_verdict(password, cat.hash@)
            != Some(true)) ==> login_result(found, password) is None,
        found is None ==> login_result(found, password) is None,
{
}

/// A cat that the registration of `name`, `email` and `password` inserted
/// logs in with that password.
pub proof fn lemma_registered_password_logs_in(
    m: MewCat,
    name: Seq<char>,
    email: Seq<char>,
    password: Seq<char>,
    stored: Cat,
)
    requires
        created_from(m, name, email, password),
        stored.name == m.name,
        stored.email == m.email,
        stored.hash == m.hash,
    ensures
        crate::scrypt::scrypt_check_completes(stored.hash@),
        login_result(Some(stored), password) == Some(stored),
{
}

/// The changes a cat asks for; absent fields stay as they are.
#[derive(Default, Clone)]
pub struct UpdateCatData {
    pub name: Option<String>,
    pub email: Option<String>,
    pub bio: Option<String>,
    pub image: Option<String>,
    pub password: Option<String>,
}

impl UpdateCatData {
    /// The changes that an update applies: those asked for, except the
    /// password, which an update never changes.
    pub fn without_password(&self) -> (r: UpdateCatData)
        ensures
            r.name == self.name,
            r.email == self.email,
            r.bio == self.bio,
            r.image == self.image,
            r.password is None,
    {
        UpdateCatData {
            name: clone_opt(&self.name),
            email: clone_opt(&self.email),
            bio: clone_opt(&self.bio),
            image: clone_opt(&self.image),
            password: None,
        }
    }
}

} // verus!
