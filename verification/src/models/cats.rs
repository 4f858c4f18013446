use vstd::prelude::*;

use crate::clock::{utc_now_timestamp, LATEST_UTC_TIMESTAMP};

verus! {

/// How long an authentication token stays valid, in days.
pub const TOKEN_LIFETIME_DAYS: i64 = 60;

/// Seconds in one day.
pub const SECONDS_PER_DAY: i64 = 86400;

/// A registered cat, as stored.
#[derive(Clone, Debug)]
pub struct Cat {
    pub id: i32,
    pub name: String,
    pub email: String,
    pub bio: Option<String>,
    pub image: Option<String>,
    /// The password hash; it is never handed out.
    pub hash: String,
}

/// What a cat gets back on registration and login: its public fields and
/// an authentication token.
pub struct CatAuth {
    pub name: String,
    pub email: String,
    pub bio: Option<String>,
    pub image: Option<String>,
    pub token: String,
}

/// The public profile of a cat.
pub struct Profile {
    pub name: String,
    pub bio: Option<String>,
    pub image: Option<String>,
}

/// The claims that an authentication token carries: who the cat is and
/// until which second (Unix time) the token holds.
pub struct Auth {
    pub id: i32,
    pub name: String,
    pub exp: i64,
}

/// The expiry of a token issued at second `now`: `TOKEN_LIFETIME_DAYS`
/// later, or nothing where that lies past the latest UTC date and time.
pub open spec fn token_expiry(now: int) -> Option<int> {
    let exp = now + TOKEN_LIFETIME_DAYS * SECONDS_PER_DAY;
    if exp <= LATEST_UTC_TIMESTAMP {
        Some(exp)
    } else {
        None
    }
}

/// A copy of an optional string.
pub fn clone_opt(s: &Option<String>) -> (r: Option<String>)
    ensures
        r == *s,
{
    match s {
        Some(v) => Some(v.clone()),
        None => None,
    }
}

impl Cat {
    /// The claims of a token issued to this cat at second `now`.
    pub fn auth_claims_at(&self, now: i64) -> (claims: Option<Auth>)
        ensures
            match claims {
                Some(a) => {
                    &&& token_expiry(now as int) == Some(a.exp as int)
                    &&& a.id == self.id
                    &&& a.name == self.name
                },
                None => token_expiry(now as int) is None,
            },
    {
        let lifetime: i64 = TOKEN_LIFETIME_DAYS * SECONDS_PER_DAY;
        if now <= LATEST_UTC_TIMESTAMP - lifetime {
            Some(Auth { id: self.id, name: self.name.clone(), exp: now + lifetime })
        } else {
            None
        }
    }

    /// The claims of a token issued to this cat now: it expires
    /// `TOKEN_LIFETIME_DAYS` after the current second. A system clock set
    /// before 1970, or past the latest year that chrono holds, makes the
    /// clock read panic.
    pub fn auth_claims(&self) -> (claims: Option<Auth>)
        ensures
            claims matches Some(a) ==> {
                &&& a.id == self.id
                &&& a.name == self.name
                &&& 0 <= a.exp - TOKEN_LIFETIME_DAYS * SECONDS_PER_DAY
                &&& a.exp <= LATEST_UTC_TIMESTAMP
            },
    {
        let now = utc_now_timestamp();
        self.auth_claims_at(now)
    }

    /// The reply for this cat, with the token signed over its claims.
    pub fn to_cat_auth(&self, token: String) -> (auth: CatAuth)
        ensures
            auth.name == self.name,
            auth.email == self.email,
            auth.bio == self.bio,
            auth.image == self.image,
            auth.token == token,
    {
        CatAuth {
            name: self.name.clone(),
            email: self.email.clone(),
            bio: clone_opt(&self.bio),
            image: clone_opt(&self.image),
            token,
        }
    }

    /// The public profile of this cat.
    pub fn profile(self, following: bool) -> (p: Profile)
        ensures
            p.name == self.name,
            p.bio == self.bio,
            p.image == self.image,
    {
        Profile { name: self.name, bio: self.bio, image: self.image }
    }
}

} // verus!
