use meowspace::clock::LATEST_UTC_TIMESTAMP;
use meowspace::db::cats::{create, login, MewCat, MewCatBoopsies, StoreError, UpdateCatData};
use meowspace::errors::{Errors, FieldValidator};
use meowspace::models::cats::{Cat, SECONDS_PER_DAY, TOKEN_LIFETIME_DAYS};
use meowspace::not_found;
use meowspace::routes::cats::{
    invalid_login, login_credentials, login_reply, registration_credentials, registration_error,
    registration_reply, LoginCatData, MewCatData,
};
use meowspace::scrypt::scrypt_check_completes_on;
use crypto::scrypt::{scrypt_simple, ScryptParams};

const NAME: &str = "meowmers";
const EMAIL: &str = "meowmers@prrr.dev";
const PASSWORD: &str = "woof";

fn pairs(e: &Errors) -> Vec<(String, String)> {
    e.errors.iter().map(|f| (f.field.clone(), f.message.clone())).collect()
}

fn pair(a: &str, b: &str) -> (String, String) {
    (a.to_string(), b.to_string())
}

/// The row that the store gives back for an inserted cat.
fn stored(id: i32, m: MewCat) -> Cat {
    Cat { id, name: m.name, email: m.email, bio: None, image: None, hash: m.hash }
}

fn registered_cat() -> Cat {
    let m = MewCat::new(NAME, EMAIL, PASSWORD).expect("hash error");
    stored(1, m)
}

#[test]
fn test_register() {
    let (name, email, password) = registration_credentials(MewCatData {
        name: Some(NAME.to_string()),
        email: Some(EMAIL.to_string()),
        password: Some(PASSWORD.to_string()),
    });
    let m = MewCat::new(&name, &email, &password).expect("hash error");
    let reply = registration_reply(create(Ok(stored(7, m))));
    let cat = reply.ok().expect("registration refused");
    let auth = cat.to_cat_auth("token".to_string());
    assert_eq!(auth.email, EMAIL);
    assert_eq!(auth.name, NAME);
}

#[test]
fn test_register_with_duplicate_email() {
    let outcome = create(Err(StoreError::UniqueViolation(Some("cats_email_key".to_string()))));
    assert_eq!(outcome.as_ref().err(), Some(&MewCatBoopsies::DuplicateEmail));
    let reply = registration_reply(outcome);
    let errors = reply.err().expect("must be refused");
    assert_eq!(pairs(&errors), vec![pair("email", "has already been taken")]);
}

#[test]
fn test_register_with_duplicate_name() {
    let outcome = create(Err(StoreError::UniqueViolation(Some("cats_name_key".to_string()))));
    let errors = registration_reply(outcome).err().expect("must be refused");
    assert_eq!(pairs(&errors), vec![pair("name", "has already been taken")]);
}

#[test]
fn test_unexpected_store_failures() {
    assert!(!StoreError::Other.is_duplicate());
    assert!(!StoreError::UniqueViolation(None).is_duplicate());
    assert!(!StoreError::UniqueViolation(Some("cats_pkey".to_string())).is_duplicate());
    assert!(StoreError::UniqueViolation(Some("cats_name_key".to_string())).is_duplicate());
    assert!(StoreError::UniqueViolation(Some("cats_email_key".to_string())).is_duplicate());
}

#[test]
fn test_boopsies_from_store_error() {
    let name = StoreError::UniqueViolation(Some("cats_name_key".to_string()));
    let email = StoreError::UniqueViolation(Some("cats_email_key".to_string()));
    assert_eq!(MewCatBoopsies::from_store_error(&name), MewCatBoopsies::DuplicateName);
    assert_eq!(MewCatBoopsies::from_store_error(&email), MewCatBoopsies::DuplicateEmail);
}

#[test]
fn test_login() {
    let (email, password) = login_credentials(LoginCatData {
        email: Some(EMAIL.to_string()),
        password: Some(PASSWORD.to_string()),
    })
    .ok()
    .expect("both fields given");
    assert_eq!(email, EMAIL);
    let cat = registered_cat();
    let reply = login_reply(login(Some(cat), &password));
    let cat = reply.ok().expect("the registered password must log in");
    let claims = cat.auth_claims().expect("claims");
    assert_eq!(claims.name, NAME);
    assert_eq!(claims.id, 1);
    let token = format!("{}.{}.{}", claims.id, claims.name, claims.exp);
    let auth = cat.to_cat_auth(token.clone());
    assert_eq!(auth.token, token);
    assert_eq!(auth.email, EMAIL);
}

#[test]
fn bunk_login() {
    let cat = registered_cat();
    let reply = login_reply(login(Some(cat), "pwned"));
    let errors = reply.err().expect("a wrong password must be refused");
    assert_eq!(pairs(&errors), vec![pair("email or password", "is invalid")]);
}

#[test]
fn test_login_unknown_email() {
    assert!(login(None, PASSWORD).is_none());
}

#[test]
fn test_login_with_foreign_hash() {
    let mut cat = registered_cat();
    cat.hash = "plain-text".to_string();
    assert!(login(Some(cat), PASSWORD).is_none());
}

#[test]
fn test_stored_hash_layout() {
    let m = MewCat::new(NAME, EMAIL, PASSWORD).expect("hash error");
    assert!(m.hash.starts_with("$rscrypt$0$DggB$"));
    assert_eq!(m.hash.len(), 86);
    assert!(scrypt_check_completes_on(&m.hash));
}

#[test]
fn test_check_completes_on() {
    // no parameters are ever built: scrypt_check returns an error
    assert!(scrypt_check_completes_on(""));
    assert!(scrypt_check_completes_on("plain-text"));
    assert!(scrypt_check_completes_on("$rscrypt$2$DggB$c2FsdA==$a2V5$"));
    assert!(scrypt_check_completes_on("$rscrypt$0$DggB!$c2FsdA==$a2V5$"));
    // log_n = 0, r = 8, p = 1: ScryptParams::new panics
    assert!(!scrypt_check_completes_on("$rscrypt$0$AAgB$c2FsdA==$a2V5$"));
    // the same, even though what follows is malformed
    assert!(!scrypt_check_completes_on("$rscrypt$0$AAgB$"));
    // r = 0
    assert!(!scrypt_check_completes_on("$rscrypt$0$DgAB$c2FsdA==$a2V5$"));
    // log_n = 14 with r = 0 in the expanded format
    assert!(!scrypt_check_completes_on("$rscrypt$1$DgAAAAABAAAA$c2FsdA==$a2V5$"));
    // valid parameters, an empty key: scrypt asserts
    assert!(!scrypt_check_completes_on("$rscrypt$0$DggB$c2FsdA==$$"));
    // valid parameters, a key that does not decode: an error
    assert!(scrypt_check_completes_on("$rscrypt$0$DggB$c2FsdA==$a!$"));
    // valid parameters and key
    assert!(scrypt_check_completes_on("$rscrypt$0$DggB$c2FsdA==$a2V5$"));
    assert!(scrypt_check_completes_on("$rscrypt$1$DggAAAABAAAA$c2FsdA==$a2V5$"));
}

#[test]
fn test_login_with_other_parameters() {
    let hash = scrypt_simple(PASSWORD, &ScryptParams::new(10, 8, 1)).expect("hash");
    assert!(hash.starts_with("$rscrypt$0$CggB$"));
    assert!(scrypt_check_completes_on(&hash));
    let mut cat = registered_cat();
    cat.hash = hash.clone();
    assert!(login(Some(cat.clone()), PASSWORD).is_some());
    assert!(login(Some(cat), "pwned").is_none());
    let long = scrypt_simple(PASSWORD, &ScryptParams::new(3, 1, 256)).expect("hash");
    assert!(long.starts_with("$rscrypt$1$"));
    assert!(scrypt_check_completes_on(&long));
    let mut cat = registered_cat();
    cat.hash = long;
    assert!(login(Some(cat), PASSWORD).is_some());
}

#[test]
fn test_hashes_are_salted() {
    let a = MewCat::new(NAME, EMAIL, PASSWORD).expect("hash error");
    let b = MewCat::new(NAME, EMAIL, PASSWORD).expect("hash error");
    assert_ne!(a.hash, b.hash);
    assert_eq!(a.name, NAME);
    assert_eq!(a.email, EMAIL);
}

#[test]
fn test_login_missing_fields() {
    let errors = login_credentials(LoginCatData { email: None, password: None })
        .err()
        .expect("missing fields must be refused");
    assert_eq!(
        pairs(&errors),
        vec![pair("email", "can't be blank"), pair("password", "can't be blank")]
    );
    let errors = login_credentials(LoginCatData { email: Some(EMAIL.to_string()), password: None })
        .err()
        .expect("missing password must be refused");
    assert_eq!(pairs(&errors), vec![pair("password", "can't be blank")]);
}

#[test]
fn test_registration_with_missing_fields_goes_on() {
    let (name, email, password) =
        registration_credentials(MewCatData { name: None, email: Some(EMAIL.to_string()), password: None });
    assert_eq!(name, "");
    assert_eq!(email, EMAIL);
    assert_eq!(password, "");
}

#[test]
fn test_registration_error_fields() {
    assert_eq!(
        pairs(&registration_error(MewCatBoopsies::DuplicateName)),
        vec![pair("name", "has already been taken")]
    );
    assert_eq!(pairs(&invalid_login()), vec![pair("email or password", "is invalid")]);
}

#[test]
fn test_errors_new() {
    let e = Errors::new(&[("a", "b"), ("c", "d")]);
    assert_eq!(pairs(&e), vec![pair("a", "b"), pair("c", "d")]);
    assert!(Errors::new(&[]).errors.is_empty());
}

#[test]
fn test_field_validator() {
    let mut v = FieldValidator::default();
    assert_eq!(v.extract("name", Some("tom".to_string())), "tom");
    assert!(v.check().is_ok());
    let mut v = FieldValidator::default();
    assert_eq!(v.extract("name", None), "");
    let errors = v.check().err().expect("a blank field");
    assert_eq!(pairs(&errors), vec![pair("name", "can't be blank")]);
}

#[test]
fn test_get_cat() {
    let cat = registered_cat();
    let auth = cat.to_cat_auth("signed".to_string());
    assert_eq!(auth.email, EMAIL);
    assert_eq!(auth.name, NAME);
    assert_eq!(auth.token, "signed");
}

#[test]
fn test_put_cat() {
    let data = UpdateCatData {
        name: None,
        email: None,
        bio: Some("Holy meow".to_string()),
        image: None,
        password: Some("sneaky".to_string()),
    };
    let applied = data.without_password();
    assert_eq!(applied.bio.as_deref(), Some("Holy meow"));
    assert_eq!(applied.name, None);
    assert_eq!(applied.password, None);
    // the store applies the changes to the row; the reply carries the cat
    let mut cat = registered_cat();
    cat.bio = applied.bio.clone();
    let auth = cat.to_cat_auth("signed".to_string());
    assert_eq!(auth.email, EMAIL);
    assert_eq!(auth.name, NAME);
    assert_eq!(auth.bio.as_deref(), Some("Holy meow"));
}

#[test]
fn test_profile_keeps_public_fields() {
    let mut cat = registered_cat();
    cat.bio = Some("purr".to_string());
    cat.image = Some("http://cat.png".to_string());
    let p = cat.profile(true);
    assert_eq!(p.name, NAME);
    assert_eq!(p.bio.as_deref(), Some("purr"));
    assert_eq!(p.image.as_deref(), Some("http://cat.png"));
}

#[test]
fn test_token_expiry() {
    let cat = registered_cat();
    let claims = cat.auth_claims_at(1_000).expect("in range");
    assert_eq!(claims.exp, 1_000 + 60 * 86_400);
    assert_eq!(TOKEN_LIFETIME_DAYS * SECONDS_PER_DAY, 5_184_000);
    assert!(cat.auth_claims_at(LATEST_UTC_TIMESTAMP).is_none());
    let edge = LATEST_UTC_TIMESTAMP - 5_184_000;
    assert_eq!(cat.auth_claims_at(edge).expect("last valid").exp, LATEST_UTC_TIMESTAMP);
    assert!(cat.auth_claims_at(edge + 1).is_none());
}

#[test]
fn test_token_expiry_from_clock() {
    let cat = registered_cat();
    let claims = cat.auth_claims().expect("claims");
    assert!(claims.exp >= 5_184_000 + 1_600_000_000);
}

#[test]
fn test_not_found() {
    let r = not_found();
    assert_eq!(r.status, "error");
    assert_eq!(r.reason, "Resource was not found");
}
