//! Identity service: registration, sign-in, token verification, profile
//! update and password change.
//!
//! Each operation is a short pipeline with a fixed failure order, composed
//! from the validation rules, the credential hasher, the token codec and
//! the user store. Revocation is stateful: sign-in and password change
//! draw a fresh random token version and persist it, which invalidates
//! every token carrying an older snapshot.

use vstd::prelude::*;
use vstd::string::StringExecFns;
use rand::Rng;
use crate::errors::{ServiceError, TokenError};
use crate::hashing::{hash_password, password_matches, phc_well_formed, verify_password};
use crate::policy::{
    opt_string_view, password_policy_error, password_policy_ok, user_fields_error, user_fields_ok,
    validate_password, validate_user_fields,
};
use crate::store::{
    email_taken, email_taken_by_other, first_ident_match_at, matches_ident, no_ident_match,
    profile_updated, user_basic_of, username_taken, username_taken_by_other, with_password,
    with_token_version, NewUser, StoreV, User, UserBasic, UserStore, UserV,
};
use crate::token::{
    current_expiry, decode_jwt, expiry_at, issue_jwt, jwt_claims, jwt_payload, now_timestamp,
    token_for, token_issued_now, Claims,
};

verus! {

broadcast use vstd::string::to_string_from_display_ensures_for_str;

/// The default session TTL, in seconds.
pub const DEFAULT_SESSION_TTL: i64 = 3600;

/// The session TTL: the configured number of seconds where one was
/// given, the default otherwise.
pub fn session_ttl(configured: Option<i64>) -> (r: i64)
    ensures
        r == match configured {
            Some(v) => v,
            None => DEFAULT_SESSION_TTL as i64,
        },
{
    match configured {
        Some(v) => v,
        None => DEFAULT_SESSION_TTL,
    }
}

/// Inbound registration payload.
pub struct CreateUserRequest {
    pub first_name: String,
    pub last_name: String,
    pub username: String,
    pub email: String,
    pub password: String,
}

/// Inbound sign-in payload.
pub struct SignInRequest {
    pub username_or_email: String,
    pub password: String,
}

/// Inbound token-verification payload; the token may be absent.
pub struct VerifyTok {
    pub token: Option<String>,
}

/// Partial profile-update payload; absent fields stay as stored.
pub struct UpdateUserRequest {
    pub username: Option<String>,
    pub email: Option<String>,
    pub first_name: Option<String>,
    pub last_name: Option<String>,
}

/// Password-change payload.
pub struct UpdatePasswordRequest {
    pub old_password: String,
    pub new_password: String,
}

/// A fresh token version for session rotation.
///
/// Relies on `rand::Rng::gen_range` over `1..=i32::MAX`: the draw lies in
/// that range; nothing else is promised of a random result.
#[verifier::external_body]
fn generate_new_token_version() -> (r: i32)
    ensures
        1 <= r,
{
    rand::thread_rng().gen_range(1..=i32::MAX)
}

/// Issues a session token carrying the user's id, username and current
/// token version, whose embedded expiry is the clock reading at issuance
/// plus the TTL.
pub fn generate_jwt(user: &User, secret: &str, expire_seconds: i64) -> (r: String)
    ensures
        token_issued_now(
            r@,
            secret@,
            user.id,
            user@.username,
            user.token_version,
            expire_seconds,
        ),
{
    let exp = current_expiry(expire_seconds);
    let t = issue_jwt(user.id, user.username.as_str(), user.token_version, exp, secret);
    proof {
        let now0 = choose|now: i64|
            0 <= now && exp == #[trigger] expiry_at(now as int, expire_seconds as int);
        assert(exp == expiry_at(now0 as int, expire_seconds as int));
        assert(token_for(
            t@,
            secret@,
            user.id,
            user@.username,
            user.token_version,
            expiry_at(now0 as int, expire_seconds as int) as i64,
        ));
    }
    t
}

/// The supplied registration fields all meet the minimal length rule.
pub open spec fn new_user_valid(nu: NewUser) -> bool {
    user_fields_ok(Some(nu.username@), Some(nu.first_name@), Some(nu.last_name@), Some(nu.email@))
}

/// The message for the first registration field that is too short.
pub open spec fn new_user_error(nu: NewUser) -> Seq<char> {
    user_fields_error(
        Some(nu.username@),
        Some(nu.first_name@),
        Some(nu.last_name@),
        Some(nu.email@),
    )
}

/// What a successful `create_user` returns: the record appended under the
/// next id with exactly the supplied fields, and a token issued now for
/// its id, username and token version, expiring one TTL ahead.
pub open spec fn created_user_ok(
    old_s: StoreV,
    nu: NewUser,
    u: User,
    t: Seq<char>,
    secret: Seq<char>,
    ttl: i64,
) -> bool {
    &&& u@.id == old_s.users.len() as u128
    &&& u@.username == nu.username@
    &&& u@.first_name == nu.first_name@
    &&& u@.last_name == nu.last_name@
    &&& u@.email == nu.email@
    &&& u@.password_hash == nu.password_hash@
    &&& u@.token_version == nu.token_version
    &&& token_issued_now(t, secret, u@.id, u@.username, u@.token_version, ttl)
}

/// Creates a user from already-hashed credentials: validates field
/// lengths, checks email then username uniqueness, inserts the record and
/// issues a token for it.
pub fn create_user(
    store: &mut UserStore,
    new_user: NewUser,
    secret: &str,
    expire_seconds: i64,
) -> (r: Result<(User, String), ServiceError>)
    requires
        old(store).wf(),
    ensures
        final(store).wf(),
        !new_user_valid(new_user) ==> (r matches Err(ServiceError::Validation(m)) && m@
            == new_user_error(new_user) && final(store)@ == old(store)@),
        new_user_valid(new_user) && email_taken(old(store)@.users, new_user.email@) ==> (
        r matches Err(ServiceError::Conflict(m)) && m@ == "Email already in use"@ && final(store)@ == old(store)@),
        new_user_valid(new_user) && !email_taken(old(store)@.users, new_user.email@)
            && username_taken(old(store)@.users, new_user.username@) ==> (r matches Err(
            ServiceError::Conflict(m),
        ) && m@ == "Username already in use"@ && final(store)@ == old(store)@),
        new_user_valid(new_user) && !email_taken(old(store)@.users, new_user.email@)
            && !username_taken(old(store)@.users, new_user.username@) ==> (r matches Ok(p)
            && created_user_ok(old(store)@, new_user, p.0, p.1@, secret@, expire_seconds)
            && final(store)@.users
            == old(store)@.users.push(p.0@) && final(store)@.roles == old(store)@.roles && final(store)@.assignments == old(store)@.assignments),
{
    match validate_user_fields(
        Some(new_user.username.as_str()),
        Some(new_user.first_name.as_str()),
        Some(new_user.last_name.as_str()),
        Some(new_user.email.as_str()),
    ) {
        Ok(()) => {},
        Err(m) => {
            return Err(ServiceError::Validation(m));
        },
    }
    if store.email_exists(new_user.email.as_str()) {
        return Err(ServiceError::Conflict("Email already in use".to_string()));
    }
    if store.username_exists(new_user.username.as_str()) {
        return Err(ServiceError::Conflict("Username already in use".to_string()));
    }
    let now = now_timestamp();
    match store.insert(new_user, now) {
        Ok(user) => {
            let token = generate_jwt(&user, secret, expire_seconds);
            Ok((user, token))
        },
        Err(e) => Err(e),
    }
}

/// The supplied request fields all meet the minimal length rule.
pub open spec fn request_valid(req: CreateUserRequest) -> bool {
    user_fields_ok(
        Some(req.username@),
        Some(req.first_name@),
        Some(req.last_name@),
        Some(req.email@),
    )
}

/// The message for the first request field that is too short.
pub open spec fn request_error(req: CreateUserRequest) -> Seq<char> {
    user_fields_error(
        Some(req.username@),
        Some(req.first_name@),
        Some(req.last_name@),
        Some(req.email@),
    )
}

/// What a successful registration returns: the record appended under the
/// next id with the requested fields, token version zero, a stored hash
/// that verifies the chosen password, and a token issued now for the new
/// record, expiring one TTL ahead.
pub open spec fn registered_user_ok(
    old_s: StoreV,
    req: CreateUserRequest,
    u: User,
    t: Seq<char>,
    secret: Seq<char>,
    ttl: i64,
) -> bool {
    &&& u@.id == old_s.users.len() as u128
    &&& u@.username == req.username@
    &&& u@.first_name == req.first_name@
    &&& u@.last_name == req.last_name@
    &&& u@.email == req.email@
    &&& u@.token_version == 0
    &&& phc_well_formed(u@.password_hash)
    &&& password_matches(req.password@, u@.password_hash)
    &&& token_issued_now(t, secret, u@.id, u@.username, 0i32, ttl)
}

/// Registration: validates field lengths, checks email then username
/// uniqueness, hashes the password with a fresh salt, inserts the record
/// with token version zero and issues its first session token.
pub fn register(
    store: &mut UserStore,
    req: CreateUserRequest,
    secret: &str,
    expire_seconds: i64,
) -> (r: Result<(User, String), ServiceError>)
    requires
        old(store).wf(),
    ensures
        final(store).wf(),
        !request_valid(req) ==> (r matches Err(ServiceError::Validation(m)) && m@
            == request_error(req) && final(store)@ == old(store)@),
        request_valid(req) && email_taken(old(store)@.users, req.email@) ==> (r matches Err(
            ServiceError::Conflict(m),
        ) && m@ == "Email already in use"@ && final(store)@ == old(store)@),
        request_valid(req) && !email_taken(old(store)@.users, req.email@) && username_taken(
            old(store)@.users,
            req.username@,
        ) ==> (r matches Err(ServiceError::Conflict(m)) && m@ == "Username already in use"@
            && final(store)@ == old(store)@),
        request_valid(req) && !email_taken(old(store)@.users, req.email@) && !username_taken(
            old(store)@.users,
            req.username@,
        ) ==> ((r matches Err(ServiceError::Hashing) && final(store)@ == old(store)@) || (
        r matches Ok(p) && registered_user_ok(old(store)@, req, p.0, p.1@, secret@, expire_seconds)
            && final(store)@.users == old(store)@.users.push(p.0@) && final(store)@.roles == old(store)@.roles
            && final(store)@.assignments == old(store)@.assignments)),
{
    match validate_user_fields(
        Some(req.username.as_str()),
        Some(req.first_name.as_str()),
        Some(req.last_name.as_str()),
        Some(req.email.as_str()),
    ) {
        Ok(()) => {},
        Err(m) => {
            return Err(ServiceError::Validation(m));
        },
    }
    if store.email_exists(req.email.as_str()) {
        return Err(ServiceError::Conflict("Email already in use".to_string()));
    }
    if store.username_exists(req.username.as_str()) {
        return Err(ServiceError::Conflict("Username already in use".to_string()));
    }
    let password_hash = match hash_password(req.password.as_str()) {
        Ok(h) => h,
        Err(_) => {
            return Err(ServiceError::Hashing);
        },
    };
    let new_user = NewUser {
        first_name: req.first_name,
        last_name: req.last_name,
        username: req.username,
        email: req.email,
        password_hash,
        token_version: 0,
    };
    let now = now_timestamp();
    match store.insert(new_user, now) {
        Ok(user) => {
            let token = generate_jwt(&user, secret, expire_seconds);
            Ok((user, token))
        },
        Err(e) => Err(e),
    }
}

/// What a sign-in against the record at `i` reports: an unparsable stored
/// hash is an internal failure, a mismatch the uniform credential error;
/// on success the record carries a fresh positive token version and the
/// returned token is issued for it.
/// What a successful sign-in leaves behind: the record at `i` carries a
/// fresh positive token version, nothing else changes, and the returned
/// token is issued now for the rotated record, expiring one TTL ahead.
pub open spec fn signin_success(
    old_s: StoreV,
    i: int,
    secret: Seq<char>,
    nu: User,
    t: Seq<char>,
    ttl: i64,
    new_s: StoreV,
) -> bool {
    let u = old_s.users[i];
    &&& 1 <= nu@.token_version
    &&& nu@ == with_token_version(u, nu@.token_version)
    &&& new_s.users == old_s.users.update(i, nu@)
    &&& new_s.roles == old_s.roles
    &&& new_s.assignments == old_s.assignments
    &&& token_issued_now(t, secret, u.id, u.username, nu@.token_version, ttl)
}

pub open spec fn signin_outcome(
    old_s: StoreV,
    i: int,
    password: Seq<char>,
    secret: Seq<char>,
    r: Result<(User, String), ServiceError>,
    ttl: i64,
    new_s: StoreV,
) -> bool {
    let u = old_s.users[i];
    if !phc_well_formed(u.password_hash) {
        r matches Err(ServiceError::Hashing) && new_s == old_s
    } else if !password_matches(password, u.password_hash) {
        r matches Err(ServiceError::InvalidCredentials) && new_s == old_s
    } else {
        r matches Ok(p) && signin_success(old_s, i, secret, p.0, p.1@, ttl, new_s)
    }
}

/// Sign-in: looks the identifier up as username or email, verifies the
/// password, rotates the token version to a fresh random value and issues
/// a token reflecting it. Unknown identifier and wrong password are
/// reported identically.
pub fn signin_user(
    store: &mut UserStore,
    username_or_email: &str,
    password: &str,
    secret: &str,
    expire_seconds: i64,
) -> (r: Result<(User, String), ServiceError>)
    requires
        old(store).wf(),
    ensures
        final(store).wf(),
        no_ident_match(old(store)@.users, username_or_email@) ==> (r matches Err(
            ServiceError::InvalidCredentials,
        ) && final(store)@ == old(store)@),
        forall|i: int|
            #[trigger] first_ident_match_at(old(store)@.users, username_or_email@, i)
                ==> signin_outcome(
                old(store)@,
                i,
                password@,
                secret@,
                r,
                expire_seconds,
                final(store)@,
            ),
{
    let user = match store.find_by_username_or_email(username_or_email) {
        Some(u) => u,
        None => {
            return Err(ServiceError::InvalidCredentials);
        },
    };
    let ghost users = old(store)@.users;
    let ghost v = username_or_email@;
    let ghost w: int = choose|i: int|
        first_ident_match_at(users, v, i) && user@ == users[i];
    proof {
        assert(first_ident_match_at(users, v, w) && user@ == users[w]);
        assert forall|i: int| #[trigger] first_ident_match_at(users, v, i) implies i == w by {
            if i < w {
                assert(matches_ident(users[i], v));
                assert(!matches_ident(users[i], v));
            } else if w < i {
                assert(matches_ident(users[w], v));
                assert(!matches_ident(users[w], v));
            }
        }
    }
    let matched = match verify_password(password, user.password_hash.as_str()) {
        Ok(b) => b,
        Err(_) => {
            return Err(ServiceError::Hashing);
        },
    };
    if !matched {
        return Err(ServiceError::InvalidCredentials);
    }
    let new_version = generate_new_token_version();
    let updated = match store.bump_token_version(user.id, new_version) {
        Ok(u) => u,
        Err(e) => {
            return Err(e);
        },
    };
    let token = generate_jwt(&updated, secret, expire_seconds);
    proof {
        assert(users[w].id == w as u128);
        assert(user.id as int == w);
        assert(updated@ == with_token_version(users[w], new_version));
        assert(token_issued_now(
            token@,
            secret@,
            users[w].id,
            users[w].username,
            updated@.token_version,
            expire_seconds,
        ));
        assert(signin_success(
            old(store)@,
            w,
            secret@,
            updated,
            token@,
            expire_seconds,
            store@,
        ));
        assert forall|i: int|
            #[trigger] first_ident_match_at(users, v, i) implies signin_outcome(
            old(store)@,
            i,
            password@,
            secret@,
            Ok::<(User, String), ServiceError>((updated, token)),
            expire_seconds,
            store@,
        ) by {
            assert(i == w);
            assert(signin_outcome(
                old(store)@,
                w,
                password@,
                secret@,
                Ok::<(User, String), ServiceError>((updated, token)),
                expire_seconds,
                store@,
            ));
        }
    }
    Ok((updated, token))
}

/// The verdict for decoded claims against the stored state: the subject
/// must exist and its stored token version must equal the snapshot the
/// token carries.
pub open spec fn verdict_of(users: Seq<UserV>, c: (u128, Seq<char>, i32, i64)) -> (bool,
    Seq<char>) {
    if c.0 >= users.len() {
        (false, "user_not_found"@)
    } else if users[c.0 as int].token_version == c.2 {
        (true, "ok"@)
    } else {
        (false, "token_version_mismatch"@)
    }
}

/// Evaluates decoded claims against the store; exact for every claims
/// value, whatever the decoder produced them from.
pub fn claims_verdict(store: &UserStore, claims: &Claims) -> (r: (bool, String))
    requires
        store.wf(),
    ensures
        r.0 == verdict_of(store@.users, claims@).0,
        r.1@ == verdict_of(store@.users, claims@).1,
{
    match store.find_by_id(claims.sub) {
        None => (false, "user_not_found".to_string()),
        Some(u) => {
            if u.token_version == claims.token_version {
                (true, "ok".to_string())
            } else {
                (false, "token_version_mismatch".to_string())
            }
        },
    }
}

/// What token verification reports: `invalid` only when the token
/// carries no claims under the secret, `expired` only of a well-signed
/// token whose claims object the clock overtook; when the token carries
/// claims, the verdict is the clock's or the store's on those claims.
pub open spec fn verify_token_post(
    users: Seq<UserV>,
    token: Seq<char>,
    secret: Seq<char>,
    valid: bool,
    reason: Seq<char>,
) -> bool {
    &&& reason == "invalid"@ ==> jwt_claims(token, secret) is None
    &&& reason == "expired"@ ==> !valid && jwt_payload(token, secret) is Some
    &&& jwt_claims(token, secret) is None ==> !valid && (reason == "invalid"@ || reason
        == "expired"@)
    &&& (jwt_claims(token, secret) matches Some(c) ==> ((!valid && reason == "expired"@) || (
    valid == verdict_of(users, c).0 && reason == verdict_of(users, c).1)))
}

/// Token verification: decodes the token and compares the embedded token
/// version with the stored one. Never fails; always returns a verdict
/// with a reason.
pub fn verify_token(store: &UserStore, token: &str, secret: &str) -> (r: (bool, String))
    requires
        store.wf(),
    ensures
        verify_token_post(store@.users, token@, secret@, r.0, r.1@),
{
    proof {
        reveal_strlit("invalid");
        reveal_strlit("expired");
        reveal_strlit("ok");
        reveal_strlit("user_not_found");
        reveal_strlit("token_version_mismatch");
        assert("expired"@[0] == 'e');
        assert("invalid"@[0] == 'i');
        assert("expired"@ != "invalid"@);
    }
    match decode_jwt(token, secret) {
        Ok(c) => {
            let r = claims_verdict(store, &c);
            proof {
                assert(r.1@.len() == 2 || r.1@.len() == 14 || r.1@.len() == 22);
                assert(r.1@ != "invalid"@);
                assert(r.1@ != "expired"@);
            }
            r
        },
        Err(TokenError::Expired) => (false, "expired".to_string()),
        Err(TokenError::Invalid) => (false, "invalid".to_string()),
    }
}

/// What a profile update with decoded claims `(sub, tv)` does: stale
/// token versions are rejected before anything else is consulted, then
/// uniqueness of the provided username and email against other records,
/// then field lengths; only then is the partial update applied. The token
/// version is not bumped: sessions stay valid.
pub open spec fn update_profile_outcome(
    old_s: StoreV,
    sub: u128,
    tv: i32,
    username: Option<Seq<char>>,
    email: Option<Seq<char>>,
    first_name: Option<Seq<char>>,
    last_name: Option<Seq<char>>,
    r: Result<User, ServiceError>,
    new_s: StoreV,
) -> bool {
    let users = old_s.users;
    if sub >= users.len() {
        r matches Err(ServiceError::NotFound) && new_s == old_s
    } else if users[sub as int].token_version != tv {
        r matches Err(ServiceError::InvalidToken) && new_s == old_s
    } else if username matches Some(s) && username_taken_by_other(users, s, sub as int) {
        r matches Err(ServiceError::Conflict(m)) && m@ == "Username already taken"@ && new_s
            == old_s
    } else if email matches Some(s) && email_taken_by_other(users, s, sub as int) {
        r matches Err(ServiceError::Conflict(m)) && m@ == "Email already in use"@ && new_s
            == old_s
    } else if !user_fields_ok(username, first_name, last_name, email) {
        r matches Err(ServiceError::Validation(m)) && m@ == user_fields_error(
            username,
            first_name,
            last_name,
            email,
        ) && new_s == old_s
    } else {
        &&& r matches Ok(u) && u@ == profile_updated(
            users[sub as int],
            username,
            email,
            first_name,
            last_name,
        ) && new_s.users == users.update(sub as int, u@)
        &&& new_s.roles == old_s.roles
        &&& new_s.assignments == old_s.assignments
    }
}

/// Applies a profile update for already-decoded claims; exact for every
/// claims value, whatever the decoder produced them from.
pub fn update_user_with_claims(
    store: &mut UserStore,
    claims: &Claims,
    data: &UpdateUserRequest,
) -> (r: Result<User, ServiceError>)
    requires
        old(store).wf(),
    ensures
        final(store).wf(),
        update_profile_outcome(
            old(store)@,
            claims.sub,
            claims.token_version,
            opt_string_view(data.username),
            opt_string_view(data.email),
            opt_string_view(data.first_name),
            opt_string_view(data.last_name),
            r,
            final(store)@,
        ),
{
    let current = match store.find_by_id(claims.sub) {
        Some(u) => u,
        None => {
            return Err(ServiceError::NotFound);
        },
    };
    if current.token_version != claims.token_version {
        return Err(ServiceError::InvalidToken);
    }
    let idx = claims.sub as usize;
    let un: Option<&str> = match &data.username {
        Some(s) => Some(s.as_str()),
        None => None,
    };
    let em: Option<&str> = match &data.email {
        Some(s) => Some(s.as_str()),
        None => None,
    };
    let fnm: Option<&str> = match &data.first_name {
        Some(s) => Some(s.as_str()),
        None => None,
    };
    let lnm: Option<&str> = match &data.last_name {
        Some(s) => Some(s.as_str()),
        None => None,
    };
    if let Some(s) = un {
        if store.username_exists_excluding(s, idx) {
            return Err(ServiceError::Conflict("Username already taken".to_string()));
        }
    }
    if let Some(s) = em {
        if store.email_exists_excluding(s, idx) {
            return Err(ServiceError::Conflict("Email already in use".to_string()));
        }
    }
    match validate_user_fields(un, fnm, lnm, em) {
        Ok(()) => {},
        Err(m) => {
            return Err(ServiceError::Validation(m));
        },
    }
    store.update_profile_fields(claims.sub, un, em, fnm, lnm)
}

/// Profile update: decodes the bearer token, rejects it if it is stale,
/// checks uniqueness and lengths of the provided fields and applies the
/// partial update.
pub fn update_user(
    store: &mut UserStore,
    token: &str,
    secret: &str,
    data: UpdateUserRequest,
) -> (r: Result<User, ServiceError>)
    requires
        old(store).wf(),
    ensures
        final(store).wf(),
        match jwt_claims(token@, secret@) {
            None => r matches Err(ServiceError::InvalidToken) && final(store)@ == old(store)@,
            Some(c) => (r matches Err(ServiceError::InvalidToken) && final(store)@ == old(
                store,
            )@) || update_profile_outcome(
                old(store)@,
                c.0,
                c.2,
                opt_string_view(data.username),
                opt_string_view(data.email),
                opt_string_view(data.first_name),
                opt_string_view(data.last_name),
                r,
                final(store)@,
            ),
        },
{
    let claims = match decode_jwt(token, secret) {
        Ok(c) => c,
        Err(_) => {
            return Err(ServiceError::InvalidToken);
        },
    };
    update_user_with_claims(store, &claims, &data)
}

/// What a password change with decoded claims `(sub, tv)` does: stale
/// token versions are rejected, the old password must verify, the new one
/// must differ from it and meet the complexity policy; then hash and
/// token version are replaced together, which invalidates every
/// outstanding token.
pub open spec fn update_password_outcome(
    old_s: StoreV,
    sub: u128,
    tv: i32,
    old_password: Seq<char>,
    new_password: Seq<char>,
    r: Result<(), ServiceError>,
    new_s: StoreV,
) -> bool {
    let users = old_s.users;
    if sub >= users.len() {
        r matches Err(ServiceError::NotFound) && new_s == old_s
    } else {
        let u = users[sub as int];
        if u.token_version != tv {
            r matches Err(ServiceError::InvalidToken) && new_s == old_s
        } else if !phc_well_formed(u.password_hash) {
            r matches Err(ServiceError::Hashing) && new_s == old_s
        } else if !password_matches(old_password, u.password_hash) {
            r matches Err(ServiceError::InvalidCredentials) && new_s == old_s
        } else if password_matches(new_password, u.password_hash) {
            r matches Err(ServiceError::Validation(m)) && m@
                == "New password cannot be the same as the old password"@ && new_s == old_s
        } else if !password_policy_ok(new_password) {
            r matches Err(ServiceError::Validation(m)) && m@
                == "New password validation failed: "@ + password_policy_error(new_password)
                && new_s == old_s
        } else {
            (r matches Err(ServiceError::Hashing) && new_s == old_s) || (r is Ok
                && password_changed(old_s, sub as int, new_password, new_s))
        }
    }
}

/// What a successful password change leaves behind: the record carries a
/// well-formed hash that verifies the new password and a fresh positive
/// token version, both written in one step; nothing else changes.
pub open spec fn password_changed(
    old_s: StoreV,
    i: int,
    new_password: Seq<char>,
    new_s: StoreV,
) -> bool {
    let nu = new_s.users[i];
    &&& new_s.users == old_s.users.update(
        i,
        with_password(old_s.users[i], nu.password_hash, nu.token_version),
    )
    &&& phc_well_formed(nu.password_hash)
    &&& password_matches(new_password, nu.password_hash)
    &&& 1 <= nu.token_version
    &&& new_s.roles == old_s.roles
    &&& new_s.assignments == old_s.assignments
}

/// Changes the password for already-decoded claims; exact for every
/// claims value, whatever the decoder produced them from.
pub fn update_password_with_claims(
    store: &mut UserStore,
    claims: &Claims,
    data: &UpdatePasswordRequest,
) -> (r: Result<(), ServiceError>)
    requires
        old(store).wf(),
    ensures
        final(store).wf(),
        update_password_outcome(
            old(store)@,
            claims.sub,
            claims.token_version,
            data.old_password@,
            data.new_password@,
            r,
            final(store)@,
        ),
{
    let current = match store.find_by_id(claims.sub) {
        Some(u) => u,
        None => {
            return Err(ServiceError::NotFound);
        },
    };
    if current.token_version != claims.token_version {
        return Err(ServiceError::InvalidToken);
    }
    let old_ok = match verify_password(
        data.old_password.as_str(),
        current.password_hash.as_str(),
    ) {
        Ok(b) => b,
        Err(_) => {
            return Err(ServiceError::Hashing);
        },
    };
    if !old_ok {
        return Err(ServiceError::InvalidCredentials);
    }
    let same = match verify_password(data.new_password.as_str(), current.password_hash.as_str()) {
        Ok(b) => b,
        Err(_) => {
            return Err(ServiceError::Hashing);
        },
    };
    if same {
        return Err(
            ServiceError::Validation(
                "New password cannot be the same as the old password".to_string(),
            ),
        );
    }
    match validate_password(data.new_password.as_str()) {
        Ok(()) => {},
        Err(m) => {
            let mut full = String::from_str("New password validation failed: ");
            full.append(m.as_str());
            return Err(ServiceError::Validation(full));
        },
    }
    let new_hash = match hash_password(data.new_password.as_str()) {
        Ok(h) => h,
        Err(_) => {
            return Err(ServiceError::Hashing);
        },
    };
    let new_version = generate_new_token_version();
    match store.update_password(claims.sub, new_hash.as_str(), new_version) {
        Ok(()) => {
            proof {
                assert(password_changed(
                    old(store)@,
                    claims.sub as int,
                    data.new_password@,
                    store@,
                ));
            }
            Ok(())
        },
        Err(e) => Err(e),
    }
}

/// Password change: decodes the bearer token, rejects it if it is stale,
/// verifies the old password, validates the new one and replaces hash and
/// token version atomically.
pub fn update_password(
    store: &mut UserStore,
    token: &str,
    secret: &str,
    data: UpdatePasswordRequest,
) -> (r: Result<(), ServiceError>)
    requires
        old(store).wf(),
    ensures
        final(store).wf(),
        match jwt_claims(token@, secret@) {
            None => r matches Err(ServiceError::InvalidToken) && final(store)@ == old(store)@,
            Some(c) => (r matches Err(ServiceError::InvalidToken) && final(store)@ == old(
                store,
            )@) || update_password_outcome(
                old(store)@,
                c.0,
                c.2,
                data.old_password@,
                data.new_password@,
                r,
                final(store)@,
            ),
        },
{
    let claims = match decode_jwt(token, secret) {
        Ok(c) => c,
        Err(_) => {
            return Err(ServiceError::InvalidToken);
        },
    };
    update_password_with_claims(store, &claims, &data)
}

/// Lists every user with its role names, the roleless reported under the
/// synthetic `"default"` placeholder.
pub fn get_users(store: &UserStore) -> (r: Vec<UserBasic>)
    requires
        store.wf(),
    ensures
        r@.len() == store@.users.len(),
        forall|i: int| 0 <= i < r@.len() ==> (#[trigger] r@[i])@ == user_basic_of(store@, i),
{
    store.list_with_roles()
}

/// A token whose embedded version no longer equals the stored one never
/// verifies: the verdict is negative, and unless the clock already
/// reports expiry the reason is the version mismatch.
pub proof fn lemma_stale_token_rejected(
    users: Seq<UserV>,
    token: Seq<char>,
    secret: Seq<char>,
    c: (u128, Seq<char>, i32, i64),
    valid: bool,
    reason: Seq<char>,
)
    requires
        jwt_claims(token, secret) == Some(c),
        verify_token_post(users, token, secret, valid, reason),
        c.0 < users.len(),
        users[c.0 as int].token_version != c.2,
    ensures
        !valid,
        reason == "expired"@ || reason == "token_version_mismatch"@,
{
}

/// A profile update presented with a stale token version fails with
/// `InvalidToken` and changes nothing, whatever the payload holds.
pub proof fn lemma_stale_token_profile_update(
    old_s: StoreV,
    sub: u128,
    tv: i32,
    username: Option<Seq<char>>,
    email: Option<Seq<char>>,
    first_name: Option<Seq<char>>,
    last_name: Option<Seq<char>>,
    r: Result<User, ServiceError>,
    new_s: StoreV,
)
    requires
        update_profile_outcome(old_s, sub, tv, username, email, first_name, last_name, r, new_s),
        sub < old_s.users.len(),
        old_s.users[sub as int].token_version != tv,
    ensures
        r matches Err(ServiceError::InvalidToken),
        new_s == old_s,
{
}

} // verus!
