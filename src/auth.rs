//! The session layer: logging in and out, and reading the session from the
//! request's cookies. Sessions are stateless: the signed token in the
//! `token` cookie is the whole session.
use vstd::prelude::*;
use crate::credentials::{password_matches, phc_parses, verify_password};
use crate::error::{Error, Fault};
use crate::models::{Employee, Role, Teacher};
use crate::store::{detail_of, unexpected, StoreError};
use crate::token::{decode_token, decoded, encode_token, payload, signed_token, Claims, Secret};
use axum_extra::extract::cookie::Cookie;
use axum_extra::extract::CookieJar;

verus! {

#[verifier::external_type_specification]
#[verifier::external_body]
pub struct ExCookieJar(CookieJar);

/// The cookies a jar shows: each name with its value. A cookie that was
/// removed is not shown.
pub uninterp spec fn jar_cookies(jar: CookieJar) -> Map<Seq<char>, Seq<char>>;

/// Relies on axum_extra's CookieJar::get: the cookie of that name, unless
/// there is none or it was removed.
#[verifier::external_body]
fn jar_value(jar: &CookieJar, name: &str) -> (r: Option<String>)
    ensures
        r is Some <==> jar_cookies(*jar).contains_key(name@),
        r is Some ==> r->0@ == jar_cookies(*jar)[name@],
{
    jar.get(name).map(|c| c.value().to_owned())
}

/// Relies on axum_extra's CookieJar::remove: afterwards no cookie of that
/// name is shown and the others stay; when the request carried one, the
/// response tells the client to drop the cookie of that name and path.
#[verifier::external_body]
fn jar_remove(jar: CookieJar, name: &str, path: &str) -> (r: CookieJar)
    ensures
        jar_cookies(r) == jar_cookies(jar).remove(name@),
{
    jar.remove(Cookie::build((name.to_owned(), "")).path(path.to_owned()))
}

/// The earliest and the latest second that a cookie expiry can hold: the
/// first and the last second of the years -9999 and 9999.
pub const MIN_UNIX_SECONDS: i64 = -377_705_116_800;
pub const MAX_UNIX_SECONDS: i64 = 253_402_300_799;

/// Relies on axum_extra's CookieJar::add, with the cookie built by
/// Cookie::build from the fields of `cookie` and its expiry made by time's
/// OffsetDateTime::from_unix_timestamp, which fails outside the years -9999
/// to 9999: afterwards the cookie is shown under its name, in place of any
/// other of that name.
#[verifier::external_body]
fn jar_add(jar: CookieJar, cookie: &SessionCookie) -> (r: CookieJar)
    requires
        MIN_UNIX_SECONDS <= cookie.expires_at <= MAX_UNIX_SECONDS,
    ensures
        jar_cookies(r) == jar_cookies(jar).insert(cookie.name@, cookie.value@),
{
    let expires = time::OffsetDateTime::from_unix_timestamp(cookie.expires_at).unwrap();
    jar.add(
        Cookie::build((cookie.name.clone(), cookie.value.clone()))
            .expires(expires)
            .secure(cookie.secure)
            .http_only(cookie.http_only)
            .path(cookie.path.clone()),
    )
}

/// Relies on time's OffsetDateTime::now_utc and unix_timestamp: the current
/// time in Unix seconds, which lies within the years time can hold.
#[verifier::external_body]
fn unix_now() -> (r: i64)
    ensures
        MIN_UNIX_SECONDS <= r <= MAX_UNIX_SECONDS,
{
    time::OffsetDateTime::now_utc().unix_timestamp()
}

/// How long a session lasts: three days, in seconds.
pub const SESSION_SECONDS: i64 = 259_200;

pub open spec fn token_cookie_name() -> Seq<char> {
    "token"@
}

pub open spec fn root_path() -> Seq<char> {
    "/"@
}

/// A cookie to set: its name, value, expiry (Unix seconds) and attributes.
#[derive(Clone, Debug, PartialEq, Eq)]
pub struct SessionCookie {
    pub name: String,
    pub value: String,
    pub expires_at: i64,
    pub secure: bool,
    pub http_only: bool,
    pub path: String,
}

/// The session cookie for a token: named `token`, HTTP-only, secure, for the
/// whole site, expiring with the token.
pub fn session_cookie(token: String, expires_at: i64) -> (r: SessionCookie)
    ensures
        r.name@ == token_cookie_name(),
        r.value@ == token@,
        r.expires_at == expires_at,
        r.secure,
        r.http_only,
        r.path@ == root_path(),
{
    SessionCookie {
        name: String::from_str("token"),
        value: token,
        expires_at,
        secure: true,
        http_only: true,
        path: String::from_str("/"),
    }
}

/// What the store holds for the employee with the phone that logs in.
#[derive(Clone, Debug, PartialEq, Eq)]
pub struct LoginRecord {
    pub employee_id: i32,
    pub role: Role,
    pub password_hash: String,
}

/// The outcome of checking a login: who logs in, or why not. An unknown phone
/// and a wrong password fail alike.
pub open spec fn login_check(record: Option<LoginRecord>, password: Seq<char>) -> Result<
    (i32, Role),
    Error,
> {
    match record {
        None => Err(Error::Domain(Fault::InvalidCredentials)),
        Some(rec) => if !phc_parses(rec.password_hash@) {
            Err(Error::MalformedHash)
        } else if !password_matches(password, rec.password_hash@) {
            Err(Error::Domain(Fault::InvalidCredentials))
        } else {
            Ok((rec.employee_id, rec.role))
        },
    }
}

/// Checks a login against what the store holds for its phone.
pub fn check_login(record: &Option<LoginRecord>, password: &str) -> (r: Result<(i32, Role), Error>)
    ensures
        r == login_check(*record, password@),
{
    match record {
        None => Err(Error::Domain(Fault::InvalidCredentials)),
        Some(rec) => match verify_password(password, rec.password_hash.as_str()) {
            Err(_) => Err(Error::MalformedHash),
            Ok(false) => Err(Error::Domain(Fault::InvalidCredentials)),
            Ok(true) => Ok((rec.employee_id, rec.role)),
        },
    }
}

/// The cookies after a session for `claims` is set: any earlier session
/// cookie gives way to the signed token.
pub open spec fn with_session(
    cookies: Map<Seq<char>, Seq<char>>,
    claims: Claims,
    secret: Seq<char>,
) -> Map<Seq<char>, Seq<char>> {
    cookies.remove(token_cookie_name()).insert(
        token_cookie_name(),
        signed_token(payload(claims), secret),
    )
}

/// The cookies after logging out: no session cookie.
pub open spec fn without_session(cookies: Map<Seq<char>, Seq<char>>) -> Map<Seq<char>, Seq<char>> {
    cookies.remove(token_cookie_name())
}

/// The claims of a session opened at `now`.
pub open spec fn session_claims(id: i32, role: Role, now: i64) -> Claims {
    Claims { employee_id: id, role, expires_at: (now + SESSION_SECONDS) as i64 }
}

/// Logs in at time `now`: checks the password against the stored hash and,
/// on success, sets a session cookie with a token for the employee's id and
/// role that expires three days after `now`.
pub fn open_session(
    jar: CookieJar,
    record: &Option<LoginRecord>,
    password: &str,
    secret: &Secret,
    now: i64,
) -> (r: Result<CookieJar, Error>)
    requires
        MIN_UNIX_SECONDS <= now,
        now + SESSION_SECONDS <= MAX_UNIX_SECONDS,
    ensures
        match login_check(*record, password@) {
            Err(e) => r == Err::<CookieJar, Error>(e),
            Ok((id, role)) => r is Ok && jar_cookies(r->Ok_0) == with_session(
                jar_cookies(jar),
                session_claims(id, role, now),
                secret@,
            ),
        },
{
    let (employee_id, role) = match check_login(record, password) {
        Ok(who) => who,
        Err(e) => return Err(e),
    };
    let expires_at = now + SESSION_SECONDS;
    let claims = Claims { employee_id, role, expires_at };
    let token = encode_token(&claims, secret);
    let cookie = session_cookie(token, expires_at);
    let jar = jar_remove(jar, "token", "/");
    proof {
        reveal_strlit("token");
    }
    let jar = jar_add(jar, &cookie);
    Ok(jar)
}

/// Logs in now; see `open_session`. Should the clock stand within three days
/// of the last second a cookie can hold, no session is opened.
pub fn login(jar: CookieJar, record: &Option<LoginRecord>, password: &str, secret: &Secret) -> (r:
    Result<CookieJar, Error>)
    ensures
        login_check(*record, password@) is Err ==> r == Err::<CookieJar, Error>(
            login_check(*record, password@)->Err_0,
        ),
        r is Ok ==> login_check(*record, password@) is Ok && exists|now: i64|
            jar_cookies(r->Ok_0) == with_session(
                jar_cookies(jar),
                session_claims(
                    login_check(*record, password@)->Ok_0.0,
                    login_check(*record, password@)->Ok_0.1,
                    now,
                ),
                secret@,
            ),
        login_check(*record, password@) is Ok && r is Err ==> r->Err_0 is Io,
{
    let now = unix_now();
    if now > MAX_UNIX_SECONDS - SESSION_SECONDS {
        return match check_login(record, password) {
            Err(e) => Err(e),
            Ok(_) => Err(
                Error::Io { detail: String::from_str("the clock is past the last cookie expiry") },
            ),
        };
    }
    open_session(jar, record, password, secret, now)
}

/// Logs out: the session cookie is removed, whether there was one or not.
pub fn logout(jar: CookieJar) -> (r: CookieJar)
    ensures
        jar_cookies(r) == without_session(jar_cookies(jar)),
{
    let r = jar_remove(jar, "token", "/");
    proof {
        reveal_strlit("token");
    }
    r
}

/// The session of a request at time `now`: the claims of the token in its
/// `token` cookie. No cookie, or a token that does not decode (a bad
/// signature, an expired or a malformed token), is one and the same failure.
pub open spec fn session_at(
    cookies: Map<Seq<char>, Seq<char>>,
    secret: Seq<char>,
    now: i64,
) -> Result<Claims, Error> {
    if !cookies.contains_key(token_cookie_name()) {
        Err(Error::Domain(Fault::SessionRequired))
    } else {
        match decoded(cookies[token_cookie_name()], secret, now) {
            Ok(c) => Ok(c),
            Err(_) => Err(Error::Domain(Fault::SessionRequired)),
        }
    }
}

/// Reads the session of a request at time `now`.
pub fn authenticate(jar: &CookieJar, secret: &Secret, now: i64) -> (r: Result<Claims, Error>)
    ensures
        r == session_at(jar_cookies(*jar), secret@, now),
{
    let value = jar_value(jar, "token");
    proof {
        reveal_strlit("token");
    }
    match value {
        None => Err(Error::Domain(Fault::SessionRequired)),
        Some(token) => match decode_token(token.as_str(), secret, now) {
            Ok(c) => Ok(c),
            Err(_) => Err(Error::Domain(Fault::SessionRequired)),
        },
    }
}

/// Reads the session of a request now; see `authenticate`.
pub fn current_session(jar: &CookieJar, secret: &Secret) -> (r: Result<Claims, Error>)
    ensures
        exists|now: i64| r == session_at(jar_cookies(*jar), secret@, now),
{
    let now = unix_now();
    authenticate(jar, secret, now)
}

/// A profile, in the shape of the role.
#[derive(Clone, Debug, PartialEq, Eq)]
pub enum Profile {
    Teacher(Teacher),
    Principal(Employee),
}

/// Which profile to fetch for a session: a teacher joined with their
/// linkage row, or a principal's employee row.
#[derive(Clone, Copy, Debug, PartialEq, Eq, Structural)]
pub enum ProfileQuery {
    Teacher { employee_id: i32 },
    Principal { employee_id: i32 },
}

/// The profile to fetch for the claims of a session.
pub fn profile_query(claims: &Claims) -> (r: ProfileQuery)
    ensures
        r == (match claims.role {
            Role::Teacher => ProfileQuery::Teacher { employee_id: claims.employee_id },
            Role::Principal => ProfileQuery::Principal { employee_id: claims.employee_id },
        }),
{
    match claims.role {
        Role::Teacher => ProfileQuery::Teacher { employee_id: claims.employee_id },
        Role::Principal => ProfileQuery::Principal { employee_id: claims.employee_id },
    }
}

/// The outcome of fetching a profile: the profile, or a not-found fault when
/// the employee of the session is gone.
pub fn profile_result(found: Result<Option<Profile>, StoreError>) -> (r: Result<Profile, Error>)
    ensures
        match found {
            Ok(Some(p)) => r == Ok::<Profile, Error>(p),
            Ok(None) => r == Err::<Profile, Error>(Error::Domain(Fault::ProfileNotFound)),
            Err(e) => r == Err::<Profile, Error>(Error::Store { detail: detail_of(e) }),
        },
{
    match found {
        Ok(Some(p)) => Ok(p),
        Ok(None) => Err(Error::Domain(Fault::ProfileNotFound)),
        Err(e) => Err(unexpected(e)),
    }
}

/// An employee whose stored hash was made from a password logs in with it,
/// and the session cookie then holds the token signed from the claims of
/// their id and role, expiring three days later.
pub proof fn lemma_registered_login(
    record: LoginRecord,
    password: Seq<char>,
    cookies: Map<Seq<char>, Seq<char>>,
    secret: Seq<char>,
    now: i64,
)
    requires
        phc_parses(record.password_hash@),
        password_matches(password, record.password_hash@),
    ensures
        login_check(Some(record), password) == Ok::<(i32, Role), Error>(
            (record.employee_id, record.role),
        ),
        with_session(
            cookies,
            session_claims(record.employee_id, record.role, now),
            secret,
        )[token_cookie_name()] == signed_token(
            payload(
                Claims {
                    employee_id: record.employee_id,
                    role: record.role,
                    expires_at: (now + SESSION_SECONDS) as i64,
                },
            ),
            secret,
        ),
{
}

/// A wrong password for a known phone and any password for an unknown phone
/// fail with one and the same error, so with the same response.
pub proof fn lemma_failed_logins_alike(record: LoginRecord, wrong: Seq<char>, any: Seq<char>)
    requires
        phc_parses(record.password_hash@),
        !password_matches(wrong, record.password_hash@),
    ensures
        login_check(Some(record), wrong) == login_check(None, any),
        login_check(None, any) == Err::<(i32, Role), Error>(Error::Domain(Fault::InvalidCredentials)),
{
}

/// Logging out twice is logging out once: after the first logout no session
/// cookie is left, and the second changes nothing.
pub proof fn lemma_logout_twice(cookies: Map<Seq<char>, Seq<char>>)
    ensures
        !without_session(cookies).contains_key(token_cookie_name()),
        without_session(without_session(cookies)) == without_session(cookies),
{
    assert(without_session(without_session(cookies)) =~= without_session(cookies));
}

} // verus!
