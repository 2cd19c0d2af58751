//! The user session of a request: who is signed in, and the text of the
//! authentication cookie that records it.

use crate::models::users::User;
use vstd::prelude::*;

verus! {

/// The name of the cookie that holds the signed-in user's id.
pub const AUTH_COOKIE: &'static str = "blog_auth";

/// The decimal digits of `n`, most significant first, with no leading zero.
pub open spec fn decimal_text(n: nat) -> Seq<char>
    decreases n,
{
    if n < 10 {
        seq![digit_char(n)]
    } else {
        decimal_text(n / 10).push(digit_char(n % 10))
    }
}

/// The character of the decimal digit `d` (`d < 10`).
pub open spec fn digit_char(d: nat) -> char {
    if d == 0 { '0' }
    else if d == 1 { '1' }
    else if d == 2 { '2' }
    else if d == 3 { '3' }
    else if d == 4 { '4' }
    else if d == 5 { '5' }
    else if d == 6 { '6' }
    else if d == 7 { '7' }
    else if d == 8 { '8' }
    else { '9' }
}

/// What `serde_json` reads from `text` as an optional user id: `None` where
/// `text` is not JSON for an `Option<u64>`, else the value it holds.
pub uninterp spec fn json_user_id(text: Seq<char>) -> Option<Option<u64>>;

/// Serialises a user id as JSON.
///
/// Calls `serde_json::to_string` on the `u64`. The contract claims that it
/// succeeds (a `u64` is written with `itoa` into a `Vec`, which cannot fail)
/// and gives the decimal digits of the id.
#[verifier::external_body]
fn user_id_json(id: u64) -> (res: Option<String>)
    ensures
        res is Some,
        res.unwrap()@ == decimal_text(id as nat),
{
    serde_json::to_string(&id).ok()
}

/// Reads an optional user id from JSON text.
///
/// Calls `serde_json::from_str::<Option<u64>>`; an error gives `None`. The
/// contract claims that the result is the named function of the text, that
/// `null` reads as no id, and that the decimal digits of a `u64` read as
/// that id (the deserializer takes an unsigned integer token and then only
/// trailing whitespace).
#[verifier::external_body]
fn parse_user_id(text: &str) -> (res: Option<Option<u64>>)
    ensures
        res == json_user_id(text@),
        text@ == "null"@ ==> res == Some(None::<u64>),
        forall|n: u64| text@ == decimal_text(n as nat) ==> res == Some(Some(n)),
{
    serde_json::from_str::<Option<u64>>(text).ok()
}

/// The user id that an authentication cookie records: none without a
/// cookie, else what its value reads as.
pub open spec fn cookie_user_id(cookie: Option<Seq<char>>) -> Option<u64> {
    match cookie {
        None => None,
        Some(v) => json_user_id(v).unwrap(),
    }
}

/// Whether `v` is the decimal text of some user id.
pub open spec fn is_user_id_text(v: Seq<char>) -> bool {
    exists|n: u64| #[trigger] decimal_text(n as nat) == v
}

/// Whether the authentication cookie, if there is one, holds JSON for an
/// optional user id (the decimal text of an id, as `signin` writes it, and
/// `null` are such JSON).
pub open spec fn cookie_readable(cookie: Option<Seq<char>>) -> bool {
    match cookie {
        None => true,
        Some(v) => json_user_id(v) is Some || is_user_id_text(v) || v == "null"@,
    }
}

/// The user id that the authentication cookie `cookie` records.
pub fn session_user_id(cookie: Option<&str>) -> (res: Option<u64>)
    requires
        cookie_readable(cookie.deep_view()),
    ensures
        res == cookie_user_id(cookie.deep_view()),
        forall|n: u64| cookie.deep_view() == Some(decimal_text(n as nat)) ==> res == Some(n),
        cookie.deep_view() == Some("null"@) ==> res is None,
{
    match cookie {
        Some(value) => {
            let parsed = parse_user_id(value);
            parsed.unwrap()
        },
        None => None,
    }
}

/// The session of a request: the signed-in user, if any, and whether the
/// request's cookies are at hand.
pub struct UserSession {
    user_id: Option<u64>,
    cookies: bool,
    is_signedin: bool,
}

impl UserSession {
    /// The id of the signed-in user, if any.
    pub closed spec fn user_id_spec(&self) -> Option<u64> {
        self.user_id
    }

    /// Whether the session was built with the request's cookies.
    pub closed spec fn has_cookies_spec(&self) -> bool {
        self.cookies
    }

    pub closed spec fn is_signedin_spec(&self) -> bool {
        self.is_signedin
    }

    /// A session without cookies, in which no one is signed in.
    pub fn new() -> (res: UserSession)
        ensures
            res.user_id_spec() is None,
            !res.has_cookies_spec(),
            !res.is_signedin_spec(),
    {
        UserSession { user_id: None, cookies: false, is_signedin: false }
    }

    /// The session of a request whose signed-in user, if any, has id `user_id`.
    pub fn build(user_id: Option<u64>) -> (res: UserSession)
        ensures
            res.user_id_spec() == user_id,
            res.has_cookies_spec(),
            res.is_signedin_spec() == (user_id is Some),
    {
        let signed_in = match user_id {
            Some(_) => true,
            None => false,
        };
        UserSession { user_id, cookies: true, is_signedin: signed_in }
    }

    /// The session recorded by the authentication cookie `cookie` of a request.
    pub fn build_from(cookie: Option<&str>) -> (res: UserSession)
        requires
            cookie_readable(cookie.deep_view()),
        ensures
            res.user_id_spec() == cookie_user_id(cookie.deep_view()),
            res.has_cookies_spec(),
            res.is_signedin_spec() == (res.user_id_spec() is Some),
            forall|n: u64| cookie.deep_view() == Some(decimal_text(n as nat)) ==> res.user_id_spec() == Some(n),
            cookie.deep_view() == Some("null"@) ==> res.user_id_spec() is None,
    {
        let user_id = session_user_id(cookie);
        let is_signed_in = if let Some(_) = user_id { true } else { false };
        UserSession { user_id, cookies: true, is_signedin: is_signed_in }
    }

    /// The session recorded by the authentication cookie `cookie`, or `None`
    /// where the cookie does not hold JSON for an optional user id.
    pub fn try_build_from(cookie: Option<&str>) -> (res: Option<UserSession>)
        ensures
            res is Some <==> cookie_readable(cookie.deep_view()),
            res matches Some(s) ==> s.user_id_spec() == cookie_user_id(cookie.deep_view())
                && s.has_cookies_spec() && s.is_signedin_spec() == (s.user_id_spec() is Some),
            forall|n: u64| cookie.deep_view() == Some(decimal_text(n as nat))
                ==> (res matches Some(s) && s.user_id_spec() == Some(n)),
            cookie.deep_view() == Some("null"@) ==> (res matches Some(s) && s.user_id_spec() is None),
    {
        let readable = match cookie {
            Some(value) => parse_user_id(value).is_some(),
            None => true,
        };
        if readable {
            Some(UserSession::build_from(cookie))
        } else {
            None
        }
    }

    /// The value of the authentication cookie that signs in `signed_user`:
    /// the JSON text of the user's id.
    pub fn signin(&self, signed_user: &User) -> (cookie: String)
        requires
            self.has_cookies_spec(),
        ensures
            cookie@ == decimal_text(signed_user@.id as nat),
    {
        let serialized = user_id_json(signed_user.id);
        serialized.unwrap()
    }

    /// Signs `signed_user` out of the session, whose user they must be.
    pub fn signout(self, signed_user: &User) -> (res: Result<bool, &'static str>)
        requires
            self.user_id_spec() == Some(signed_user@.id),
        ensures
            res == Ok::<bool, &'static str>(true),
    {
        Ok(true)
    }

    /// The id of the signed-in user, if any.
    pub fn user_id(&self) -> (res: Option<u64>)
        ensures
            res == self.user_id_spec(),
    {
        self.user_id
    }

    /// Whether the session was built with the request's cookies.
    pub fn has_cookies(&self) -> (res: bool)
        ensures
            res == self.has_cookies_spec(),
    {
        self.cookies
    }

    /// Whether someone is signed in.
    pub fn is_signedin(&self) -> (res: bool)
        ensures
            res == self.is_signedin_spec(),
    {
        self.is_signedin
    }
}

} // verus!
