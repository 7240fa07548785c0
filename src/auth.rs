use vstd::prelude::*;

use crate::message::current_timestamp;

verus! {

/// How long an issued token stays valid, in seconds.
pub const TOKEN_LIFETIME_SECS: u64 = 1800;

/// The status code of a successful response.
pub const STATUS_OK: u16 = 200;

/// The claims of an access token: its subject and when it expires, in
/// seconds since the epoch.
#[derive(Debug, Clone)]
pub struct Claims {
    pub sub: String,
    pub exp: u64,
}

/// When a token issued at `now` expires; a time too late to add to stays at
/// the largest value.
pub open spec fn expiry_of(now: u64) -> u64 {
    if now + TOKEN_LIFETIME_SECS <= u64::MAX {
        (now + TOKEN_LIFETIME_SECS) as u64
    } else {
        u64::MAX
    }
}

impl Claims {
    /// The claims of a token for `username` issued at `now`.
    pub fn issued_at(username: &str, now: u64) -> (r: Claims)
        ensures
            r.sub@ == username@,
            r.exp == expiry_of(now),
    {
        Claims { sub: username.to_owned(), exp: now.saturating_add(TOKEN_LIFETIME_SECS) }
    }

    /// The claims of a token for `username` issued now.
    pub fn new(username: &str) -> (r: Claims)
        ensures
            r.sub@ == username@,
    {
        let now = current_timestamp();
        Claims::issued_at(username, now)
    }

    /// The subject, while the token has not expired at `now`.
    pub fn subject_at(&self, now: u64) -> (r: Option<String>)
        ensures
            r is Some <==> now <= self.exp,
            r matches Some(s) ==> s@ == self.sub@,
    {
        if self.exp >= now {
            Some(self.sub.clone())
        } else {
            None
        }
    }
}

/// The user name carried by a valid token cookie.
#[derive(Debug, Clone)]
pub struct JwtToken(pub String);

/// A request whose authorization header held a valid token.
#[derive(Debug, Clone)]
pub struct TokenGuard(String);

impl TokenGuard {
    /// Admits a request by its authorization header, given whether that
    /// header's token decodes and is unexpired.
    pub fn from_header(header: Option<&str>, token_valid: bool) -> (r: Result<TokenGuard, &'static str>)
        ensures
            header is None ==> r == Err::<TokenGuard, &'static str>("Missing token"),
            header is Some && !token_valid ==> r == Err::<TokenGuard, &'static str>("Invalid token"),
            header is Some && token_valid ==> (r matches Ok(g) && g@ == header->0@),
    {
        match header {
            None => Err("Missing token"),
            Some(t) => {
                if token_valid {
                    Ok(TokenGuard(t.to_owned()))
                } else {
                    Err("Invalid token")
                }
            },
        }
    }

    /// The token.
    pub fn token(&self) -> (r: &str)
        ensures
            r@ == self@,
    {
        self.0.as_str()
    }
}

impl View for TokenGuard {
    type V = Seq<char>;

    closed spec fn view(&self) -> Seq<char> {
        self.0@
    }
}

/// The answer to a pre-flight request on the login route.
pub fn options_login() -> (r: u16)
    ensures
        r == STATUS_OK,
{
    STATUS_OK
}

/// The answer to a pre-flight request on the sign-up route.
pub fn options_signup() -> (r: u16)
    ensures
        r == STATUS_OK,
{
    STATUS_OK
}

/// The greeting of the protected route for the token's user.
pub fn protected_route(token: JwtToken) -> (r: String)
    ensures
        r@ == "Hello, "@ + token.0@ + "! This is a protected route."@,
{
    let mut s = "Hello, ".to_owned();
    s.append(token.0.as_str());
    s.append("! This is a protected route.");
    s
}

} // verus!
