//! Session state codec: the three-state trust state carried in a cookie as a
//! tagged JSON value, and the attributes of the cookies that carry it.
use crate::session::AuthSession;
use vstd::prelude::*;

verus! {

/// The trust state of a session, as carried by the client.
pub enum AuthState {
    /// A login is in flight under this session id.
    Pending(AuthSession),
    /// Logged in with this access-token secret (still to be re-validated).
    Authenticated(String),
    Unauthenticated,
}

/// The trust state as mathematical text.
pub ghost enum AuthStateView {
    Pending(Seq<char>),
    Authenticated(Seq<char>),
    Unauthenticated,
}

impl View for AuthState {
    type V = AuthStateView;

    open spec fn view(&self) -> AuthStateView {
        match self {
            AuthState::Pending(s) => AuthStateView::Pending(s.0@),
            AuthState::Authenticated(t) => AuthStateView::Authenticated(t@),
            AuthState::Unauthenticated => AuthStateView::Unauthenticated,
        }
    }
}

/// What `serde_json` writes for a string: the JSON string literal.
pub uninterp spec fn json_string(s: Seq<char>) -> Seq<char>;

/// The entries of a JSON object whose values are all strings, in key order,
/// as `serde_json` reads `text`; `None` where `text` is no such object.
pub uninterp spec fn string_object(text: Seq<char>) -> Option<Seq<(Seq<char>, Seq<char>)>>;

/// The texts of a sequence of string pairs.
pub open spec fn pair_texts(v: Seq<(String, String)>) -> Seq<(Seq<char>, Seq<char>)> {
    v.map_values(|p: (String, String)| (p.0@, p.1@))
}

/// Relies on `serde_json::to_string` on a `str`: the JSON string literal of
/// the text (serialising a string cannot fail).
#[verifier::external_body]
fn to_json_string(s: &str) -> (r: String)
    ensures
        r@ == json_string(s@),
{
    serde_json::to_string(s).unwrap_or_default()
}

/// Relies on `serde_json::from_str` into a `BTreeMap<String, String>`: the
/// entries of a JSON object with string values, in key order.
#[verifier::external_body]
fn parse_string_object(text: &str) -> (r: Option<Vec<(String, String)>>)
    ensures
        match r {
            Some(v) => string_object(text@) == Some(pair_texts(v@)),
            None => string_object(text@) is None,
        },
{
    serde_json::from_str::<std::collections::BTreeMap<String, String>>(text).ok().map(
        |m| m.into_iter().collect(),
    )
}

pub open spec fn pending_tag() -> Seq<char> {
    seq!['P', 'e', 'n', 'd', 'i', 'n', 'g']
}

pub open spec fn authenticated_tag() -> Seq<char> {
    seq!['A', 'u', 't', 'h', 'e', 'n', 't', 'i', 'c', 'a', 't', 'e', 'd']
}

pub open spec fn unauthenticated_tag() -> Seq<char> {
    seq!['U', 'n', 'a', 'u', 't', 'h', 'e', 'n', 't', 'i', 'c', 'a', 't', 'e', 'd']
}

/// The object `{"<tag>":"<value>"}` as JSON text.
pub open spec fn tagged(tag: Seq<char>, value: Seq<char>) -> Seq<char> {
    seq!['{'] + json_string(tag) + seq![':'] + json_string(value) + seq!['}']
}

/// The cookie text of a state: the variant's name tagging its value, or the
/// bare name of the unit variant.
pub open spec fn encoded(st: AuthStateView) -> Seq<char> {
    match st {
        AuthStateView::Pending(id) => tagged(pending_tag(), id),
        AuthStateView::Authenticated(t) => tagged(authenticated_tag(), t),
        AuthStateView::Unauthenticated => json_string(unauthenticated_tag()),
    }
}

/// The state that a cookie text stands for: a JSON object with exactly one
/// entry, tagged `Pending` or `Authenticated` with a string value. Anything
/// else is `Unauthenticated`.
pub open spec fn decoded(text: Seq<char>) -> AuthStateView {
    match string_object(text) {
        Some(entries) => if entries.len() == 1 && entries[0].0 == pending_tag() {
            AuthStateView::Pending(entries[0].1)
        } else if entries.len() == 1 && entries[0].0 == authenticated_tag() {
            AuthStateView::Authenticated(entries[0].1)
        } else {
            AuthStateView::Unauthenticated
        },
        None => AuthStateView::Unauthenticated,
    }
}

/// `{"<tag>":"<value>"}` as JSON text.
fn tagged_text(tag: &str, value: &str) -> (r: String)
    ensures
        r@ == tagged(tag@, value@),
{
    proof {
        reveal_strlit("{");
        reveal_strlit(":");
        reveal_strlit("}");
    }
    let mut out = String::from_str("{");
    let t = to_json_string(tag);
    out.append(t.as_str());
    out.append(":");
    let v = to_json_string(value);
    out.append(v.as_str());
    out.append("}");
    assert(out@ =~= tagged(tag@, value@));
    out
}

impl AuthState {
    /// The cookie text of this state.
    pub fn encode(&self) -> (r: String)
        ensures
            r@ == encoded(self@),
    {
        proof {
            reveal_strlit("Pending");
            reveal_strlit("Authenticated");
            reveal_strlit("Unauthenticated");
        }
        let pending = "Pending";
        let authenticated = "Authenticated";
        let unauthenticated = "Unauthenticated";
        assert(pending@ =~= pending_tag());
        assert(authenticated@ =~= authenticated_tag());
        assert(unauthenticated@ =~= unauthenticated_tag());
        match self {
            AuthState::Pending(session) => tagged_text(pending, session.0.as_str()),
            AuthState::Authenticated(token) => tagged_text(authenticated, token.as_str()),
            AuthState::Unauthenticated => to_json_string(unauthenticated),
        }
    }

    /// The state that a cookie text stands for; text of any other shape
    /// decodes to `Unauthenticated`.
    pub fn decode(text: &str) -> (r: AuthState)
        ensures
            r@ == decoded(text@),
    {
        proof {
            reveal_strlit("Pending");
            reveal_strlit("Authenticated");
        }
        let pending = String::from_str("Pending");
        let authenticated = String::from_str("Authenticated");
        assert(pending@ =~= pending_tag());
        assert(authenticated@ =~= authenticated_tag());
        match parse_string_object(text) {
            None => AuthState::Unauthenticated,
            Some(mut entries) => {
                if entries.len() != 1 {
                    return AuthState::Unauthenticated;
                }
                let ghost texts = pair_texts(entries@);
                assert(texts[0] == (entries@[0].0@, entries@[0].1@));
                let (tag, value) = entries.remove(0);
                if tag == pending {
                    AuthState::Pending(AuthSession(value))
                } else if tag == authenticated {
                    AuthState::Authenticated(value)
                } else {
                    AuthState::Unauthenticated
                }
            },
        }
    }
}

/// Whether cookies are marked secure (HTTPS only).
pub const REQUIRE_HTTPS: bool = false;

/// Seconds that a pending-login cookie lives.
pub const PENDING_SECONDS: i64 = 300;

/// Seconds that an authenticated-session cookie lives.
pub const AUTHENTICATED_SECONDS: i64 = 86400;

/// Seconds that the post-login redirect cookie lives.
pub const REDIRECT_SECONDS: i64 = 300;

/// Seconds that the user-claims cookie lives.
pub const USER_SECONDS: i64 = 604800;

/// The cross-site policy of a cookie.
pub enum SameSite {
    Lax,
    Strict,
}

/// A cookie to set on a response.
pub struct ResponseCookie {
    pub name: String,
    pub value: String,
    pub max_age_seconds: i64,
    pub same_site: SameSite,
    pub http_only: bool,
    pub secure: bool,
    pub path: String,
}

/// The lifetime of the cookie of a state.
pub open spec fn validity_of(st: AuthStateView) -> int {
    match st {
        AuthStateView::Pending(_) => PENDING_SECONDS as int,
        AuthStateView::Authenticated(_) => AUTHENTICATED_SECONDS as int,
        AuthStateView::Unauthenticated => 0,
    }
}

impl AuthState {
    /// The state carried by the request's auth cookie, if it has one; a
    /// missing or unreadable cookie means `Unauthenticated`.
    pub fn from_cookie(value: Option<&str>) -> (r: AuthState)
        ensures
            match value {
                Some(v) => r@ == decoded(v@),
                None => r@ == AuthStateView::Unauthenticated,
            },
    {
        match value {
            Some(v) => AuthState::decode(v),
            None => AuthState::Unauthenticated,
        }
    }

    /// Seconds that the cookie of this state lives: short while a login is
    /// pending, a day once authenticated, none when unauthenticated.
    pub fn validity_period(&self) -> (r: i64)
        ensures
            r == validity_of(self@),
    {
        match self {
            AuthState::Pending(_) => PENDING_SECONDS,
            AuthState::Authenticated(_) => AUTHENTICATED_SECONDS,
            AuthState::Unauthenticated => 0,
        }
    }

    /// A pending cookie must survive the provider's redirect back, so it is
    /// `Lax`; every other state is `Strict`.
    pub fn same_site(&self) -> (r: SameSite)
        ensures
            (r is Lax) <==> (self@ is Pending),
    {
        match self {
            AuthState::Pending(_) => SameSite::Lax,
            _ => SameSite::Strict,
        }
    }

    /// The auth cookie that carries this state, hidden from page scripts.
    pub fn to_cookie(&self) -> (r: ResponseCookie)
        ensures
            r.name@ == "auth"@,
            r.value@ == encoded(self@),
            r.max_age_seconds == validity_of(self@),
            (r.same_site is Lax) <==> (self@ is Pending),
            r.http_only,
            r.secure == REQUIRE_HTTPS,
            r.path@ == "/"@,
    {
        ResponseCookie {
            name: String::from_str("auth"),
            value: self.encode(),
            max_age_seconds: self.validity_period(),
            same_site: self.same_site(),
            http_only: true,
            secure: REQUIRE_HTTPS,
            path: String::from_str("/"),
        }
    }

    /// The state that a request is trusted with, once an `Authenticated`
    /// token has been re-validated: without a valid identity for it, the
    /// request is `Unauthenticated`. Other states pass through.
    pub fn after_validation(self, identity_found: bool) -> (r: AuthState)
        ensures
            r@ == (if self@ is Authenticated && !identity_found {
                AuthStateView::Unauthenticated
            } else {
                self@
            }),
    {
        match self {
            AuthState::Authenticated(token) => {
                if identity_found {
                    AuthState::Authenticated(token)
                } else {
                    AuthState::Unauthenticated
                }
            },
            other => other,
        }
    }
}

/// The cookie that remembers where to go after login: set only when the
/// login request named a referrer, and then holding exactly that text.
pub fn redirect_cookie(referrer: Option<&str>) -> (r: Option<ResponseCookie>)
    ensures
        match referrer {
            None => r is None,
            Some(t) => r matches Some(c) && c.name@ == "redirectURL"@ && c.value@ == t@
                && c.max_age_seconds == REDIRECT_SECONDS && c.same_site is Lax && c.http_only
                && c.secure == REQUIRE_HTTPS && c.path@ == "/"@,
        },
{
    match referrer {
        None => None,
        Some(t) => Some(
            ResponseCookie {
                name: String::from_str("redirectURL"),
                value: String::from_str(t),
                max_age_seconds: REDIRECT_SECONDS,
                same_site: SameSite::Lax,
                http_only: true,
                secure: REQUIRE_HTTPS,
                path: String::from_str("/"),
            },
        ),
    }
}

/// The cookie that carries the user's claims to the page (readable by it).
pub fn user_cookie(claims: String) -> (r: ResponseCookie)
    ensures
        r.name@ == "user"@,
        r.value@ == claims@,
        r.max_age_seconds == USER_SECONDS,
        r.same_site is Strict,
        !r.http_only,
        r.secure == REQUIRE_HTTPS,
        r.path@ == "/"@,
{
    ResponseCookie {
        name: String::from_str("user"),
        value: claims,
        max_age_seconds: USER_SECONDS,
        same_site: SameSite::Strict,
        http_only: false,
        secure: REQUIRE_HTTPS,
        path: String::from_str("/"),
    }
}

/// Where a successful login lands.
pub enum Landing {
    /// Go on to `target`, and clear the cookie named `clear`, so that the
    /// target is used once.
    Redirect { target: String, clear: String },
    /// Stay on the success page.
    Stay,
}

/// The landing after a successful login, given the redirect cookie's value.
pub fn landing(redirect: Option<String>) -> (r: Landing)
    ensures
        match redirect {
            Some(t) => r matches Landing::Redirect { target, clear } && target@ == t@ && clear@
                == "redirectURL"@,
            None => r is Stay,
        },
{
    match redirect {
        Some(target) => Landing::Redirect { target, clear: String::from_str("redirectURL") },
        None => Landing::Stay,
    }
}

/// The cookies that answer a login callback.
pub enum CallbackResponse {
    /// Authenticated: the auth cookie with the access token, and the user
    /// cookie with the claims.
    Succeeded { auth: ResponseCookie, user: ResponseCookie },
    /// The login failed or was not pending: the auth cookie is cleared.
    Failed { auth: ResponseCookie },
}

/// The answer to a login callback, given the state that the request carried
/// and `login`: the access token and serialized claims of a completed login,
/// `None` if it failed or was not tried. Only a pending session moves to
/// `Authenticated`; everything else ends `Unauthenticated`, with a cookie of
/// no lifetime.
pub fn callback_response(state: &AuthState, login: Option<(String, String)>) -> (r:
    CallbackResponse)
    ensures
        if state@ is Pending && login is Some {
            r matches CallbackResponse::Succeeded { auth, user } && auth.name@ == "auth"@
                && auth.value@ == encoded(AuthStateView::Authenticated(login->Some_0.0@))
                && auth.max_age_seconds == AUTHENTICATED_SECONDS && auth.same_site is Strict
                && auth.http_only && auth.path@ == "/"@ && user.value@ == login->Some_0.1@
                && user.name@ == "user"@ && user.max_age_seconds == USER_SECONDS
                && user.same_site is Strict && !user.http_only
        } else {
            r matches CallbackResponse::Failed { auth } && auth.name@ == "auth"@ && auth.value@
                == encoded(AuthStateView::Unauthenticated) && auth.max_age_seconds == 0
                && auth.same_site is Strict && auth.http_only && auth.path@ == "/"@
        },
{
    match (state, login) {
        (AuthState::Pending(_), Some((token, claims))) => CallbackResponse::Succeeded {
            auth: AuthState::Authenticated(token).to_cookie(),
            user: user_cookie(claims),
        },
        _ => CallbackResponse::Failed { auth: AuthState::Unauthenticated.to_cookie() },
    }
}

} // verus!
