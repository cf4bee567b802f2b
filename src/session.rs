//! Pending-session store: the secrets of each login attempt in flight, keyed by
//! an opaque session id and handed out at most once.
use crate::keyed::KeyedStore;
use vstd::prelude::*;

verus! {

/// What the URL-safe base64 engine without padding makes of these bytes.
pub uninterp spec fn url_safe_no_pad(bytes: Seq<u8>) -> Seq<char>;

/// A character of the URL-safe base64 alphabet.
pub open spec fn url_safe_char(c: char) -> bool {
    ('A' <= c && c <= 'Z') || ('a' <= c && c <= 'z') || ('0' <= c && c <= '9') || c == '-' || c
        == '_'
}

/// Text of `len` URL-safe base64 characters.
pub open spec fn url_safe_text(s: Seq<char>, len: nat) -> bool {
    s.len() == len && forall|i: int| 0 <= i < s.len() ==> url_safe_char(#[trigger] s[i])
}

/// Relies on rand::thread_rng: sixteen bytes drawn from the thread-local generator.
#[verifier::external_body]
fn random_session_bytes() -> (r: Vec<u8>)
    ensures
        r@.len() == 16,
{
    let mut bytes = [0u8; 16];
    rand::Rng::fill(&mut rand::thread_rng(), &mut bytes[..]);
    bytes.to_vec()
}

/// Relies on base64's `URL_SAFE_NO_PAD` engine to encode the bytes: four
/// characters of the URL-safe alphabet per three bytes, without padding.
#[verifier::external_body]
fn encode_url_safe(bytes: &Vec<u8>) -> (r: String)
    ensures
        r@ == url_safe_no_pad(bytes@),
        url_safe_text(r@, ((4 * bytes@.len() + 2) / 3) as nat),
{
    base64::Engine::encode(&base64::engine::general_purpose::URL_SAFE_NO_PAD, bytes)
}

/// Relies on openidconnect's `CsrfToken::new_random`: sixteen fresh random
/// bytes, URL-safe base64 encoded without padding.
#[verifier::external_body]
fn random_csrf_token() -> (r: String)
    ensures
        url_safe_text(r@, 22),
{
    openidconnect::CsrfToken::new_random().secret().clone()
}

/// Relies on openidconnect's `Nonce::new_random`: sixteen fresh random bytes,
/// URL-safe base64 encoded without padding.
#[verifier::external_body]
fn random_nonce() -> (r: String)
    ensures
        url_safe_text(r@, 22),
{
    openidconnect::Nonce::new_random().secret().clone()
}

/// Relies on openidconnect's `PkceCodeChallenge::new_random_sha256`: a PKCE
/// code verifier of 32 fresh random bytes, URL-safe base64 encoded without
/// padding (its challenge is derived from it again later).
#[verifier::external_body]
fn random_pkce_verifier() -> (r: String)
    ensures
        url_safe_text(r@, 43),
{
    openidconnect::PkceCodeChallenge::new_random_sha256().1.secret().clone()
}

/// The opaque, URL-safe identifier of one pending login.
#[derive(Clone, Debug, Hash, PartialEq, Eq)]
pub struct AuthSession(pub String);

impl AuthSession {
    /// The identifier made of these random bytes.
    pub fn from_bytes(bytes: &Vec<u8>) -> (r: AuthSession)
        ensures
            r.0@ == url_safe_no_pad(bytes@),
            url_safe_text(r.0@, ((4 * bytes@.len() + 2) / 3) as nat),
    {
        AuthSession(encode_url_safe(bytes))
    }

    /// A fresh identifier made of sixteen random bytes (128 bits): 22
    /// URL-safe characters.
    pub fn new_random() -> (r: AuthSession)
        ensures
            exists|b: Seq<u8>| b.len() == 16 && r.0@ == url_safe_no_pad(b),
            url_safe_text(r.0@, 22),
    {
        let bytes = random_session_bytes();
        AuthSession::from_bytes(&bytes)
    }
}

/// The secrets of one login attempt, as mathematical text.
pub struct PendingSecretsView {
    pub csrf_token: Seq<char>,
    pub nonce: Seq<char>,
    pub pkce_verifier: Seq<char>,
}

/// The secrets generated when a login starts and checked when it completes.
pub struct PendingSecrets {
    pub csrf_token: String,
    pub nonce: String,
    pub pkce_verifier: String,
}

impl View for PendingSecrets {
    type V = PendingSecretsView;

    open spec fn view(&self) -> PendingSecretsView {
        PendingSecretsView {
            csrf_token: self.csrf_token@,
            nonce: self.nonce@,
            pkce_verifier: self.pkce_verifier@,
        }
    }
}

impl PendingSecrets {
    /// A copy of these secrets.
    pub fn duplicate(&self) -> (r: PendingSecrets)
        ensures
            r@ == self@,
    {
        PendingSecrets {
            csrf_token: self.csrf_token.clone(),
            nonce: self.nonce.clone(),
            pkce_verifier: self.pkce_verifier.clone(),
        }
    }

    /// Fresh random secrets for a new login attempt: a 128-bit CSRF token
    /// and nonce, and a 256-bit PKCE verifier, all URL-safe text.
    pub fn new_random() -> (r: PendingSecrets)
        ensures
            url_safe_text(r.csrf_token@, 22),
            url_safe_text(r.nonce@, 22),
            url_safe_text(r.pkce_verifier@, 43),
    {
        PendingSecrets {
            csrf_token: random_csrf_token(),
            nonce: random_nonce(),
            pkce_verifier: random_pkce_verifier(),
        }
    }
}

/// The logins in flight: session id to secrets.
pub struct PendingStore {
    sessions: KeyedStore<PendingSecrets>,
}

impl View for PendingStore {
    type V = Map<Seq<char>, PendingSecretsView>;

    closed spec fn view(&self) -> Map<Seq<char>, PendingSecretsView> {
        self.sessions@.map_values(|s: PendingSecrets| s@)
    }
}

impl PendingStore {
    pub closed spec fn wf(&self) -> bool {
        self.sessions.wf()
    }

    /// An empty store.
    pub fn new() -> (r: PendingStore)
        ensures
            r.wf(),
            r@ == Map::<Seq<char>, PendingSecretsView>::empty(),
    {
        let r = PendingStore { sessions: KeyedStore::new() };
        assert(r@ =~= Map::<Seq<char>, PendingSecretsView>::empty());
        r
    }

    /// Records `secrets` under `session`, replacing what was there.
    pub fn insert(&mut self, session: &AuthSession, secrets: PendingSecrets)
        requires
            old(self).wf(),
        ensures
            final(self).wf(),
            final(self)@ == old(self)@.insert(session.0@, secrets@),
    {
        self.sessions.insert(session.0.clone(), secrets);
        assert(self@ =~= old(self)@.insert(session.0@, secrets@));
    }

    /// Starts a login attempt: a fresh session id with fresh secrets, recorded
    /// in the store. The caller gets the id and a copy of the secrets.
    pub fn create(&mut self) -> (r: (AuthSession, PendingSecrets))
        requires
            old(self).wf(),
        ensures
            final(self).wf(),
            final(self)@ == old(self)@.insert(r.0.0@, r.1@),
            exists|b: Seq<u8>| b.len() == 16 && r.0.0@ == url_safe_no_pad(b),
            url_safe_text(r.0.0@, 22),
            url_safe_text(r.1.csrf_token@, 22),
            url_safe_text(r.1.nonce@, 22),
            url_safe_text(r.1.pkce_verifier@, 43),
    {
        let session = AuthSession::new_random();
        let secrets = PendingSecrets::new_random();
        let copy = secrets.duplicate();
        self.insert(&session, secrets);
        (session, copy)
    }

    /// Takes out the secrets of `session`: they are removed whether or not the
    /// login then succeeds, so each session id is used at most once.
    pub fn consume(&mut self, session: &AuthSession) -> (r: Option<PendingSecrets>)
        requires
            old(self).wf(),
        ensures
            final(self).wf(),
            final(self)@ == old(self)@.remove(session.0@),
            match r {
                Some(s) => old(self)@.contains_key(session.0@) && s@ == old(self)@[session.0@],
                None => !old(self)@.contains_key(session.0@),
            },
    {
        let r = self.sessions.remove(session.0.as_str());
        assert(self@ =~= old(self)@.remove(session.0@));
        r
    }
}

} // verus!
