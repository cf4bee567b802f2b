//! The decisions of the authorization-code callback. Each network step (token
//! exchange, user-info request) is performed by the caller, which hands its
//! outcome back; every check fails closed at the first problem.
use crate::session::{AuthSession, PendingSecretsView, PendingStore};
use vstd::prelude::*;

verus! {

/// Why a login attempt failed. Meant for server-side diagnostics only.
pub enum LoginFailure {
    UnknownSession,
    CsrfMismatch,
    ExchangeFailed,
    MissingIdToken,
    IdTokenRejected,
    HashUnavailable,
    AccessTokenHashMismatch,
    UserInfoFailed,
    /// A required group that the user does not hold.
    MissingGroup(String),
}

/// What the caller does next.
pub enum LoginStep {
    /// Exchange the authorization code with this PKCE verifier, then verify
    /// the ID token against this nonce.
    ExchangeCode { pkce_verifier: String, nonce: String },
    /// Fetch user info with this access token.
    FetchUserInfo { access_token: String },
    /// Authenticated with this access token.
    Succeeded { access_token: String },
    Failed(LoginFailure),
}

/// The access-token hash binding as found in a verified ID token.
pub enum HashCheck {
    /// The ID token carries no access-token hash.
    NotClaimed,
    /// The claimed hash is present, but the access token could not be hashed
    /// with the ID token's signing algorithm.
    Unavailable,
    /// The claimed hash, and the hash of the issued access token.
    Compared { claimed: String, computed: String },
}

/// What the token exchange and the ID-token verification gave.
pub enum TokenOutcome {
    ExchangeFailed,
    NoIdToken,
    /// Signature or nonce verification of the ID token failed.
    IdTokenRejected,
    Verified { access_token: String, hash: HashCheck },
}

/// The provider's group claim: the names of the groups that the user holds.
pub struct GroupClaim {
    pub groups: Vec<String>,
}

/// What the user-info request gave.
pub enum UserInfoOutcome {
    Failed,
    Fetched { claims: GroupClaim },
}

/// The texts of a sequence of strings.
pub open spec fn texts(v: Seq<String>) -> Seq<Seq<char>> {
    v.map_values(|s: String| s@)
}

/// Whether every required group is among the granted ones.
pub open spec fn has_all_groups(required: Seq<Seq<char>>, granted: Seq<Seq<char>>) -> bool {
    forall|i: int| 0 <= i < required.len() ==> granted.contains(#[trigger] required[i])
}

/// The first required group that is not granted.
pub fn first_missing_group(required: &Vec<String>, granted: &Vec<String>) -> (r: Option<usize>)
    ensures
        match r {
            Some(i) => i < required@.len() && !texts(granted@).contains(required@[i as int]@)
                && has_all_groups(texts(required@).take(i as int), texts(granted@)),
            None => has_all_groups(texts(required@), texts(granted@)),
        },
{
    let mut i: usize = 0;
    while i < required.len()
        invariant
            i <= required@.len(),
            has_all_groups(texts(required@).take(i as int), texts(granted@)),
        decreases required@.len() - i,
    {
        let mut j: usize = 0;
        let mut found = false;
        while j < granted.len() && !found
            invariant
                j <= granted@.len(),
                i < required@.len(),
                found ==> texts(granted@).contains(required@[i as int]@),
                !found ==> forall|k: int| 0 <= k < j ==> granted@[k]@ != required@[i as int]@,
            decreases granted@.len() - j,
        {
            if granted[j] == required[i] {
                found = true;
                assert(texts(granted@)[j as int] == required@[i as int]@);
            }
            j = j + 1;
        }
        if !found {
            assert forall|k: int| 0 <= k < granted@.len() implies texts(granted@)[k]
                != required@[i as int]@ by {}
            return Some(i);
        }
        assert forall|k: int| 0 <= k < i + 1 implies texts(granted@).contains(
            #[trigger] texts(required@).take(i + 1)[k],
        ) by {
            if k < i {
                assert(texts(required@).take(i + 1)[k] == texts(required@).take(i as int)[k]);
            }
        }
        i = i + 1;
    }
    assert(texts(required@).take(i as int) =~= texts(required@));
    None
}

/// The outcome of the callback's own checks, as a pure step.
pub ghost enum CallbackStep {
    Exchange { pkce_verifier: Seq<char>, nonce: Seq<char> },
    UnknownSession,
    CsrfMismatch,
}

/// First step of a callback on the store's contents: the session must be
/// pending and the returned CSRF token must equal the stored one.
pub open spec fn callback_step(
    pending: Map<Seq<char>, PendingSecretsView>,
    session: Seq<char>,
    returned_csrf: Seq<char>,
) -> CallbackStep {
    if !pending.contains_key(session) {
        CallbackStep::UnknownSession
    } else if pending[session].csrf_token != returned_csrf {
        CallbackStep::CsrfMismatch
    } else {
        CallbackStep::Exchange {
            pkce_verifier: pending[session].pkce_verifier,
            nonce: pending[session].nonce,
        }
    }
}

/// Whether `step` is what `callback_step` describes.
pub open spec fn step_matches(step: LoginStep, expected: CallbackStep) -> bool {
    match expected {
        CallbackStep::Exchange { pkce_verifier, nonce } => step matches LoginStep::ExchangeCode {
            pkce_verifier: v,
            nonce: n,
        } && v@ == pkce_verifier && n@ == nonce,
        CallbackStep::UnknownSession => step matches LoginStep::Failed(LoginFailure::UnknownSession),
        CallbackStep::CsrfMismatch => step matches LoginStep::Failed(LoginFailure::CsrfMismatch),
    }
}

/// Begins a callback: consumes the pending session (whatever follows) and
/// compares the returned CSRF token with the stored one. Only on a match is
/// the code exchange asked for.
pub fn start_callback(pending: &mut PendingStore, session: &AuthSession, returned_csrf: &str) -> (r:
    LoginStep)
    requires
        old(pending).wf(),
    ensures
        final(pending).wf(),
        final(pending)@ == old(pending)@.remove(session.0@),
        step_matches(r, callback_step(old(pending)@, session.0@, returned_csrf@)),
        (r is ExchangeCode) <==> (callback_step(old(pending)@, session.0@, returned_csrf@) is Exchange),
{
    match pending.consume(session) {
        None => LoginStep::Failed(LoginFailure::UnknownSession),
        Some(secrets) => {
            let returned = String::from_str(returned_csrf);
            if returned == secrets.csrf_token {
                LoginStep::ExchangeCode { pkce_verifier: secrets.pkce_verifier, nonce: secrets.nonce }
            } else {
                LoginStep::Failed(LoginFailure::CsrfMismatch)
            }
        },
    }
}

/// Whether the access-token hash binding holds: absent, or equal.
pub open spec fn hash_binding_holds(hash: HashCheck) -> bool {
    match hash {
        HashCheck::NotClaimed => true,
        HashCheck::Unavailable => false,
        HashCheck::Compared { claimed, computed } => claimed@ == computed@,
    }
}

/// Whether the token exchange and the ID-token checks passed.
pub open spec fn tokens_pass(outcome: TokenOutcome) -> bool {
    match outcome {
        TokenOutcome::Verified { hash, .. } => hash_binding_holds(hash),
        _ => false,
    }
}

/// Whether the user info was fetched and grants every required group.
pub open spec fn user_info_passes(outcome: UserInfoOutcome, required: Seq<Seq<char>>) -> bool {
    match outcome {
        UserInfoOutcome::Fetched { claims } => has_all_groups(required, texts(claims.groups@)),
        UserInfoOutcome::Failed => false,
    }
}

/// Second step: after the token exchange and the ID-token verification, either
/// the user info is to be fetched with the issued access token, or the login
/// fails with the first problem found.
pub fn on_tokens(outcome: TokenOutcome) -> (r: LoginStep)
    ensures
        (r is FetchUserInfo) <==> tokens_pass(outcome),
        r is FetchUserInfo || r is Failed,
        match outcome {
            TokenOutcome::ExchangeFailed => r matches LoginStep::Failed(LoginFailure::ExchangeFailed),
            TokenOutcome::NoIdToken => r matches LoginStep::Failed(LoginFailure::MissingIdToken),
            TokenOutcome::IdTokenRejected => r matches LoginStep::Failed(
                LoginFailure::IdTokenRejected,
            ),
            TokenOutcome::Verified { access_token, hash } => match hash {
                HashCheck::NotClaimed => r matches LoginStep::FetchUserInfo { access_token: t }
                    && t@ == access_token@,
                HashCheck::Unavailable => r matches LoginStep::Failed(
                    LoginFailure::HashUnavailable,
                ),
                HashCheck::Compared { claimed, computed } => if claimed@ == computed@ {
                    r matches LoginStep::FetchUserInfo { access_token: t } && t@ == access_token@
                } else {
                    r matches LoginStep::Failed(LoginFailure::AccessTokenHashMismatch)
                },
            },
        },
{
    match outcome {
        TokenOutcome::ExchangeFailed => LoginStep::Failed(LoginFailure::ExchangeFailed),
        TokenOutcome::NoIdToken => LoginStep::Failed(LoginFailure::MissingIdToken),
        TokenOutcome::IdTokenRejected => LoginStep::Failed(LoginFailure::IdTokenRejected),
        TokenOutcome::Verified { access_token, hash } => match hash {
            HashCheck::NotClaimed => LoginStep::FetchUserInfo { access_token },
            HashCheck::Unavailable => LoginStep::Failed(LoginFailure::HashUnavailable),
            HashCheck::Compared { claimed, computed } => {
                if claimed == computed {
                    LoginStep::FetchUserInfo { access_token }
                } else {
                    LoginStep::Failed(LoginFailure::AccessTokenHashMismatch)
                }
            },
        },
    }
}

/// Last step: after the user-info request, the login succeeds with the access
/// token exactly when every required group is granted.
pub fn on_user_info(access_token: String, outcome: UserInfoOutcome, required_groups: &Vec<String>) -> (r:
    LoginStep)
    ensures
        (r is Succeeded) <==> user_info_passes(outcome, texts(required_groups@)),
        r is Succeeded || r is Failed,
        match outcome {
            UserInfoOutcome::Failed => r matches LoginStep::Failed(LoginFailure::UserInfoFailed),
            UserInfoOutcome::Fetched { claims } => if has_all_groups(
                texts(required_groups@),
                texts(claims.groups@),
            ) {
                r matches LoginStep::Succeeded { access_token: t } && t@ == access_token@
            } else {
                r matches LoginStep::Failed(LoginFailure::MissingGroup(g))
                    && texts(required_groups@).contains(g@) && !texts(claims.groups@).contains(g@)
            },
        },
{
    match outcome {
        UserInfoOutcome::Failed => LoginStep::Failed(LoginFailure::UserInfoFailed),
        UserInfoOutcome::Fetched { claims } => match first_missing_group(required_groups, &claims.groups) {
            None => LoginStep::Succeeded { access_token },
            Some(i) => {
                let g = required_groups[i].clone();
                assert(texts(required_groups@)[i as int] == g@);
                assert(!has_all_groups(texts(required_groups@), texts(claims.groups@)));
                LoginStep::Failed(LoginFailure::MissingGroup(g))
            },
        },
    }
}

/// A login completes exactly when the session is pending, the returned CSRF
/// token matches, the code exchange succeeds and yields an ID token, the ID
/// token verifies, the access-token hash (when claimed) matches, the user info
/// is fetched, and every required group is granted: each condition alone, when
/// violated, makes the login fail.
pub proof fn lemma_login_succeeds_iff(
    pending: Map<Seq<char>, PendingSecretsView>,
    session: Seq<char>,
    returned_csrf: Seq<char>,
    tokens: TokenOutcome,
    info: UserInfoOutcome,
    required: Seq<Seq<char>>,
)
    ensures
        (callback_step(pending, session, returned_csrf) is Exchange && tokens_pass(tokens)
            && user_info_passes(info, required)) <==> {
            &&& pending.contains_key(session)
            &&& pending[session].csrf_token == returned_csrf
            &&& !(tokens is ExchangeFailed)
            &&& !(tokens is NoIdToken)
            &&& !(tokens is IdTokenRejected)
            &&& (tokens matches TokenOutcome::Verified { hash, .. } ==> hash_binding_holds(hash))
            &&& !(info is Failed)
            &&& (info matches UserInfoOutcome::Fetched { claims } ==> has_all_groups(
                required,
                texts(claims.groups@),
            ))
        },
{
}

/// A pending session id can be used once: after a callback consumed it, a
/// second callback with the same id fails as an unknown session, whatever
/// CSRF token it brings.
pub proof fn lemma_session_single_use(
    pending: Map<Seq<char>, PendingSecretsView>,
    session: Seq<char>,
    second_csrf: Seq<char>,
)
    ensures
        callback_step(pending.remove(session), session, second_csrf) is UnknownSession,
{
}

} // verus!
