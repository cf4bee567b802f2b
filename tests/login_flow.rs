use thought::keyed::KeyedStore;
use thought::login::{
    first_missing_group, on_tokens, GroupClaim, on_user_info, start_callback, HashCheck, LoginFailure,
    LoginStep, TokenOutcome, UserInfoOutcome,
};
use thought::session::{AuthSession, PendingSecrets, PendingStore};

fn secrets(csrf: &str) -> PendingSecrets {
    PendingSecrets {
        csrf_token: csrf.to_string(),
        nonce: "nonce-1".to_string(),
        pkce_verifier: "verifier-1".to_string(),
    }
}

fn strings(v: &[&str]) -> Vec<String> {
    v.iter().map(|s| s.to_string()).collect()
}

fn store_with(id: &str, csrf: &str) -> (PendingStore, AuthSession) {
    let mut store = PendingStore::new();
    let session = AuthSession(id.to_string());
    store.insert(&session, secrets(csrf));
    (store, session)
}

fn verified(token: &str, hash: HashCheck) -> TokenOutcome {
    TokenOutcome::Verified { access_token: token.to_string(), hash }
}

#[test]
fn keyed_store_insert_get_remove() {
    let mut store: KeyedStore<u32> = KeyedStore::new();
    assert!(store.get("a").is_none());
    store.insert("a".to_string(), 1);
    store.insert("b".to_string(), 2);
    store.insert("a".to_string(), 3);
    assert_eq!(store.get("a"), Some(&3));
    assert_eq!(store.get("b"), Some(&2));
    assert_eq!(store.remove("a"), Some(3));
    assert_eq!(store.remove("a"), None);
    assert_eq!(store.get("b"), Some(&2));
}

#[test]
fn session_id_is_url_safe_base64_of_bytes() {
    let s = AuthSession::from_bytes(&vec![0xfb, 0xff]);
    assert_eq!(s.0, "-_8");
    let zeros = AuthSession::from_bytes(&vec![0u8; 16]);
    assert_eq!(zeros.0, "AAAAAAAAAAAAAAAAAAAAAA");
}

#[test]
fn random_session_ids_differ_and_are_url_safe() {
    let a = AuthSession::new_random();
    let b = AuthSession::new_random();
    assert_eq!(a.0.len(), 22);
    assert_ne!(a.0, b.0);
    assert!(a.0.chars().all(|c| c.is_ascii_alphanumeric() || c == '-' || c == '_'));
}

#[test]
fn created_session_is_consumed_once() {
    let mut store = PendingStore::new();
    let (session, copy) = store.create();
    assert!(!copy.csrf_token.is_empty());
    assert!(!copy.nonce.is_empty());
    assert!(!copy.pkce_verifier.is_empty());
    let taken = store.consume(&session).expect("pending session");
    assert_eq!(taken.csrf_token, copy.csrf_token);
    assert_eq!(taken.nonce, copy.nonce);
    assert_eq!(taken.pkce_verifier, copy.pkce_verifier);
    assert!(store.consume(&session).is_none());
}

#[test]
fn unknown_session_fails() {
    let mut store = PendingStore::new();
    let step = start_callback(&mut store, &AuthSession("nope".to_string()), "csrf");
    assert!(matches!(step, LoginStep::Failed(LoginFailure::UnknownSession)));
}

#[test]
fn matching_csrf_asks_for_exchange() {
    let (mut store, session) = store_with("s1", "csrf-a");
    match start_callback(&mut store, &session, "csrf-a") {
        LoginStep::ExchangeCode { pkce_verifier, nonce } => {
            assert_eq!(pkce_verifier, "verifier-1");
            assert_eq!(nonce, "nonce-1");
        }
        _ => panic!("expected the code exchange"),
    }
}

#[test]
fn csrf_mismatch_fails_before_exchange() {
    let (mut store, session) = store_with("s1", "csrf-a");
    let step = start_callback(&mut store, &session, "csrf-b");
    assert!(matches!(step, LoginStep::Failed(LoginFailure::CsrfMismatch)));
    assert!(!matches!(step, LoginStep::ExchangeCode { .. }));
    // the session is gone even though the attempt failed
    let again = start_callback(&mut store, &session, "csrf-a");
    assert!(matches!(again, LoginStep::Failed(LoginFailure::UnknownSession)));
}

#[test]
fn second_callback_with_same_session_fails() {
    let (mut store, session) = store_with("s1", "csrf-a");
    let first = start_callback(&mut store, &session, "csrf-a");
    assert!(matches!(first, LoginStep::ExchangeCode { .. }));
    let second = start_callback(&mut store, &session, "csrf-a");
    assert!(matches!(second, LoginStep::Failed(LoginFailure::UnknownSession)));
}

#[test]
fn token_outcomes() {
    assert!(matches!(
        on_tokens(TokenOutcome::ExchangeFailed),
        LoginStep::Failed(LoginFailure::ExchangeFailed)
    ));
    assert!(matches!(
        on_tokens(TokenOutcome::NoIdToken),
        LoginStep::Failed(LoginFailure::MissingIdToken)
    ));
    assert!(matches!(
        on_tokens(TokenOutcome::IdTokenRejected),
        LoginStep::Failed(LoginFailure::IdTokenRejected)
    ));
    assert!(matches!(
        on_tokens(verified("at", HashCheck::Unavailable)),
        LoginStep::Failed(LoginFailure::HashUnavailable)
    ));
    let mismatch = HashCheck::Compared { claimed: "h1".to_string(), computed: "h2".to_string() };
    assert!(matches!(
        on_tokens(verified("at", mismatch)),
        LoginStep::Failed(LoginFailure::AccessTokenHashMismatch)
    ));
    let same = HashCheck::Compared { claimed: "h1".to_string(), computed: "h1".to_string() };
    match on_tokens(verified("at", same)) {
        LoginStep::FetchUserInfo { access_token } => assert_eq!(access_token, "at"),
        _ => panic!("expected the user-info request"),
    }
    match on_tokens(verified("at2", HashCheck::NotClaimed)) {
        LoginStep::FetchUserInfo { access_token } => assert_eq!(access_token, "at2"),
        _ => panic!("expected the user-info request"),
    }
}

#[test]
fn user_info_outcomes() {
    let required = strings(&["notes", "admins"]);
    let ok = UserInfoOutcome::Fetched { claims: GroupClaim { groups: strings(&["admins", "staff", "notes"]) } };
    match on_user_info("at".to_string(), ok, &required) {
        LoginStep::Succeeded { access_token } => assert_eq!(access_token, "at"),
        _ => panic!("expected success"),
    }
    let missing = UserInfoOutcome::Fetched { claims: GroupClaim { groups: strings(&["notes"]) } };
    match on_user_info("at".to_string(), missing, &required) {
        LoginStep::Failed(LoginFailure::MissingGroup(g)) => assert_eq!(g, "admins"),
        _ => panic!("expected a missing group"),
    }
    assert!(matches!(
        on_user_info("at".to_string(), UserInfoOutcome::Failed, &required),
        LoginStep::Failed(LoginFailure::UserInfoFailed)
    ));
    let none_required = Vec::new();
    let no_groups = UserInfoOutcome::Fetched { claims: GroupClaim { groups: Vec::new() } };
    assert!(matches!(
        on_user_info("at".to_string(), no_groups, &none_required),
        LoginStep::Succeeded { .. }
    ));
}

#[test]
fn first_missing_group_is_reported() {
    let granted = strings(&["a", "c"]);
    assert_eq!(first_missing_group(&strings(&["a", "b", "d"]), &granted), Some(1));
    assert_eq!(first_missing_group(&strings(&["c", "a"]), &granted), None);
    assert_eq!(first_missing_group(&Vec::new(), &Vec::new()), None);
    assert_eq!(first_missing_group(&strings(&["x"]), &Vec::new()), Some(0));
}

/// Runs the whole decision flow with one condition chosen per step.
fn run_login(
    csrf: &str,
    tokens: TokenOutcome,
    info: UserInfoOutcome,
    required: &Vec<String>,
) -> LoginStep {
    let (mut store, session) = store_with("s1", "csrf-a");
    match start_callback(&mut store, &session, csrf) {
        LoginStep::ExchangeCode { .. } => {}
        other => return other,
    }
    let access_token = match on_tokens(tokens) {
        LoginStep::FetchUserInfo { access_token } => access_token,
        other => return other,
    };
    on_user_info(access_token, info, required)
}

#[test]
fn login_succeeds_only_when_every_condition_holds() {
    let required = strings(&["notes"]);
    let good_info = || UserInfoOutcome::Fetched { claims: GroupClaim { groups: strings(&["notes"]) } };
    let good_hash = || HashCheck::Compared { claimed: "h".to_string(), computed: "h".to_string() };
    assert!(matches!(
        run_login("csrf-a", verified("at", good_hash()), good_info(), &required),
        LoginStep::Succeeded { .. }
    ));
    assert!(matches!(
        run_login("csrf-a", verified("at", HashCheck::NotClaimed), good_info(), &required),
        LoginStep::Succeeded { .. }
    ));
    let failing: Vec<LoginStep> = vec![
        run_login("csrf-x", verified("at", good_hash()), good_info(), &required),
        run_login("csrf-a", TokenOutcome::ExchangeFailed, good_info(), &required),
        run_login("csrf-a", TokenOutcome::NoIdToken, good_info(), &required),
        run_login("csrf-a", TokenOutcome::IdTokenRejected, good_info(), &required),
        run_login(
            "csrf-a",
            verified("at", HashCheck::Compared { claimed: "h".to_string(), computed: "g".to_string() }),
            good_info(),
            &required,
        ),
        run_login("csrf-a", verified("at", HashCheck::Unavailable), good_info(), &required),
        run_login("csrf-a", verified("at", good_hash()), UserInfoOutcome::Failed, &required),
        run_login(
            "csrf-a",
            verified("at", good_hash()),
            UserInfoOutcome::Fetched { claims: GroupClaim { groups: strings(&["other"]) } },
            &required,
        ),
    ];
    for step in failing {
        assert!(matches!(step, LoginStep::Failed(_)));
    }
}

#[test]
fn fresh_secrets_are_url_safe_of_fixed_length() {
    let s = PendingSecrets::new_random();
    let url_safe = |t: &str| t.chars().all(|c| c.is_ascii_alphanumeric() || c == '-' || c == '_');
    assert_eq!(s.csrf_token.len(), 22);
    assert_eq!(s.nonce.len(), 22);
    assert_eq!(s.pkce_verifier.len(), 43);
    assert!(url_safe(&s.csrf_token) && url_safe(&s.nonce) && url_safe(&s.pkce_verifier));
}
