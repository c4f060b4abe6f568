use signup_core::model::UserTokenForm;
use signup_core::signup::DbFailure;
use signup_core::errors::ErrorCode;
use signup_core::model::{TokenKind, UserForm, TOKEN_VALIDITY_MICROS};
use signup_core::password::verify_password;
use signup_core::store::MemStore;

fn form(name: &str, email: &str, pw: &str) -> UserForm {
    UserForm {
        user_screen_name: name.to_string(),
        user_email: email.to_string(),
        user_password: pw.to_string(),
    }
}

const NOW: i64 = 1_700_000_000_000_000;

#[test]
fn register_creates_one_account_and_one_token() {
    let mut store = MemStore::new();
    let (user, dispatch) = store
        .signup(form("alice", "a@test.com", "Str0ngP@ss1"), NOW)
        .expect("registration succeeds");
    assert_eq!(store.account_count(), 1);
    assert_eq!(store.token_count(), 1);
    assert_eq!(user.user_screen_name, "alice");
    assert_eq!(user.user_email, "a@test.com");
    assert_eq!(user.user_created_at, NOW);
    assert_eq!(dispatch.recipient, "a@test.com");

    let token = store.find_token(dispatch.token_id).expect("the token is stored");
    assert_eq!(token.user_token_user_id, user.user_id);
    assert_eq!(token.user_token_type, TokenKind::SignupEmailValidate);
    assert_eq!(token.user_token_expires_at, token.user_token_created_at + 86_400_000_000);
    assert_eq!(token.user_token_expires_at - token.user_token_created_at, TOKEN_VALIDITY_MICROS);
    assert!(!token.user_token_used);

    let stored = store.find_user(user.user_id).expect("the account is stored");
    assert!(!stored.user_email_verified);
    assert_ne!(stored.user_password_hash, "Str0ngP@ss1");
    assert_eq!(verify_password(&stored.user_password_hash, "Str0ngP@ss1"), Ok(true));
}

#[test]
fn register_same_email_again_conflicts() {
    let mut store = MemStore::new();
    store.signup(form("alice", "a@test.com", "Str0ngP@ss1"), NOW).unwrap();
    let r = store.signup(form("alice2", "a@test.com", "Str0ngP@ss1"), NOW);
    assert_eq!(r.unwrap_err(), ErrorCode::UserAlreadyExists);
    assert_eq!(store.account_count(), 1);
    assert_eq!(store.token_count(), 1);
}

#[test]
fn register_same_screen_name_again_conflicts() {
    let mut store = MemStore::new();
    store.signup(form("alice", "a@test.com", "Str0ngP@ss1"), NOW).unwrap();
    let r = store.signup(form("alice", "b@test.com", "Str0ngP@ss1"), NOW);
    assert_eq!(r.unwrap_err(), ErrorCode::UserAlreadyExists);
    assert_eq!(store.account_count(), 1);
    assert_eq!(store.token_count(), 1);
}

#[test]
fn register_weak_password_writes_nothing() {
    let mut store = MemStore::new();
    for pw in ["str0ngp@ss1", "STR0NGP@SS1", "StrongP@ss", "Str0ngPass1", "S0p@s"] {
        let r = store.signup(form("alice", "a@test.com", pw), NOW);
        assert_eq!(r.unwrap_err(), ErrorCode::WrongPwFormat);
    }
    assert_eq!(store.account_count(), 0);
    assert_eq!(store.token_count(), 0);
}

#[test]
fn register_bad_email_writes_nothing() {
    let mut store = MemStore::new();
    let r = store.signup(form("alice", "alice.test.com", "Str0ngP@ss1"), NOW);
    assert_eq!(r.unwrap_err(), ErrorCode::WrongEmailFormat);
    assert_eq!(store.account_count(), 0);
}

#[test]
fn token_collision_rolls_back_the_account() {
    let mut store = MemStore::new();
    let (_, d) = store.signup_with_token_id(form("alice", "a@test.com", "Str0ngP@ss1"), NOW, 7).unwrap();
    assert_eq!(d.token_id, 7);
    let r = store.signup_with_token_id(form("bob", "b@test.com", "Str0ngP@ss1"), NOW, 7);
    assert_eq!(r.unwrap_err(), ErrorCode::CouldNotInsertUserToken);
    assert_eq!(store.account_count(), 1);
    assert_eq!(store.token_count(), 1);
    // The rolled-back account left its address free.
    assert!(store.signup_with_token_id(form("bob", "b@test.com", "Str0ngP@ss1"), NOW, 8).is_ok());
}

#[test]
fn unrepresentable_expiry_rolls_back() {
    let mut store = MemStore::new();
    let r = store.signup(form("alice", "a@test.com", "Str0ngP@ss1"), i64::MAX);
    assert_eq!(r.unwrap_err(), ErrorCode::CouldNotInsertUserToken);
    assert_eq!(store.account_count(), 0);
    assert_eq!(store.token_count(), 0);
}

#[test]
fn fresh_token_ids_differ() {
    let mut store = MemStore::new();
    let (_, a) = store.signup(form("alice", "a@test.com", "Str0ngP@ss1"), NOW).unwrap();
    let (_, b) = store.signup(form("bob", "b@test.com", "Str0ngP@ss1"), NOW).unwrap();
    assert_ne!(a.token_id, b.token_id);
}

#[test]
fn verify_unknown_token_is_invalid() {
    let mut store = MemStore::new();
    store.signup(form("alice", "a@test.com", "Str0ngP@ss1"), NOW).unwrap();
    assert_eq!(store.verify_token(12345, NOW), Err(ErrorCode::UserTokenInvalid));
}

#[test]
fn verify_twice_second_is_used() {
    let mut store = MemStore::new();
    let (user, d) = store.signup(form("alice", "a@test.com", "Str0ngP@ss1"), NOW).unwrap();
    assert_eq!(store.verify_token(d.token_id, NOW + 1), Ok(user.user_id));
    let stored = store.find_user(user.user_id).unwrap();
    assert!(stored.user_email_verified);
    assert_eq!(stored.user_updated_at, NOW + 1);
    assert!(store.find_token(d.token_id).unwrap().user_token_used);
    assert_eq!(store.verify_token(d.token_id, NOW + 2), Err(ErrorCode::UserTokenUsed));
}

#[test]
fn many_redemptions_one_success() {
    let mut store = MemStore::new();
    let (_, d) = store.signup(form("alice", "a@test.com", "Str0ngP@ss1"), NOW).unwrap();
    let results: Vec<_> = (0..8).map(|_| store.verify_token(d.token_id, NOW)).collect();
    assert_eq!(results.iter().filter(|r| r.is_ok()).count(), 1);
    assert!(results[0].is_ok());
    assert_eq!(results.iter().filter(|r| **r == Err(ErrorCode::UserTokenUsed)).count(), 7);
}

#[test]
fn expired_token_is_rejected() {
    let mut store = MemStore::new();
    let (user, d) = store.signup(form("alice", "a@test.com", "Str0ngP@ss1"), NOW).unwrap();
    let late = NOW + TOKEN_VALIDITY_MICROS + 1;
    assert_eq!(store.verify_token(d.token_id, late), Err(ErrorCode::UserTokenExpired));
    assert!(!store.find_token(d.token_id).unwrap().user_token_used);
    assert!(!store.find_user(user.user_id).unwrap().user_email_verified);
    // The last instant of the window is still valid.
    assert!(store.verify_token(d.token_id, NOW + TOKEN_VALIDITY_MICROS).is_ok());
}

#[test]
fn used_and_expired_reports_used() {
    let mut store = MemStore::new();
    let (_, d) = store.signup(form("alice", "a@test.com", "Str0ngP@ss1"), NOW).unwrap();
    assert!(store.verify_token(d.token_id, NOW).is_ok());
    let late = NOW + TOKEN_VALIDITY_MICROS + 1;
    assert_eq!(store.verify_token(d.token_id, late), Err(ErrorCode::UserTokenUsed));
}

#[test]
fn token_of_unknown_account_is_refused() {
    let mut store = MemStore::new();
    let form = UserTokenForm {
        user_token_id: 1,
        user_token_user_id: 99,
        user_token_type: TokenKind::SignupEmailValidate,
        user_token_expires_at: NOW + 1,
    };
    assert_eq!(store.insert_token(form, NOW), Err(DbFailure::Other));
    assert_eq!(store.token_count(), 0);
}

#[test]
fn stored_hash_is_not_the_password() {
    let mut store = MemStore::new();
    let (user, _) = store.signup(form("alice", "a@test.com", "Str0ngP@ss1"), NOW).unwrap();
    let stored = store.find_user(user.user_id).unwrap();
    assert!(stored.user_password_hash.starts_with("$argon2id$v=19$"));
    assert_eq!(verify_password(&stored.user_password_hash, "Str0ngP@ss2"), Ok(false));
}
