use signup_core::errors::ErrorCode;
use signup_core::model::{TokenKind, User, UserForm, UserToken, TOKEN_VALIDITY_MICROS};
use signup_core::signup::{DbFailure, SignupAction, SignupEvent, SignupFlow};
use signup_core::verification::{VerifyAction, VerifyEvent, VerifyFlow};

fn form() -> UserForm {
    UserForm {
        user_screen_name: "alice".to_string(),
        user_email: "a@test.com".to_string(),
        user_password: "Str0ngP@ss1".to_string(),
    }
}

fn user() -> User {
    User {
        user_id: 41,
        user_screen_name: "alice".to_string(),
        user_email: "a@test.com".to_string(),
        user_password_hash: "$argon2id$stub".to_string(),
        user_created_at: 1_000,
        user_updated_at: 1_000,
        user_is_active: true,
        user_email_verified: false,
    }
}

fn token(used: bool, expires_at: i64) -> UserToken {
    UserToken {
        user_token_id: 9,
        user_token_user_id: 41,
        user_token_type: TokenKind::SignupEmailValidate,
        user_token_created_at: 0,
        user_token_expires_at: expires_at,
        user_token_used: used,
    }
}

fn to_account_step() -> SignupFlow {
    let (f, a) = SignupFlow::Start.advance(SignupEvent::Submitted(form()), 5);
    assert!(matches!(a, SignupAction::OpenTransaction));
    let (f, a) = f.advance(SignupEvent::TransactionOpened, 5);
    assert!(matches!(a, SignupAction::InsertAccount(ref f) if f.user_email == "a@test.com"));
    f
}

#[test]
fn signup_happy_path() {
    let f = to_account_step();
    let (f, a) = f.advance(SignupEvent::AccountInserted(user()), 5);
    match a {
        SignupAction::InsertToken(tf) => {
            assert_eq!(tf.user_token_id, 5);
            assert_eq!(tf.user_token_user_id, 41);
            assert_eq!(tf.user_token_type, TokenKind::SignupEmailValidate);
            assert_eq!(tf.user_token_expires_at, 1_000 + TOKEN_VALIDITY_MICROS);
        },
        other => panic!("unexpected {:?}", other),
    }
    let (f, a) = f.advance(SignupEvent::TokenInserted(token(false, 2_000)), 5);
    assert!(matches!(a, SignupAction::Commit));
    let (f, a) = f.advance(SignupEvent::Committed, 5);
    match a {
        SignupAction::Finish { user, dispatch } => {
            assert_eq!(user.user_id, 41);
            assert_eq!(dispatch.recipient, "a@test.com");
            assert_eq!(dispatch.token_id, 9);
        },
        other => panic!("unexpected {:?}", other),
    }
    assert!(matches!(f, SignupFlow::Done));
}

#[test]
fn signup_failures_are_classified() {
    let (_, a) = to_account_step().advance(SignupEvent::AccountFailed(DbFailure::UniqueViolation), 5);
    assert!(matches!(a, SignupAction::Rollback(ErrorCode::UserAlreadyExists)));
    let (_, a) = to_account_step().advance(SignupEvent::AccountFailed(DbFailure::Other), 5);
    assert!(matches!(a, SignupAction::Rollback(ErrorCode::CouldNotInsertUser)));
    let (f, _) = to_account_step().advance(SignupEvent::AccountInserted(user()), 5);
    let (_, a) = f.advance(SignupEvent::TokenFailed(DbFailure::Other), 5);
    assert!(matches!(a, SignupAction::Rollback(ErrorCode::CouldNotInsertUserToken)));
    let (f, _) = to_account_step().advance(SignupEvent::AccountInserted(user()), 5);
    let (f, _) = f.advance(SignupEvent::TokenInserted(token(false, 2_000)), 5);
    let (_, a) = f.advance(SignupEvent::CommitFailed, 5);
    assert!(matches!(a, SignupAction::Fail(ErrorCode::CouldNotCommitTransaction)));
}

#[test]
fn signup_connection_failures() {
    let (f, _) = SignupFlow::Start.advance(SignupEvent::Submitted(form()), 5);
    let (_, a) = f.advance(SignupEvent::ConnectionFailed, 5);
    assert!(matches!(a, SignupAction::Fail(ErrorCode::CouldNotGetConnFromPool)));
    let (f, _) = SignupFlow::Start.advance(SignupEvent::Submitted(form()), 5);
    let (_, a) = f.advance(SignupEvent::TransactionFailed, 5);
    assert!(matches!(a, SignupAction::Fail(ErrorCode::CouldNotBuildTransactionFromConn)));
}

#[test]
fn signup_rejects_bad_input_before_storage() {
    let mut bad = form();
    bad.user_password = "weakpass".to_string();
    let (f, a) = SignupFlow::Start.advance(SignupEvent::Submitted(bad), 5);
    assert!(matches!(a, SignupAction::Fail(ErrorCode::WrongPwFormat)));
    assert!(matches!(f, SignupFlow::Done));
}

#[test]
fn signup_out_of_order_event() {
    let (_, a) = SignupFlow::Start.advance(SignupEvent::Committed, 5);
    assert!(matches!(a, SignupAction::Fail(ErrorCode::UnexpectedStep)));
    let (_, a) = to_account_step().advance(SignupEvent::Committed, 5);
    assert!(matches!(a, SignupAction::Rollback(ErrorCode::UnexpectedStep)));
}

#[test]
fn signup_next_draws_a_token_id() {
    let (f, _) = SignupFlow::Start.next(SignupEvent::Submitted(form()));
    let (f, _) = f.next(SignupEvent::TransactionOpened);
    let (_, a) = f.next(SignupEvent::AccountInserted(user()));
    assert!(matches!(a, SignupAction::InsertToken(tf) if tf.user_token_user_id == 41));
}

fn looked_up(t: Option<UserToken>, now: i64) -> (VerifyFlow, VerifyAction) {
    let (f, a) = VerifyFlow::Start.advance(VerifyEvent::Submitted(9), now);
    assert_eq!(a, VerifyAction::Lookup(9));
    f.advance(VerifyEvent::Found(t), now)
}

#[test]
fn verify_checks_in_order() {
    assert_eq!(looked_up(None, 10).1, VerifyAction::Fail(ErrorCode::UserTokenInvalid));
    assert_eq!(looked_up(Some(token(true, 100)), 10).1, VerifyAction::Fail(ErrorCode::UserTokenUsed));
    assert_eq!(looked_up(Some(token(true, 5)), 10).1, VerifyAction::Fail(ErrorCode::UserTokenUsed));
    assert_eq!(looked_up(Some(token(false, 5)), 10).1, VerifyAction::Fail(ErrorCode::UserTokenExpired));
    assert_eq!(looked_up(Some(token(false, 10)), 10).1, VerifyAction::Consume(9));
}

#[test]
fn verify_happy_path() {
    let (f, _) = looked_up(Some(token(false, 100)), 10);
    let (f, a) = f.advance(VerifyEvent::Consumed(1), 10);
    assert_eq!(a, VerifyAction::MarkVerified(41));
    let (f, a) = f.advance(VerifyEvent::Marked(1), 10);
    assert_eq!(a, VerifyAction::Commit);
    let (f, a) = f.advance(VerifyEvent::Committed, 10);
    assert_eq!(a, VerifyAction::Finish(41));
    assert_eq!(f, VerifyFlow::Done);
}

#[test]
fn verify_lost_race_is_used() {
    let (f, _) = looked_up(Some(token(false, 100)), 10);
    let (_, a) = f.advance(VerifyEvent::Consumed(0), 10);
    assert_eq!(a, VerifyAction::Rollback(ErrorCode::UserTokenUsed));
}

#[test]
fn verify_infra_failures() {
    let (f, _) = VerifyFlow::Start.advance(VerifyEvent::Submitted(9), 0);
    assert_eq!(f.advance(VerifyEvent::ConnectionFailed, 0).1, VerifyAction::Fail(ErrorCode::CouldNotGetConnFromPool));
    assert_eq!(f.advance(VerifyEvent::LookupFailed, 0).1, VerifyAction::Fail(ErrorCode::CouldNotQueryDatabase));
    let (f, _) = looked_up(Some(token(false, 100)), 10);
    assert_eq!(
        f.advance(VerifyEvent::TransactionFailed, 10).1,
        VerifyAction::Fail(ErrorCode::CouldNotBuildTransactionFromConn)
    );
    let (g, _) = f.advance(VerifyEvent::Consumed(1), 10);
    assert_eq!(g.advance(VerifyEvent::Marked(0), 10).1, VerifyAction::Rollback(ErrorCode::CouldNotQueryDatabase));
    let (g, _) = g.advance(VerifyEvent::Marked(1), 10);
    assert_eq!(g.advance(VerifyEvent::CommitFailed, 10).1, VerifyAction::Fail(ErrorCode::CouldNotCommitTransaction));
}

#[test]
fn verify_next_reads_the_clock() {
    // A token that expired at the epoch is expired now; one that expires at
    // the end of time is not.
    let (f, _) = VerifyFlow::Start.next(VerifyEvent::Submitted(9));
    assert_eq!(f.next(VerifyEvent::Found(Some(token(false, 1)))).1, VerifyAction::Fail(ErrorCode::UserTokenExpired));
    assert_eq!(f.next(VerifyEvent::Found(Some(token(false, i64::MAX)))).1, VerifyAction::Consume(9));
}

#[test]
fn token_state_and_clock() {
    assert!(token(false, 1).is_expired());
    assert!(!token(false, i64::MAX).is_expired());
    assert_eq!(token(true, 1).redeem_check(10), Err(ErrorCode::UserTokenUsed));
    assert_eq!(token(false, 1).redeem_check(10), Err(ErrorCode::UserTokenExpired));
    assert_eq!(token(false, 10).redeem_check(10), Ok(()));
}

#[test]
fn token_kind_text_round_trip() {
    let k = TokenKind::SignupEmailValidate;
    assert_eq!(k.as_str(), "signup-email-verify");
    assert_eq!(TokenKind::from_text(k.as_str()), Some(k));
    assert_eq!(TokenKind::from_text("password-reset"), None);
}
