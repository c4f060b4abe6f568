use signup_core::password::{hash_password_with_salt, PHC_LEN, PHC_PREFIX};
use signup_core::model::TokenKind;
use signup_core::statements::UserTokenUpdateForm;
use signup_core::config::{Cache, Ports};
use signup_core::errors::{ErrRespDat, ErrResp, ErrorClass, ErrorCode};
use signup_core::password::{hash_password, verify_password};
use signup_core::responses::{SignupResponse, VerifyEmailResponse};
use signup_core::model::{User, UserTruncated};
use signup_core::signup::DbFailure;
use signup_core::statements::{delete_outcome, NoRowMatched, ToInsertStmt, UserUpdateForm, CONSUME_TOKEN};
use signup_core::model::{UserForm, UserTokenForm};

#[test]
fn codes_and_status_classes() {
    assert_eq!(ErrorCode::CouldNotGetConnFromPool.code(), 1);
    assert_eq!(ErrorCode::WrongPwFormat.code(), 4);
    assert_eq!(ErrorCode::CouldNotCommitTransaction.code(), 10);
    assert_eq!(ErrorCode::UserAlreadyExists.class(), ErrorClass::Conflict);
    assert_eq!(ErrorCode::UserTokenExpired.class(), ErrorClass::TokenExpired);
    let d = ErrRespDat::of(ErrorCode::WrongEmailFormat);
    assert_eq!((d.code, d.status_code), (3, 400));
    let d = ErrRespDat::of(ErrorCode::UserAlreadyExists);
    assert_eq!(d.status_code, 409);
    let d = ErrRespDat::of(ErrorCode::CouldNotInsertUser);
    assert_eq!((d.code, d.status_code), (5, 500));
    let d = ErrRespDat::of(ErrorCode::UserTokenUsed);
    assert_eq!(d.status_code, 400);
}

#[test]
fn infra_detail_is_not_shown() {
    let d = ErrRespDat::of(ErrorCode::CouldNotInsertUser);
    let r = ErrResp::from(d, "connection reset by peer", "1ms".to_string(), "t".to_string());
    assert!(!r.success);
    assert_eq!(r.data.message, "Could not insert user into database; ");
    assert_eq!(r.status_code(), 500);
}

#[test]
fn client_detail_is_appended() {
    let d = ErrRespDat::of(ErrorCode::UserTokenInvalid);
    let r = ErrResp::from(d, "unknown", "1ms".to_string(), "t".to_string());
    assert_eq!(r.data.message, "Invalid user token! unknown");
    assert_eq!(r.data.code, 12);
    assert_eq!(r.meta.time_taken, "1ms");
}

#[test]
fn unique_violation_sqlstate() {
    assert_eq!(DbFailure::from_sqlstate("23505"), DbFailure::UniqueViolation);
    assert_eq!(DbFailure::from_sqlstate("23503"), DbFailure::Other);
    assert_eq!(DbFailure::from_sqlstate(""), DbFailure::Other);
}

#[test]
fn hash_round_trip() {
    let h = hash_password("Str0ngP@ss1");
    assert_ne!(h, "Str0ngP@ss1");
    assert!(h.starts_with("$argon2"));
    assert_eq!(verify_password(&h, "Str0ngP@ss1"), Ok(true));
    assert_eq!(verify_password(&h, "Str0ngP@ss2"), Ok(false));
    assert!(verify_password("not a hash", "Str0ngP@ss1").is_err());
    // A fresh salt each time.
    assert_ne!(hash_password("Str0ngP@ss1"), h);
}

#[test]
fn delete_reports_no_match() {
    assert_eq!(delete_outcome(0), Err(NoRowMatched {}));
    assert_eq!(delete_outcome(1), Ok(1));
}

#[test]
fn update_statement() {
    let none = UserUpdateForm { user_screen_name: None, user_email: None, user_password: None, user_is_active: None };
    assert_eq!(none.update_stmt(), None);
    let some = UserUpdateForm {
        user_screen_name: Some("bob".to_string()),
        user_email: None,
        user_password: Some("x".to_string()),
        user_is_active: Some(false),
    };
    assert_eq!(
        some.update_stmt().unwrap(),
        "UPDATE accounts SET screen_name = $1, password_hash = $2, is_active = $3, updated_at = now() WHERE id = $4 RETURNING *"
    );
    let one = UserUpdateForm { user_screen_name: None, user_email: Some("e@x.io".to_string()), user_password: None, user_is_active: None };
    assert_eq!(
        one.update_stmt().unwrap(),
        "UPDATE accounts SET email = $1, updated_at = now() WHERE id = $2 RETURNING *"
    );
    let all = UserUpdateForm {
        user_screen_name: Some("bob".to_string()),
        user_email: Some("b@x.io".to_string()),
        user_password: Some("x".to_string()),
        user_is_active: Some(true),
    };
    assert_eq!(
        all.update_stmt().unwrap(),
        "UPDATE accounts SET screen_name = $1, email = $2, password_hash = $3, is_active = $4, updated_at = now() WHERE id = $5 RETURNING *"
    );
}

#[test]
fn insert_statements() {
    assert!(UserForm::to_insert_stmt().starts_with("INSERT INTO accounts"));
    assert!(UserTokenForm::to_insert_stmt().starts_with("INSERT INTO verification_tokens"));
    assert!(CONSUME_TOKEN.contains("consumed = false"));
}

#[test]
fn ports_and_cache() {
    let _ = Cache::new();
    let p = Ports::new(80, 8443);
    assert_eq!((p.http, p.https), (80, 8443));
    assert_eq!(Ports::for_https(None), Ports::new(80, 443));
    assert_eq!(Ports::for_https(Some(9443)).https, 9443);
}

#[test]
fn responses_carry_no_hash() {
    let u = User {
        user_id: 3,
        user_screen_name: "alice".to_string(),
        user_email: "a@test.com".to_string(),
        user_password_hash: "$argon2id$secret".to_string(),
        user_created_at: 7,
        user_updated_at: 7,
        user_is_active: true,
        user_email_verified: false,
    };
    let t = UserTruncated::from(u);
    assert_eq!((t.get_id(), t.get_created_at()), (3, 7));
    let r = SignupResponse::new(t, "1ms".to_string(), 9);
    assert!(r.success);
    assert!(!format!("{:?}", r).contains("argon2"));
    let v = VerifyEmailResponse::new("1ms".to_string(), 9);
    assert_eq!(v.data.message, "Email verification successful!");
}

#[test]
fn messages_are_fixed_templates() {
    assert_eq!(ErrorCode::CouldNotGetConnFromPool.message(), "Could not get connection from pool; ");
    assert_eq!(ErrorCode::UserTokenUsed.message(), "User token already used! ");
    let d = ErrRespDat::of(ErrorCode::WrongEmailFormat);
    assert_eq!(d.message, "The provided email format is incorrect.");
}

#[test]
fn hash_names_algorithm_and_parameters() {
    let h = hash_password("Str0ngP@ss1");
    assert!(h.starts_with(PHC_PREFIX));
    assert!(h.starts_with("$argon2id$v=19$m=19456,t=2,p=1$"));
    assert_eq!(h.chars().count(), PHC_LEN);
    assert_eq!(hash_password("").chars().count(), 97);
}

#[test]
fn token_update_statement() {
    let none = UserTokenUpdateForm { user_token_type: None, user_token_expires_at: None };
    assert_eq!(none.update_stmt(), None);
    let exp = UserTokenUpdateForm { user_token_type: None, user_token_expires_at: Some(5) };
    assert_eq!(exp.update_stmt().unwrap(), "UPDATE verification_tokens SET expires_at = $1 WHERE id = $2 RETURNING *");
    let both = UserTokenUpdateForm { user_token_type: Some(TokenKind::SignupEmailValidate), user_token_expires_at: Some(5) };
    assert_eq!(
        both.update_stmt().unwrap(),
        "UPDATE verification_tokens SET kind = $1, expires_at = $2 WHERE id = $3 RETURNING *"
    );
}

#[test]
fn salt_is_carried_and_separates_hashes() {
    let s1 = "c2FsdHNhbHRzYWx0c2FsdA";
    let s2 = "AAAAAAAAAAAAAAAAAAAAAA";
    let h1 = hash_password_with_salt("Str0ngP@ss1", s1);
    let h2 = hash_password_with_salt("Str0ngP@ss1", s2);
    assert_eq!(&h1[31..53], s1);
    assert_eq!(&h2[31..53], s2);
    assert_ne!(h1, h2);
    assert_eq!(verify_password(&h1, "Str0ngP@ss1"), Ok(true));
    assert_eq!(verify_password(&h2, "Str0ngP@ss1"), Ok(true));
    // The same salt gives the same hash.
    assert_eq!(hash_password_with_salt("Str0ngP@ss1", s1), h1);
}
