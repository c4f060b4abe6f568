//! The two persisted entities, accounts and verification tokens, their
//! insertion forms, and the lifecycle of a token. Identities are 128-bit
//! UUID values; timestamps are microseconds since the Unix epoch (UTC).

use vstd::prelude::*;

use crate::errors::ErrorCode;
use crate::validation::same_text;

verus! {

/// Validity window of a verification token: 24 hours, in microseconds.
pub const TOKEN_VALIDITY_MICROS: i64 = 86_400_000_000;

/// Relies on `uuid::Uuid::new_v4`: a random (version 4) identity drawn from
/// the operating system's secure source. Nothing is promised of the value.
#[verifier::external_body]
pub(crate) fn fresh_uuid() -> (r: u128) {
    uuid::Uuid::new_v4().as_u128()
}

/// Relies on `chrono::Utc::now` and `DateTime::timestamp_micros`: the wall
/// clock, which reads after the Unix epoch.
#[verifier::external_body]
pub(crate) fn now_micros() -> (r: i64)
    ensures
        r >= 0,
{
    chrono::Utc::now().timestamp_micros()
}

/// A registered account as stored. The password is held only as a hash.
#[derive(Clone, Debug)]
pub struct User {
    pub user_id: u128,
    pub user_screen_name: String,
    pub user_email: String,
    pub user_password_hash: String,
    pub user_created_at: i64,
    pub user_updated_at: i64,
    pub user_is_active: bool,
    pub user_email_verified: bool,
}

/// The only projection of an account that is ever returned to a client.
#[derive(Clone, Debug)]
pub struct UserTruncated {
    pub user_id: u128,
    pub user_screen_name: String,
    pub user_email: String,
    pub user_created_at: i64,
}

pub open spec fn truncate(u: User) -> UserTruncated {
    UserTruncated {
        user_id: u.user_id,
        user_screen_name: u.user_screen_name,
        user_email: u.user_email,
        user_created_at: u.user_created_at,
    }
}

impl UserTruncated {
    /// Drops the password hash and the bookkeeping fields.
    pub fn from(user: User) -> (r: UserTruncated)
        ensures
            r == truncate(user),
    {
        UserTruncated {
            user_id: user.user_id,
            user_screen_name: user.user_screen_name,
            user_email: user.user_email,
            user_created_at: user.user_created_at,
        }
    }

    pub fn get_id(&self) -> (r: u128)
        ensures
            r == self.user_id,
    {
        self.user_id
    }

    pub fn get_created_at(&self) -> (r: i64)
        ensures
            r == self.user_created_at,
    {
        self.user_created_at
    }
}

impl User {
    pub fn get_id(&self) -> (r: u128)
        ensures
            r == self.user_id,
    {
        self.user_id
    }

    pub fn get_created_at(&self) -> (r: i64)
        ensures
            r == self.user_created_at,
    {
        self.user_created_at
    }
}

/// A registration request.
#[derive(Clone, Debug)]
pub struct UserForm {
    pub user_screen_name: String,
    pub user_email: String,
    pub user_password: String,
}

/// The purpose of a token. Stored as text, so a new kind needs no change of
/// the schema.
#[derive(Clone, Copy, Debug, PartialEq, Eq, Structural)]
pub enum TokenKind {
    SignupEmailValidate,
}

/// The stored text of the signup email-verification kind.
pub const SIGNUP_EMAIL_VALIDATE: &'static str = "signup-email-verify";

impl TokenKind {
    pub fn as_str(&self) -> (r: &'static str)
        ensures
            *self == TokenKind::SignupEmailValidate ==> r@ == SIGNUP_EMAIL_VALIDATE@,
    {
        match self {
            TokenKind::SignupEmailValidate => SIGNUP_EMAIL_VALIDATE,
        }
    }

    /// The kind stored as `text`, if it is one this library knows.
    pub fn from_text(text: &str) -> (r: Option<TokenKind>)
        ensures
            r is Some <==> text@ == SIGNUP_EMAIL_VALIDATE@,
            r matches Some(k) ==> k == TokenKind::SignupEmailValidate,
    {
        if same_text(text, SIGNUP_EMAIL_VALIDATE) {
            Some(TokenKind::SignupEmailValidate)
        } else {
            None
        }
    }
}

/// A stored verification token.
#[derive(Clone, Copy, Debug, PartialEq, Eq, Structural)]
pub struct UserToken {
    pub user_token_id: u128,
    pub user_token_user_id: u128,
    pub user_token_type: TokenKind,
    pub user_token_created_at: i64,
    pub user_token_expires_at: i64,
    pub user_token_used: bool,
}

/// Where a token stands in its lifecycle at a given time.
#[derive(Clone, Copy, Debug, PartialEq, Eq, Structural)]
pub enum TokenState {
    Fresh,
    Expired,
    Consumed,
}

impl UserToken {
    /// Expiry lies strictly after creation.
    pub open spec fn wf(&self) -> bool {
        self.user_token_created_at < self.user_token_expires_at
    }

    pub open spec fn expired_at(&self, now: i64) -> bool {
        self.user_token_expires_at < now
    }

    /// Consumption is checked before expiry: a used token reads as consumed
    /// whatever its expiry.
    pub open spec fn state_at(&self, now: i64) -> TokenState {
        if self.user_token_used {
            TokenState::Consumed
        } else if self.expired_at(now) {
            TokenState::Expired
        } else {
            TokenState::Fresh
        }
    }

    pub fn get_id(&self) -> (r: u128)
        ensures
            r == self.user_token_id,
    {
        self.user_token_id
    }

    pub fn get_user_id(&self) -> (r: u128)
        ensures
            r == self.user_token_user_id,
    {
        self.user_token_user_id
    }

    pub fn get_expired_time(&self) -> (r: i64)
        ensures
            r == self.user_token_expires_at,
    {
        self.user_token_expires_at
    }

    pub fn is_used(&self) -> (r: bool)
        ensures
            r == self.user_token_used,
    {
        self.user_token_used
    }

    pub fn is_expired_at(&self, now: i64) -> (r: bool)
        ensures
            r == self.expired_at(now),
    {
        self.user_token_expires_at < now
    }

    /// Reads the clock; the token is expired when its expiry lies before the
    /// reading.
    pub fn is_expired(&self) -> (r: bool)
        ensures
            exists|now: i64| now >= 0 && r == #[trigger] self.expired_at(now),
            self.user_token_expires_at < 0 ==> r,
    {
        self.is_expired_at(now_micros())
    }

    pub fn state(&self, now: i64) -> (r: TokenState)
        ensures
            r == self.state_at(now),
    {
        if self.user_token_used {
            TokenState::Consumed
        } else if self.user_token_expires_at < now {
            TokenState::Expired
        } else {
            TokenState::Fresh
        }
    }

    /// The checks applied on redemption, in their fixed order: used, then
    /// expired. `Ok` means the token may be consumed.
    pub fn redeem_check(&self, now: i64) -> (r: Result<(), ErrorCode>)
        ensures
            self.user_token_used ==> r == Err::<(), ErrorCode>(ErrorCode::UserTokenUsed),
            !self.user_token_used && self.expired_at(now) ==> r == Err::<(), ErrorCode>(
                ErrorCode::UserTokenExpired,
            ),
            r is Ok <==> self.state_at(now) == TokenState::Fresh,
    {
        if self.is_used() {
            Err(ErrorCode::UserTokenUsed)
        } else if self.is_expired_at(now) {
            Err(ErrorCode::UserTokenExpired)
        } else {
            Ok(())
        }
    }
}

/// A token to insert. Creation time and the consumed flag are set by the
/// store at insertion.
#[derive(Clone, Copy, Debug, PartialEq, Eq, Structural)]
pub struct UserTokenForm {
    pub user_token_id: u128,
    pub user_token_user_id: u128,
    pub user_token_type: TokenKind,
    pub user_token_expires_at: i64,
}

impl UserTokenForm {
    /// The email-verification token of a new account: it expires one
    /// validity window after the account's creation. `None` when that
    /// instant cannot be represented.
    pub fn signup_verification(user_id: u128, token_id: u128, created_at: i64) -> (r: Option<
        UserTokenForm,
    >)
        ensures
            created_at <= i64::MAX - TOKEN_VALIDITY_MICROS <==> r is Some,
            r matches Some(f) ==> f == (UserTokenForm {
                user_token_id: token_id,
                user_token_user_id: user_id,
                user_token_type: TokenKind::SignupEmailValidate,
                user_token_expires_at: (created_at + TOKEN_VALIDITY_MICROS) as i64,
            }),
    {
        match created_at.checked_add(TOKEN_VALIDITY_MICROS) {
            Some(expires_at) => Some(
                UserTokenForm {
                    user_token_id: token_id,
                    user_token_user_id: user_id,
                    user_token_type: TokenKind::SignupEmailValidate,
                    user_token_expires_at: expires_at,
                },
            ),
            None => None,
        }
    }
}

} // verus!
