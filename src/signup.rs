//! The registration protocol: validate, open a transaction, insert the
//! account, insert its verification token, commit, then hand the
//! notification off. Each step is a transition from the current phase and
//! what the store answered to the next phase and the action to perform; the
//! caller performs the action and reports back.

use vstd::prelude::*;

use crate::errors::ErrorCode;
use crate::model::{
    fresh_uuid, truncate, TokenKind, User, UserForm, UserToken, UserTokenForm, UserTruncated,
    TOKEN_VALIDITY_MICROS,
};
use crate::validation::{email_ok, is_valid_email, password_ok, pw_regex_custom, same_text};

verus! {

/// How a write failed, as far as the protocol cares.
#[derive(Clone, Copy, Debug, PartialEq, Eq, Structural)]
pub enum DbFailure {
    /// A unique constraint was violated.
    UniqueViolation,
    Other,
}

/// The SQLSTATE code of a unique-constraint violation.
pub const SQLSTATE_UNIQUE_VIOLATION: &'static str = "23505";

impl DbFailure {
    /// Classifies a failure by its SQLSTATE code.
    pub fn from_sqlstate(code: &str) -> (r: DbFailure)
        ensures
            r == DbFailure::UniqueViolation <==> code@ == SQLSTATE_UNIQUE_VIOLATION@,
    {
        if same_text(code, SQLSTATE_UNIQUE_VIOLATION) {
            DbFailure::UniqueViolation
        } else {
            DbFailure::Other
        }
    }
}

/// The first reason a registration request is rejected before any storage
/// access: the address is checked first, then the password.
pub open spec fn form_error(form: UserForm) -> Option<ErrorCode> {
    if !email_ok(form.user_email@) {
        Some(ErrorCode::WrongEmailFormat)
    } else if !password_ok(form.user_password@) {
        Some(ErrorCode::WrongPwFormat)
    } else {
        None
    }
}

/// Validates a registration request.
pub fn validate(form: &UserForm) -> (r: Result<(), ErrorCode>)
    ensures
        r is Ok <==> form_error(*form) is None,
        r matches Err(e) ==> form_error(*form) == Some(e),
{
    if !is_valid_email(form.user_email.as_str()) {
        Err(ErrorCode::WrongEmailFormat)
    } else if !pw_regex_custom(form.user_password.as_str()) {
        Err(ErrorCode::WrongPwFormat)
    } else {
        Ok(())
    }
}

/// What the caller hands off after commit: one message to one address.
#[derive(Clone, Debug)]
pub struct Dispatch {
    pub recipient: String,
    pub token_id: u128,
}

/// Where a registration stands.
#[derive(Clone, Debug)]
pub enum SignupFlow {
    Start,
    AwaitTransaction { form: UserForm },
    AwaitAccount,
    AwaitToken { user: UserTruncated },
    AwaitCommit { user: UserTruncated, token_id: u128 },
    Done,
}

/// What the caller reports back.
#[derive(Clone, Debug)]
pub enum SignupEvent {
    Submitted(UserForm),
    ConnectionFailed,
    TransactionFailed,
    TransactionOpened,
    AccountInserted(User),
    AccountFailed(DbFailure),
    TokenInserted(UserToken),
    TokenFailed(DbFailure),
    Committed,
    CommitFailed,
}

/// What the caller is to do next.
#[derive(Clone, Debug)]
pub enum SignupAction {
    /// Acquire a connection and begin a transaction.
    OpenTransaction,
    /// Insert the account, hashing its password, inside the transaction.
    InsertAccount(UserForm),
    /// Insert the token inside the transaction.
    InsertToken(UserTokenForm),
    Commit,
    /// Roll the transaction back and report the failure.
    Rollback(ErrorCode),
    /// Report the failure; no transaction is open.
    Fail(ErrorCode),
    /// Respond with the account and, detached from the response, send the
    /// verification message.
    Finish { user: UserTruncated, dispatch: Dispatch },
}

pub open spec fn in_transaction(f: SignupFlow) -> bool {
    f is AwaitAccount || f is AwaitToken || f is AwaitCommit
}

/// An event the phase does not expect ends the attempt, rolling back what
/// is open.
pub open spec fn signup_abort(f: SignupFlow) -> (SignupFlow, SignupAction) {
    if in_transaction(f) {
        (SignupFlow::Done, SignupAction::Rollback(ErrorCode::UnexpectedStep))
    } else {
        (SignupFlow::Done, SignupAction::Fail(ErrorCode::UnexpectedStep))
    }
}

/// The transition table. `token_id` is the fresh identity given to a token
/// when one is created.
pub open spec fn signup_transition(f: SignupFlow, ev: SignupEvent, token_id: u128) -> (
    SignupFlow,
    SignupAction,
) {
    match f {
        SignupFlow::Start => match ev {
            SignupEvent::Submitted(form) => match form_error(form) {
                Some(e) => (SignupFlow::Done, SignupAction::Fail(e)),
                None => (SignupFlow::AwaitTransaction { form }, SignupAction::OpenTransaction),
            },
            _ => signup_abort(f),
        },
        SignupFlow::AwaitTransaction { form } => match ev {
            SignupEvent::TransactionOpened => (
                SignupFlow::AwaitAccount,
                SignupAction::InsertAccount(form),
            ),
            SignupEvent::ConnectionFailed => (
                SignupFlow::Done,
                SignupAction::Fail(ErrorCode::CouldNotGetConnFromPool),
            ),
            SignupEvent::TransactionFailed => (
                SignupFlow::Done,
                SignupAction::Fail(ErrorCode::CouldNotBuildTransactionFromConn),
            ),
            _ => signup_abort(f),
        },
        SignupFlow::AwaitAccount => match ev {
            SignupEvent::AccountInserted(u) => if u.user_created_at <= i64::MAX
                - TOKEN_VALIDITY_MICROS {
                (
                    SignupFlow::AwaitToken { user: truncate(u) },
                    SignupAction::InsertToken(
                        UserTokenForm {
                            user_token_id: token_id,
                            user_token_user_id: u.user_id,
                            user_token_type: TokenKind::SignupEmailValidate,
                            user_token_expires_at: (u.user_created_at
                                + TOKEN_VALIDITY_MICROS) as i64,
                        },
                    ),
                )
            } else {
                (SignupFlow::Done, SignupAction::Rollback(ErrorCode::CouldNotInsertUserToken))
            },
            SignupEvent::AccountFailed(DbFailure::UniqueViolation) => (
                SignupFlow::Done,
                SignupAction::Rollback(ErrorCode::UserAlreadyExists),
            ),
            SignupEvent::AccountFailed(DbFailure::Other) => (
                SignupFlow::Done,
                SignupAction::Rollback(ErrorCode::CouldNotInsertUser),
            ),
            _ => signup_abort(f),
        },
        SignupFlow::AwaitToken { user } => match ev {
            SignupEvent::TokenInserted(t) => (
                SignupFlow::AwaitCommit { user, token_id: t.user_token_id },
                SignupAction::Commit,
            ),
            SignupEvent::TokenFailed(_) => (
                SignupFlow::Done,
                SignupAction::Rollback(ErrorCode::CouldNotInsertUserToken),
            ),
            _ => signup_abort(f),
        },
        SignupFlow::AwaitCommit { user, token_id: t } => match ev {
            SignupEvent::Committed => (
                SignupFlow::Done,
                SignupAction::Finish {
                    user,
                    dispatch: Dispatch { recipient: user.user_email, token_id: t },
                },
            ),
            SignupEvent::CommitFailed => (
                SignupFlow::Done,
                SignupAction::Fail(ErrorCode::CouldNotCommitTransaction),
            ),
            _ => signup_abort(f),
        },
        SignupFlow::Done => signup_abort(f),
    }
}

fn abort(f: &SignupFlow) -> (r: (SignupFlow, SignupAction))
    ensures
        r == signup_abort(*f),
{
    match f {
        SignupFlow::AwaitAccount | SignupFlow::AwaitToken { .. } | SignupFlow::AwaitCommit {
            ..
        } => (SignupFlow::Done, SignupAction::Rollback(ErrorCode::UnexpectedStep)),
        _ => (SignupFlow::Done, SignupAction::Fail(ErrorCode::UnexpectedStep)),
    }
}

impl SignupFlow {
    /// One step, with `token_id` as the identity of a token created by it.
    pub fn advance(self, ev: SignupEvent, token_id: u128) -> (r: (SignupFlow, SignupAction))
        ensures
            r == signup_transition(self, ev, token_id),
    {
        match self {
            SignupFlow::Start => match ev {
                SignupEvent::Submitted(form) => match validate(&form) {
                    Err(e) => (SignupFlow::Done, SignupAction::Fail(e)),
                    Ok(()) => (SignupFlow::AwaitTransaction { form }, SignupAction::OpenTransaction),
                },
                _ => abort(&self),
            },
            SignupFlow::AwaitTransaction { form } => match ev {
                SignupEvent::TransactionOpened => (
                    SignupFlow::AwaitAccount,
                    SignupAction::InsertAccount(form),
                ),
                SignupEvent::ConnectionFailed => (
                    SignupFlow::Done,
                    SignupAction::Fail(ErrorCode::CouldNotGetConnFromPool),
                ),
                SignupEvent::TransactionFailed => (
                    SignupFlow::Done,
                    SignupAction::Fail(ErrorCode::CouldNotBuildTransactionFromConn),
                ),
                _ => (SignupFlow::Done, SignupAction::Fail(ErrorCode::UnexpectedStep)),
            },
            SignupFlow::AwaitAccount => match ev {
                SignupEvent::AccountInserted(u) => {
                    let id = u.user_id;
                    let created = u.user_created_at;
                    match UserTokenForm::signup_verification(id, token_id, created) {
                        Some(tf) => (
                            SignupFlow::AwaitToken { user: UserTruncated::from(u) },
                            SignupAction::InsertToken(tf),
                        ),
                        None => (
                            SignupFlow::Done,
                            SignupAction::Rollback(ErrorCode::CouldNotInsertUserToken),
                        ),
                    }
                },
                SignupEvent::AccountFailed(DbFailure::UniqueViolation) => (
                    SignupFlow::Done,
                    SignupAction::Rollback(ErrorCode::UserAlreadyExists),
                ),
                SignupEvent::AccountFailed(DbFailure::Other) => (
                    SignupFlow::Done,
                    SignupAction::Rollback(ErrorCode::CouldNotInsertUser),
                ),
                _ => (SignupFlow::Done, SignupAction::Rollback(ErrorCode::UnexpectedStep)),
            },
            SignupFlow::AwaitToken { user } => match ev {
                SignupEvent::TokenInserted(t) => (
                    SignupFlow::AwaitCommit { user, token_id: t.user_token_id },
                    SignupAction::Commit,
                ),
                SignupEvent::TokenFailed(_) => (
                    SignupFlow::Done,
                    SignupAction::Rollback(ErrorCode::CouldNotInsertUserToken),
                ),
                _ => (SignupFlow::Done, SignupAction::Rollback(ErrorCode::UnexpectedStep)),
            },
            SignupFlow::AwaitCommit { user, token_id: t } => match ev {
                SignupEvent::Committed => {
                    let recipient = user.user_email.clone();
                    (
                        SignupFlow::Done,
                        SignupAction::Finish {
                            user,
                            dispatch: Dispatch { recipient, token_id: t },
                        },
                    )
                },
                SignupEvent::CommitFailed => (
                    SignupFlow::Done,
                    SignupAction::Fail(ErrorCode::CouldNotCommitTransaction),
                ),
                _ => (SignupFlow::Done, SignupAction::Rollback(ErrorCode::UnexpectedStep)),
            },
            SignupFlow::Done => (SignupFlow::Done, SignupAction::Fail(ErrorCode::UnexpectedStep)),
        }
    }

    /// One step; a token created by it gets a fresh random identity.
    pub fn next(self, ev: SignupEvent) -> (r: (SignupFlow, SignupAction))
        ensures
            exists|id: u128| r == #[trigger] signup_transition(self, ev, id),
    {
        let id = fresh_uuid();
        self.advance(ev, id)
    }
}

} // verus!
