//! The email-verification protocol: look the token up, apply the used and
//! expired checks in that order, then consume it with a single conditional
//! write and set the account's verified flag in one transaction.

use vstd::prelude::*;

use crate::errors::ErrorCode;
use crate::model::{now_micros, UserToken};

verus! {

/// Where a verification stands.
#[derive(Clone, Copy, Debug, PartialEq, Eq, Structural)]
pub enum VerifyFlow {
    Start,
    AwaitLookup,
    AwaitConsume { token: UserToken },
    AwaitMark { token: UserToken },
    AwaitCommit { token: UserToken },
    Done,
}

/// What the caller reports back.
#[derive(Clone, Copy, Debug, PartialEq, Eq, Structural)]
pub enum VerifyEvent {
    Submitted(u128),
    ConnectionFailed,
    /// The lookup answered: the token, or none with that identity.
    Found(Option<UserToken>),
    LookupFailed,
    TransactionFailed,
    /// The conditional consume ran and changed this many rows.
    Consumed(u64),
    ConsumeFailed,
    /// The verified-flag update ran and changed this many rows.
    Marked(u64),
    MarkFailed,
    Committed,
    CommitFailed,
}

/// What the caller is to do next.
#[derive(Clone, Copy, Debug, PartialEq, Eq, Structural)]
pub enum VerifyAction {
    /// Acquire a connection and look the token up.
    Lookup(u128),
    /// Begin a transaction and set the token consumed where it is not yet.
    Consume(u128),
    /// Set the account's email-verified flag inside the transaction.
    MarkVerified(u128),
    Commit,
    /// Roll the transaction back and report the failure.
    Rollback(ErrorCode),
    /// Report the failure; no transaction is open.
    Fail(ErrorCode),
    /// Respond that the account with this identity is verified.
    Finish(u128),
}

pub open spec fn verify_abort(f: VerifyFlow) -> (VerifyFlow, VerifyAction) {
    if f is AwaitMark || f is AwaitCommit {
        (VerifyFlow::Done, VerifyAction::Rollback(ErrorCode::UnexpectedStep))
    } else {
        (VerifyFlow::Done, VerifyAction::Fail(ErrorCode::UnexpectedStep))
    }
}

/// The transition table; `now` is the time the lookup answer is judged at.
pub open spec fn verify_transition(f: VerifyFlow, ev: VerifyEvent, now: i64) -> (
    VerifyFlow,
    VerifyAction,
) {
    match f {
        VerifyFlow::Start => match ev {
            VerifyEvent::Submitted(id) => (VerifyFlow::AwaitLookup, VerifyAction::Lookup(id)),
            _ => verify_abort(f),
        },
        VerifyFlow::AwaitLookup => match ev {
            VerifyEvent::Found(None) => (
                VerifyFlow::Done,
                VerifyAction::Fail(ErrorCode::UserTokenInvalid),
            ),
            VerifyEvent::Found(Some(t)) => if t.user_token_used {
                (VerifyFlow::Done, VerifyAction::Fail(ErrorCode::UserTokenUsed))
            } else if t.expired_at(now) {
                (VerifyFlow::Done, VerifyAction::Fail(ErrorCode::UserTokenExpired))
            } else {
                (VerifyFlow::AwaitConsume { token: t }, VerifyAction::Consume(t.user_token_id))
            },
            VerifyEvent::ConnectionFailed => (
                VerifyFlow::Done,
                VerifyAction::Fail(ErrorCode::CouldNotGetConnFromPool),
            ),
            VerifyEvent::LookupFailed => (
                VerifyFlow::Done,
                VerifyAction::Fail(ErrorCode::CouldNotQueryDatabase),
            ),
            _ => verify_abort(f),
        },
        VerifyFlow::AwaitConsume { token } => match ev {
            VerifyEvent::TransactionFailed => (
                VerifyFlow::Done,
                VerifyAction::Fail(ErrorCode::CouldNotBuildTransactionFromConn),
            ),
            VerifyEvent::Consumed(rows) => if rows == 0 {
                (VerifyFlow::Done, VerifyAction::Rollback(ErrorCode::UserTokenUsed))
            } else {
                (
                    VerifyFlow::AwaitMark { token },
                    VerifyAction::MarkVerified(token.user_token_user_id),
                )
            },
            VerifyEvent::ConsumeFailed => (
                VerifyFlow::Done,
                VerifyAction::Rollback(ErrorCode::CouldNotQueryDatabase),
            ),
            _ => verify_abort(f),
        },
        VerifyFlow::AwaitMark { token } => match ev {
            VerifyEvent::Marked(rows) => if rows == 0 {
                (VerifyFlow::Done, VerifyAction::Rollback(ErrorCode::CouldNotQueryDatabase))
            } else {
                (VerifyFlow::AwaitCommit { token }, VerifyAction::Commit)
            },
            VerifyEvent::MarkFailed => (
                VerifyFlow::Done,
                VerifyAction::Rollback(ErrorCode::CouldNotQueryDatabase),
            ),
            _ => verify_abort(f),
        },
        VerifyFlow::AwaitCommit { token } => match ev {
            VerifyEvent::Committed => (
                VerifyFlow::Done,
                VerifyAction::Finish(token.user_token_user_id),
            ),
            VerifyEvent::CommitFailed => (
                VerifyFlow::Done,
                VerifyAction::Fail(ErrorCode::CouldNotCommitTransaction),
            ),
            _ => verify_abort(f),
        },
        VerifyFlow::Done => verify_abort(f),
    }
}

impl VerifyFlow {
    /// One step, judging a lookup answer at time `now`.
    pub fn advance(self, ev: VerifyEvent, now: i64) -> (r: (VerifyFlow, VerifyAction))
        ensures
            r == verify_transition(self, ev, now),
    {
        let fail = (VerifyFlow::Done, VerifyAction::Fail(ErrorCode::UnexpectedStep));
        let rollback = (VerifyFlow::Done, VerifyAction::Rollback(ErrorCode::UnexpectedStep));
        match self {
            VerifyFlow::Start => match ev {
                VerifyEvent::Submitted(id) => (VerifyFlow::AwaitLookup, VerifyAction::Lookup(id)),
                _ => fail,
            },
            VerifyFlow::AwaitLookup => match ev {
                VerifyEvent::Found(None) => (
                    VerifyFlow::Done,
                    VerifyAction::Fail(ErrorCode::UserTokenInvalid),
                ),
                VerifyEvent::Found(Some(t)) => match t.redeem_check(now) {
                    Err(e) => (VerifyFlow::Done, VerifyAction::Fail(e)),
                    Ok(()) => (
                        VerifyFlow::AwaitConsume { token: t },
                        VerifyAction::Consume(t.get_id()),
                    ),
                },
                VerifyEvent::ConnectionFailed => (
                    VerifyFlow::Done,
                    VerifyAction::Fail(ErrorCode::CouldNotGetConnFromPool),
                ),
                VerifyEvent::LookupFailed => (
                    VerifyFlow::Done,
                    VerifyAction::Fail(ErrorCode::CouldNotQueryDatabase),
                ),
                _ => fail,
            },
            VerifyFlow::AwaitConsume { token } => match ev {
                VerifyEvent::TransactionFailed => (
                    VerifyFlow::Done,
                    VerifyAction::Fail(ErrorCode::CouldNotBuildTransactionFromConn),
                ),
                VerifyEvent::Consumed(rows) => if rows == 0 {
                    (VerifyFlow::Done, VerifyAction::Rollback(ErrorCode::UserTokenUsed))
                } else {
                    (VerifyFlow::AwaitMark { token }, VerifyAction::MarkVerified(token.get_user_id()))
                },
                VerifyEvent::ConsumeFailed => (
                    VerifyFlow::Done,
                    VerifyAction::Rollback(ErrorCode::CouldNotQueryDatabase),
                ),
                _ => fail,
            },
            VerifyFlow::AwaitMark { token } => match ev {
                VerifyEvent::Marked(rows) => if rows == 0 {
                    (VerifyFlow::Done, VerifyAction::Rollback(ErrorCode::CouldNotQueryDatabase))
                } else {
                    (VerifyFlow::AwaitCommit { token }, VerifyAction::Commit)
                },
                VerifyEvent::MarkFailed => (
                    VerifyFlow::Done,
                    VerifyAction::Rollback(ErrorCode::CouldNotQueryDatabase),
                ),
                _ => rollback,
            },
            VerifyFlow::AwaitCommit { token } => match ev {
                VerifyEvent::Committed => (
                    VerifyFlow::Done,
                    VerifyAction::Finish(token.get_user_id()),
                ),
                VerifyEvent::CommitFailed => (
                    VerifyFlow::Done,
                    VerifyAction::Fail(ErrorCode::CouldNotCommitTransaction),
                ),
                _ => rollback,
            },
            VerifyFlow::Done => fail,
        }
    }

    /// One step, judging a lookup answer against the clock.
    pub fn next(self, ev: VerifyEvent) -> (r: (VerifyFlow, VerifyAction))
        ensures
            exists|now: i64| now >= 0 && r == #[trigger] verify_transition(self, ev, now),
            !(ev is Found) ==> r == verify_transition(self, ev, 0),
    {
        let now = now_micros();
        self.advance(ev, now)
    }
}

} // verus!
