//! The success bodies of the two flows. Fields and meaning are fixed; the
//! wire encoding is the caller's choice.

use vstd::prelude::*;
use vstd::string::StringExecFns;

use crate::model::UserTruncated;

verus! {

/// Timing metadata: how long the request took, and when it was answered
/// (microseconds since the Unix epoch).
#[derive(Clone, Debug)]
pub struct ResponseMeta {
    pub time_taken: String,
    pub timestamp: i64,
}

pub type SignupResponseMeta = ResponseMeta;

pub type VerifyEmailResponseMeta = ResponseMeta;

/// The new account, without its password hash.
#[derive(Clone, Debug)]
pub struct SignupResponseData {
    pub user: UserTruncated,
}

#[derive(Clone, Debug)]
pub struct SignupResponse {
    pub success: bool,
    pub data: SignupResponseData,
    pub meta: SignupResponseMeta,
}

#[derive(Clone, Debug)]
pub struct VerifyEmailResponseData {
    pub message: String,
}

#[derive(Clone, Debug)]
pub struct VerifyEmailResponse {
    pub success: bool,
    pub data: VerifyEmailResponseData,
    pub meta: VerifyEmailResponseMeta,
}

/// The confirmation message of a verification.
pub const VERIFY_SUCCESS_MESSAGE: &'static str = "Email verification successful!";

impl SignupResponse {
    pub fn new(user: UserTruncated, time_taken: String, timestamp: i64) -> (r: SignupResponse)
        ensures
            r.success,
            r.data.user == user,
            r.meta.time_taken == time_taken,
            r.meta.timestamp == timestamp,
    {
        SignupResponse {
            success: true,
            data: SignupResponseData { user },
            meta: ResponseMeta { time_taken, timestamp },
        }
    }
}

impl VerifyEmailResponse {
    pub fn new(time_taken: String, timestamp: i64) -> (r: VerifyEmailResponse)
        ensures
            r.success,
            r.data.message@ == VERIFY_SUCCESS_MESSAGE@,
            r.meta.time_taken == time_taken,
            r.meta.timestamp == timestamp,
    {
        VerifyEmailResponse {
            success: true,
            data: VerifyEmailResponseData { message: String::from_str(VERIFY_SUCCESS_MESSAGE) },
            meta: ResponseMeta { time_taken, timestamp },
        }
    }
}

} // verus!
