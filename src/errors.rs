//! The error taxonomy shared by registration and verification. Each failure
//! has a stable numeric code, a fixed message template and a status class;
//! nothing here depends on a transport.

use vstd::prelude::*;
use vstd::string::StringExecFns;

verus! {

/// The six classes every failure falls into.
#[derive(Clone, Copy, Debug, PartialEq, Eq, Structural)]
pub enum ErrorClass {
    /// Malformed input, decided before any storage access.
    Validation,
    /// A uniqueness violation on account creation.
    Conflict,
    /// Pool, transaction, commit, query or serialization failure.
    Infra,
    TokenInvalid,
    TokenUsed,
    TokenExpired,
}

/// Every failure the two flows report.
#[derive(Clone, Copy, Debug, PartialEq, Eq, Structural)]
pub enum ErrorCode {
    CouldNotGetConnFromPool,
    CouldNotBuildTransactionFromConn,
    WrongEmailFormat,
    WrongPwFormat,
    CouldNotInsertUser,
    CouldNotInsertUserToken,
    CouldNotConstructEmail,
    CouldNotSendMail,
    CouldNotSerializeBincode,
    CouldNotCommitTransaction,
    UserAlreadyExists,
    UserTokenInvalid,
    UserTokenUsed,
    UserTokenExpired,
    CouldNotBuildResponse,
    CouldNotQueryDatabase,
    UnexpectedStep,
}

pub open spec fn class_of(e: ErrorCode) -> ErrorClass {
    match e {
        ErrorCode::WrongEmailFormat | ErrorCode::WrongPwFormat => ErrorClass::Validation,
        ErrorCode::UserAlreadyExists => ErrorClass::Conflict,
        ErrorCode::UserTokenInvalid => ErrorClass::TokenInvalid,
        ErrorCode::UserTokenUsed => ErrorClass::TokenUsed,
        ErrorCode::UserTokenExpired => ErrorClass::TokenExpired,
        _ => ErrorClass::Infra,
    }
}

pub open spec fn code_of(e: ErrorCode) -> u8 {
    match e {
        ErrorCode::CouldNotGetConnFromPool => 1,
        ErrorCode::CouldNotBuildTransactionFromConn => 2,
        ErrorCode::WrongEmailFormat => 3,
        ErrorCode::WrongPwFormat => 4,
        ErrorCode::CouldNotInsertUser => 5,
        ErrorCode::CouldNotInsertUserToken => 6,
        ErrorCode::CouldNotConstructEmail => 7,
        ErrorCode::CouldNotSendMail => 8,
        ErrorCode::CouldNotSerializeBincode => 9,
        ErrorCode::CouldNotCommitTransaction => 10,
        ErrorCode::UserAlreadyExists => 11,
        ErrorCode::UserTokenInvalid => 12,
        ErrorCode::UserTokenUsed => 13,
        ErrorCode::UserTokenExpired => 14,
        ErrorCode::CouldNotBuildResponse => 15,
        ErrorCode::CouldNotQueryDatabase => 16,
        ErrorCode::UnexpectedStep => 17,
    }
}

/// The fixed message template of each code.
pub open spec fn message_of(e: ErrorCode) -> Seq<char> {
    match e {
        ErrorCode::CouldNotGetConnFromPool => "Could not get connection from pool; "@,
        ErrorCode::CouldNotBuildTransactionFromConn => "Could not build transaction from connection; "@,
        ErrorCode::WrongEmailFormat => "The provided email format is incorrect."@,
        ErrorCode::WrongPwFormat => "Password format is incorrect. Must be at least 8 characters and include uppercase, lowercase, number, and special characters among: [@, $, !, %, *, ?, &, #]"@,
        ErrorCode::CouldNotInsertUser => "Could not insert user into database; "@,
        ErrorCode::CouldNotInsertUserToken => "Could not insert user token into database; "@,
        ErrorCode::CouldNotConstructEmail => "Could not construct email content; "@,
        ErrorCode::CouldNotSendMail => "Could not send email; "@,
        ErrorCode::CouldNotSerializeBincode => "Failed to serialize data with bincode; "@,
        ErrorCode::CouldNotCommitTransaction => "Could not commit transaction; "@,
        ErrorCode::UserAlreadyExists => "User already exists! Please use another email and screen name. "@,
        ErrorCode::UserTokenInvalid => "Invalid user token! "@,
        ErrorCode::UserTokenUsed => "User token already used! "@,
        ErrorCode::UserTokenExpired => "User token expired! "@,
        ErrorCode::CouldNotBuildResponse => "Could not build response; "@,
        ErrorCode::CouldNotQueryDatabase => "Could not query database; "@,
        ErrorCode::UnexpectedStep => "Request handling went out of order; "@,
    }
}

/// 400 for client input and tokens, 409 for conflicts, 500 for the server.
pub open spec fn status_of(c: ErrorClass) -> u16 {
    match c {
        ErrorClass::Conflict => 409,
        ErrorClass::Infra => 500,
        _ => 400,
    }
}

impl ErrorClass {
    pub fn status_code(&self) -> (r: u16)
        ensures
            r == status_of(*self),
    {
        match self {
            ErrorClass::Conflict => 409,
            ErrorClass::Infra => 500,
            _ => 400,
        }
    }
}

impl ErrorCode {
    pub fn class(&self) -> (r: ErrorClass)
        ensures
            r == class_of(*self),
    {
        match self {
            ErrorCode::WrongEmailFormat | ErrorCode::WrongPwFormat => ErrorClass::Validation,
            ErrorCode::UserAlreadyExists => ErrorClass::Conflict,
            ErrorCode::UserTokenInvalid => ErrorClass::TokenInvalid,
            ErrorCode::UserTokenUsed => ErrorClass::TokenUsed,
            ErrorCode::UserTokenExpired => ErrorClass::TokenExpired,
            _ => ErrorClass::Infra,
        }
    }

    pub fn code(&self) -> (r: u8)
        ensures
            r == code_of(*self),
    {
        match self {
            ErrorCode::CouldNotGetConnFromPool => 1,
            ErrorCode::CouldNotBuildTransactionFromConn => 2,
            ErrorCode::WrongEmailFormat => 3,
            ErrorCode::WrongPwFormat => 4,
            ErrorCode::CouldNotInsertUser => 5,
            ErrorCode::CouldNotInsertUserToken => 6,
            ErrorCode::CouldNotConstructEmail => 7,
            ErrorCode::CouldNotSendMail => 8,
            ErrorCode::CouldNotSerializeBincode => 9,
            ErrorCode::CouldNotCommitTransaction => 10,
            ErrorCode::UserAlreadyExists => 11,
            ErrorCode::UserTokenInvalid => 12,
            ErrorCode::UserTokenUsed => 13,
            ErrorCode::UserTokenExpired => 14,
            ErrorCode::CouldNotBuildResponse => 15,
            ErrorCode::CouldNotQueryDatabase => 16,
            ErrorCode::UnexpectedStep => 17,
        }
    }

    /// The fixed message template of the code.
    pub fn message(&self) -> (r: &'static str)
        ensures
            r@ == message_of(*self),
    {
        match self {
            ErrorCode::CouldNotGetConnFromPool => "Could not get connection from pool; ",
            ErrorCode::CouldNotBuildTransactionFromConn => "Could not build transaction from connection; ",
            ErrorCode::WrongEmailFormat => "The provided email format is incorrect.",
            ErrorCode::WrongPwFormat => "Password format is incorrect. Must be at least 8 characters and include uppercase, lowercase, number, and special characters among: [@, $, !, %, *, ?, &, #]",
            ErrorCode::CouldNotInsertUser => "Could not insert user into database; ",
            ErrorCode::CouldNotInsertUserToken => "Could not insert user token into database; ",
            ErrorCode::CouldNotConstructEmail => "Could not construct email content; ",
            ErrorCode::CouldNotSendMail => "Could not send email; ",
            ErrorCode::CouldNotSerializeBincode => "Failed to serialize data with bincode; ",
            ErrorCode::CouldNotCommitTransaction => "Could not commit transaction; ",
            ErrorCode::UserAlreadyExists => "User already exists! Please use another email and screen name. ",
            ErrorCode::UserTokenInvalid => "Invalid user token! ",
            ErrorCode::UserTokenUsed => "User token already used! ",
            ErrorCode::UserTokenExpired => "User token expired! ",
            ErrorCode::CouldNotBuildResponse => "Could not build response; ",
            ErrorCode::CouldNotQueryDatabase => "Could not query database; ",
            ErrorCode::UnexpectedStep => "Request handling went out of order; ",
        }
    }
}

/// The fixed part of an error response: code, message template, status.
#[derive(Clone, Copy, Debug)]
pub struct ErrRespDat {
    pub code: u8,
    pub message: &'static str,
    pub status_code: u16,
}

impl ErrRespDat {
    pub fn of(e: ErrorCode) -> (r: ErrRespDat)
        ensures
            r.code == code_of(e),
            r.message@ == message_of(e),
            r.status_code == status_of(class_of(e)),
    {
        ErrRespDat { code: e.code(), message: e.message(), status_code: e.class().status_code() }
    }
}

/// The data part of an error response as sent.
#[derive(Clone, Debug)]
pub struct ErrRespDatFin {
    pub code: u8,
    pub message: String,
    pub status_code: u16,
}

/// Timing metadata of an error response.
#[derive(Clone, Debug)]
pub struct SvrErrorRespMeta {
    pub time_taken: String,
    pub timestamp: String,
}

/// An error response: `success` is always false.
#[derive(Clone, Debug)]
pub struct ErrResp {
    pub success: bool,
    pub data: ErrRespDatFin,
    pub meta: SvrErrorRespMeta,
}

/// The client-visible message: the template, followed by the detail only for
/// failures the client caused. Server-side detail is never shown.
pub open spec fn client_message(template: Seq<char>, status_code: u16, detail: Seq<char>) -> Seq<char> {
    if status_code == 500 {
        template
    } else {
        template + detail
    }
}

impl ErrResp {
    pub fn from(dat: ErrRespDat, detail: &str, time_taken: String, timestamp: String) -> (r: ErrResp)
        ensures
            !r.success,
            r.data.code == dat.code,
            r.data.status_code == dat.status_code,
            r.data.message@ == client_message(dat.message@, dat.status_code, detail@),
            r.meta.time_taken == time_taken,
            r.meta.timestamp == timestamp,
    {
        let mut message = String::from_str(dat.message);
        if dat.status_code != 500 {
            message.append(detail);
        }
        ErrResp {
            success: false,
            data: ErrRespDatFin { code: dat.code, message, status_code: dat.status_code },
            meta: SvrErrorRespMeta { time_taken, timestamp },
        }
    }

    pub fn status_code(&self) -> (r: u16)
        ensures
            r == self.data.status_code,
    {
        self.data.status_code
    }
}

} // verus!
