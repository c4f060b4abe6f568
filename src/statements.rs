//! The SQL the repositories issue against the two tables, and the pieces of
//! it that depend on the request.

use vstd::prelude::*;
use vstd::string::StringExecFns;

use crate::model::{TokenKind, UserForm, UserTokenForm};

verus! {

/// A row type that is written by one fixed insert statement.
pub trait ToInsertStmt {
    fn to_insert_stmt() -> String;
}

/// A row type that is written many at a time by one fixed statement.
pub trait ToBatchInsertStmt {
    fn to_batch_insert_stmt() -> String;
}

/// Parameters: screen name, email, password hash. Times are the server's.
pub const INSERT_ACCOUNT: &'static str = "INSERT INTO accounts (screen_name, email, password_hash, created_at, updated_at, is_active, email_verified) VALUES ($1, $2, $3, now(), now(), true, false) RETURNING *";

/// Parameters: arrays of screen names, emails and password hashes.
pub const BATCH_INSERT_ACCOUNTS: &'static str = "INSERT INTO accounts (screen_name, email, password_hash, created_at, updated_at, is_active, email_verified) SELECT t.screen_name, t.email, t.password_hash, now(), now(), true, false FROM unnest($1::text[], $2::text[], $3::text[]) AS t(screen_name, email, password_hash) RETURNING *";

/// Parameters: token id, account id, kind, expiry. Creation time is the
/// server's; a new token is unconsumed.
pub const INSERT_TOKEN: &'static str = "INSERT INTO verification_tokens (id, account_id, kind, created_at, expires_at, consumed) VALUES ($1, $2, $3, now(), $4, false) RETURNING *";

pub const SELECT_TOKEN_BY_ID: &'static str = "SELECT * FROM verification_tokens WHERE id = $1";

/// The single conditional write that consumes a token.
pub const CONSUME_TOKEN: &'static str = "UPDATE verification_tokens SET consumed = true WHERE id = $1 AND consumed = false";

pub const MARK_EMAIL_VERIFIED: &'static str = "UPDATE accounts SET email_verified = true, updated_at = now() WHERE id = $1";

pub const SELECT_ACCOUNT_BY_ID: &'static str = "SELECT * FROM accounts WHERE id = $1";

pub const SELECT_ACCOUNTS_BY_IDS: &'static str = "SELECT * FROM accounts WHERE id = ANY($1)";

pub const DELETE_ACCOUNT: &'static str = "DELETE FROM accounts WHERE id = $1";

pub const DELETE_TOKEN: &'static str = "DELETE FROM verification_tokens WHERE id = $1";

impl ToInsertStmt for UserForm {
    fn to_insert_stmt() -> String {
        String::from_str(INSERT_ACCOUNT)
    }
}

impl ToBatchInsertStmt for UserForm {
    fn to_batch_insert_stmt() -> String {
        String::from_str(BATCH_INSERT_ACCOUNTS)
    }
}

impl ToInsertStmt for UserTokenForm {
    fn to_insert_stmt() -> String {
        String::from_str(INSERT_TOKEN)
    }
}

/// A delete that matched no row.
#[derive(Clone, Copy, Debug, PartialEq, Eq, Structural)]
pub struct NoRowMatched {}

/// A delete reports an error when no row matched, never a silent no-op.
pub fn delete_outcome(count: u64) -> (r: Result<u64, NoRowMatched>)
    ensures
        count == 0 <==> r is Err,
        r matches Ok(n) ==> n == count,
{
    if count == 0 {
        Err(NoRowMatched {})
    } else {
        Ok(count)
    }
}

/// A partial change of an account; absent fields stay as they are.
#[derive(Clone, Debug)]
pub struct UserUpdateForm {
    pub user_screen_name: Option<String>,
    pub user_email: Option<String>,
    pub user_password: Option<String>,
    pub user_is_active: Option<bool>,
}

pub const UPDATE_ACCOUNT_HEAD: &'static str = "UPDATE accounts SET ";

pub const UPDATE_ACCOUNT_WHERE: &'static str = ", updated_at = now() WHERE id = ";

pub const RETURNING_ALL: &'static str = " RETURNING *";

pub const ASSIGN: &'static str = " = ";

pub const LIST_SEPARATOR: &'static str = ", ";

/// The text of parameter `n`, for the five parameters an update can have.
pub open spec fn placeholder(n: int) -> Seq<char> {
    if n == 1 {
        "$1"@
    } else if n == 2 {
        "$2"@
    } else if n == 3 {
        "$3"@
    } else if n == 4 {
        "$4"@
    } else {
        "$5"@
    }
}

fn placeholder_text(n: usize) -> (r: &'static str)
    requires
        1 <= n <= 5,
    ensures
        r@ == placeholder(n as int),
{
    if n == 1 {
        "$1"
    } else if n == 2 {
        "$2"
    } else if n == 3 {
        "$3"
    } else if n == 4 {
        "$4"
    } else {
        "$5"
    }
}

/// The columns of the fields present, in the order screen name, email,
/// password hash, active flag.
pub open spec fn user_columns(f: UserUpdateForm) -> Seq<Seq<char>> {
    (if f.user_screen_name is Some { seq!["screen_name"@] } else { seq![] }) + (if f.user_email is Some {
        seq!["email"@]
    } else {
        seq![]
    }) + (if f.user_password is Some { seq!["password_hash"@] } else { seq![] }) + (
    if f.user_is_active is Some {
        seq!["is_active"@]
    } else {
        seq![]
    })
}

/// Column `i` of the list takes parameter `i + 1`.
pub open spec fn assignments(cols: Seq<Seq<char>>) -> Seq<Seq<char>> {
    cols.map(|i: int, c: Seq<char>| c + ASSIGN@ + placeholder(i + 1))
}

/// The parts, with `sep` between each two.
pub open spec fn join(parts: Seq<Seq<char>>, sep: Seq<char>) -> Seq<char>
    decreases parts.len(),
{
    if parts.len() == 0 {
        Seq::empty()
    } else if parts.len() == 1 {
        parts[0]
    } else {
        join(parts.drop_last(), sep) + sep + parts.last()
    }
}

/// An update statement: the assignments of `cols`, numbered from `$1`, and
/// then the row's identity as the next parameter.
pub open spec fn update_text(head: Seq<char>, cols: Seq<Seq<char>>, tail: Seq<char>) -> Seq<char> {
    head + join(assignments(cols), LIST_SEPARATOR@) + tail + placeholder(cols.len() as int + 1)
        + RETURNING_ALL@
}

fn build_update(head: &'static str, cols: &Vec<&'static str>, tail: &'static str) -> (r: String)
    requires
        1 <= cols@.len() <= 4,
    ensures
        r@ == update_text(head@, cols@.map_values(|s: &'static str| s@), tail@),
{
    let ghost views = cols@.map_values(|s: &'static str| s@);
    let ghost parts = assignments(views);
    let n = cols.len();
    let mut body = String::from_str(cols[0]);
    body.append(ASSIGN);
    body.append(placeholder_text(1));
    let mut k: usize = 1;
    assert(parts.take(1) =~= seq![parts[0]]);
    while k < n
        invariant
            1 <= k <= n,
            n == cols@.len(),
            n <= 4,
            views == cols@.map_values(|s: &'static str| s@),
            parts == assignments(views),
            body@ == join(parts.take(k as int), LIST_SEPARATOR@),
        decreases n - k,
    {
        body.append(LIST_SEPARATOR);
        body.append(cols[k]);
        body.append(ASSIGN);
        body.append(placeholder_text(k + 1));
        assert(parts.take(k + 1).drop_last() =~= parts.take(k as int));
        k = k + 1;
    }
    assert(parts.take(k as int) =~= parts);
    let mut stmt = String::from_str(head);
    stmt.append(body.as_str());
    stmt.append(tail);
    stmt.append(placeholder_text(n + 1));
    stmt.append(RETURNING_ALL);
    stmt
}

impl UserUpdateForm {
    fn columns(&self) -> (r: Vec<&'static str>)
        ensures
            r@.map_values(|s: &'static str| s@) == user_columns(*self),
            r@.len() <= 4,
    {
        let mut v: Vec<&'static str> = Vec::new();
        if self.user_screen_name.is_some() {
            v.push("screen_name");
        }
        if self.user_email.is_some() {
            v.push("email");
        }
        if self.user_password.is_some() {
            v.push("password_hash");
        }
        if self.user_is_active.is_some() {
            v.push("is_active");
        }
        assert(v@.map_values(|s: &'static str| s@) =~= user_columns(*self));
        v
    }

    /// The update statement, or `None` when there is nothing to change. The
    /// fields present take parameters `$1`, `$2`, ... in column order (the
    /// password as its hash); the account's identity takes the next one.
    pub fn update_stmt(&self) -> (r: Option<String>)
        ensures
            user_columns(*self).len() == 0 <==> r is None,
            r matches Some(s) ==> s@ == update_text(
                UPDATE_ACCOUNT_HEAD@,
                user_columns(*self),
                UPDATE_ACCOUNT_WHERE@,
            ),
    {
        let cols = self.columns();
        if cols.len() == 0 {
            return None;
        }
        Some(build_update(UPDATE_ACCOUNT_HEAD, &cols, UPDATE_ACCOUNT_WHERE))
    }
}

/// A partial change of a token; absent fields stay as they are. The
/// consumed flag is not among them: it only ever goes from false to true,
/// through the conditional write `CONSUME_TOKEN`.
#[derive(Clone, Copy, Debug, PartialEq, Eq, Structural)]
pub struct UserTokenUpdateForm {
    pub user_token_type: Option<TokenKind>,
    pub user_token_expires_at: Option<i64>,
}

pub const UPDATE_TOKEN_HEAD: &'static str = "UPDATE verification_tokens SET ";

pub const UPDATE_TOKEN_WHERE: &'static str = " WHERE id = ";

/// The columns of the fields present, in the order kind, expiry.
pub open spec fn token_columns(f: UserTokenUpdateForm) -> Seq<Seq<char>> {
    (if f.user_token_type is Some { seq!["kind"@] } else { seq![] }) + (if f.user_token_expires_at is Some {
        seq!["expires_at"@]
    } else {
        seq![]
    })
}

impl UserTokenUpdateForm {
    fn columns(&self) -> (r: Vec<&'static str>)
        ensures
            r@.map_values(|s: &'static str| s@) == token_columns(*self),
            r@.len() <= 2,
    {
        let mut v: Vec<&'static str> = Vec::new();
        if self.user_token_type.is_some() {
            v.push("kind");
        }
        if self.user_token_expires_at.is_some() {
            v.push("expires_at");
        }
        assert(v@.map_values(|s: &'static str| s@) =~= token_columns(*self));
        v
    }

    /// The update statement, or `None` when there is nothing to change. The
    /// fields present take parameters `$1`, `$2` in column order (the kind as
    /// its text); the token's identity takes the next one.
    pub fn update_stmt(&self) -> (r: Option<String>)
        ensures
            token_columns(*self).len() == 0 <==> r is None,
            r matches Some(s) ==> s@ == update_text(
                UPDATE_TOKEN_HEAD@,
                token_columns(*self),
                UPDATE_TOKEN_WHERE@,
            ),
    {
        let cols = self.columns();
        if cols.len() == 0 {
            return None;
        }
        Some(build_update(UPDATE_TOKEN_HEAD, &cols, UPDATE_TOKEN_WHERE))
    }
}

} // verus!
