//! An in-memory store of record: the account and token tables with their
//! unique constraints. Exclusive access (`&mut self`) makes each call one
//! serialized transaction; the two protocols run against it step by step.

use vstd::prelude::*;
use vstd::utf8::encode_utf8;

use crate::errors::ErrorCode;
use crate::model::{
    fresh_uuid, truncate, TokenKind, User, UserForm, UserToken, UserTokenForm, UserTruncated,
    TOKEN_VALIDITY_MICROS,
};
use crate::password::{hash_password, hash_shaped, password_check, HashFormatError, MAX_PASSWORD_BYTES};
use crate::signup::{form_error, DbFailure, Dispatch, SignupAction, SignupEvent, SignupFlow};
use crate::verification::{VerifyAction, VerifyEvent, VerifyFlow};

verus! {

pub open spec fn email_taken(users: Seq<User>, email: Seq<char>) -> bool {
    exists|i: int| 0 <= i < users.len() && (#[trigger] users[i]).user_email@ == email
}

pub open spec fn name_taken(users: Seq<User>, name: Seq<char>) -> bool {
    exists|i: int| 0 <= i < users.len() && (#[trigger] users[i]).user_screen_name@ == name
}

pub open spec fn token_id_taken(tokens: Seq<UserToken>, id: u128) -> bool {
    exists|i: int| 0 <= i < tokens.len() && (#[trigger] tokens[i]).user_token_id == id
}

pub open spec fn user_id_taken(users: Seq<User>, id: u128) -> bool {
    exists|i: int| 0 <= i < users.len() && (#[trigger] users[i]).user_id == id
}

/// Every token belongs to an account that exists.
pub open spec fn tokens_owned(users: Seq<User>, tokens: Seq<UserToken>) -> bool {
    forall|i: int|
        0 <= i < tokens.len() ==> user_id_taken(users, (#[trigger] tokens[i]).user_token_user_id)
}

/// Token identities are unique.
pub open spec fn tokens_unique(tokens: Seq<UserToken>) -> bool {
    forall|i: int, j: int|
        0 <= i < tokens.len() && 0 <= j < tokens.len() && i != j ==> (#[trigger] tokens[i]).user_token_id
            != (#[trigger] tokens[j]).user_token_id
}

/// Account identities, addresses and screen names are each unique.
pub open spec fn users_unique(users: Seq<User>) -> bool {
    forall|i: int, j: int|
        0 <= i < users.len() && 0 <= j < users.len() && i != j ==> {
            &&& (#[trigger] users[i]).user_id != (#[trigger] users[j]).user_id
            &&& users[i].user_email@ != users[j].user_email@
            &&& users[i].user_screen_name@ != users[j].user_screen_name@
        }
}

/// The token with identity `id`, if there is one.
pub open spec fn token_with_id(tokens: Seq<UserToken>, id: u128) -> Option<UserToken> {
    if token_id_taken(tokens, id) {
        Some(tokens[choose|i: int| 0 <= i < tokens.len() && (#[trigger] tokens[i]).user_token_id == id])
    } else {
        None
    }
}

/// The account with identity `id`, if there is one.
pub open spec fn user_with_id(users: Seq<User>, id: u128) -> Option<User> {
    if user_id_taken(users, id) {
        Some(users[choose|i: int| 0 <= i < users.len() && (#[trigger] users[i]).user_id == id])
    } else {
        None
    }
}

/// The tokens after the one with identity `id` is set consumed.
pub open spec fn consume_in(tokens: Seq<UserToken>, id: u128) -> Seq<UserToken> {
    tokens.map_values(
        |t: UserToken|
            if t.user_token_id == id {
                UserToken { user_token_used: true, ..t }
            } else {
                t
            },
    )
}

/// The accounts after the one with identity `id` is marked verified at `now`.
pub open spec fn mark_in(users: Seq<User>, id: u128, now: i64) -> Seq<User> {
    users.map_values(
        |u: User|
            if u.user_id == id {
                User { user_email_verified: true, user_updated_at: now, ..u }
            } else {
                u
            },
    )
}

/// What redeeming token `id` at time `now` answers: unknown, used (checked
/// first), expired, or the identity of the account it verifies.
pub open spec fn verify_outcome(users: Seq<User>, tokens: Seq<UserToken>, id: u128, now: i64) -> Result<
    u128,
    ErrorCode,
> {
    match token_with_id(tokens, id) {
        None => Err(ErrorCode::UserTokenInvalid),
        Some(t) => if t.user_token_used {
            Err(ErrorCode::UserTokenUsed)
        } else if t.expired_at(now) {
            Err(ErrorCode::UserTokenExpired)
        } else if user_id_taken(users, t.user_token_user_id) {
            Ok(t.user_token_user_id)
        } else {
            Err(ErrorCode::CouldNotQueryDatabase)
        },
    }
}

/// A registration can be written: the request is valid, neither its address
/// nor its screen name is taken, the password is within Argon2's bound, an
/// account identity is left and the token's expiry can be represented.
pub open spec fn signup_admissible(s: MemStore, form: UserForm, now: i64) -> bool {
    &&& form_error(form) is None
    &&& !email_taken(s.users(), form.user_email@)
    &&& !name_taken(s.users(), form.user_screen_name@)
    &&& encode_utf8(form.user_password@).len() <= MAX_PASSWORD_BYTES
    &&& s.next_id() < u128::MAX
    &&& now <= i64::MAX - TOKEN_VALIDITY_MICROS
}

/// What a successful registration left: one new account made from the form
/// at `now`, one new unconsumed token `token_id` of that account that expires
/// one validity window later, the account's client view, and one message to
/// send to the account's address with the token.
pub open spec fn signed_up(
    before: MemStore,
    after: MemStore,
    form: UserForm,
    now: i64,
    token_id: u128,
    user: UserTruncated,
    d: Dispatch,
) -> bool {
    let u = after.users().last();
    let t = after.tokens().last();
    &&& after.users() == before.users().push(u)
    &&& after.tokens() == before.tokens().push(t)
    &&& user == truncate(u)
    &&& u.user_id == before.next_id()
    &&& u.user_screen_name == form.user_screen_name
    &&& u.user_email == form.user_email
    &&& u.user_created_at == now
    &&& u.user_updated_at == now
    &&& u.user_is_active
    &&& !u.user_email_verified
    &&& password_check(u.user_password_hash@, form.user_password@) == Ok::<bool, HashFormatError>(true)
    &&& hash_shaped(u.user_password_hash@)
    &&& !hash_shaped(form.user_password@) ==> u.user_password_hash@ != form.user_password@
    &&& t == (UserToken {
        user_token_id: token_id,
        user_token_user_id: u.user_id,
        user_token_type: TokenKind::SignupEmailValidate,
        user_token_created_at: now,
        user_token_expires_at: (now + TOKEN_VALIDITY_MICROS) as i64,
        user_token_used: false,
    })
    &&& d.recipient == form.user_email
    &&& d.token_id == token_id
}

proof fn lemma_owned_push_user(users: Seq<User>, tokens: Seq<UserToken>, u: User)
    requires
        tokens_owned(users, tokens),
    ensures
        tokens_owned(users.push(u), tokens),
{
    assert forall|i: int| 0 <= i < tokens.len() implies user_id_taken(
        users.push(u),
        (#[trigger] tokens[i]).user_token_user_id,
    ) by {
        let j = choose|j: int| 0 <= j < users.len() && (#[trigger] users[j]).user_id == tokens[i].user_token_user_id;
        assert(users.push(u)[j] == users[j]);
    }
}

proof fn lemma_owned_mark(users: Seq<User>, tokens: Seq<UserToken>, id: u128, now: i64)
    requires
        tokens_owned(users, tokens),
    ensures
        tokens_owned(mark_in(users, id, now), tokens),
{
    assert forall|i: int| 0 <= i < tokens.len() implies user_id_taken(
        mark_in(users, id, now),
        (#[trigger] tokens[i]).user_token_user_id,
    ) by {
        let j = choose|j: int| 0 <= j < users.len() && (#[trigger] users[j]).user_id == tokens[i].user_token_user_id;
        assert(mark_in(users, id, now)[j].user_id == users[j].user_id);
    }
}

pub struct MemStore {
    users: Vec<User>,
    tokens: Vec<UserToken>,
    next_user_id: u128,
}

fn copy_user(u: &User) -> (r: User)
    ensures
        r == *u,
{
    User {
        user_id: u.user_id,
        user_screen_name: u.user_screen_name.clone(),
        user_email: u.user_email.clone(),
        user_password_hash: u.user_password_hash.clone(),
        user_created_at: u.user_created_at,
        user_updated_at: u.user_updated_at,
        user_is_active: u.user_is_active,
        user_email_verified: u.user_email_verified,
    }
}

impl MemStore {
    pub closed spec fn users(&self) -> Seq<User> {
        self.users@
    }

    pub closed spec fn tokens(&self) -> Seq<UserToken> {
        self.tokens@
    }

    /// The identity the next account will get.
    pub closed spec fn next_id(&self) -> u128 {
        self.next_user_id
    }

    pub open spec fn wf(&self) -> bool {
        &&& users_unique(self.users())
        &&& tokens_unique(self.tokens())
        &&& forall|i: int|
            0 <= i < self.users().len() ==> (#[trigger] self.users()[i]).user_id < self.next_id()
        &&& forall|i: int| 0 <= i < self.tokens().len() ==> (#[trigger] self.tokens()[i]).wf()
        &&& tokens_owned(self.users(), self.tokens())
    }

    pub open spec fn same_rows(&self, other: &MemStore) -> bool {
        self.users() == other.users() && self.tokens() == other.tokens()
    }

    pub fn new() -> (r: MemStore)
        ensures
            r.wf(),
            r.users().len() == 0,
            r.tokens().len() == 0,
    {
        MemStore { users: Vec::new(), tokens: Vec::new(), next_user_id: 1 }
    }

    pub fn account_count(&self) -> (r: usize)
        ensures
            r == self.users().len(),
    {
        self.users.len()
    }

    pub fn token_count(&self) -> (r: usize)
        ensures
            r == self.tokens().len(),
    {
        self.tokens.len()
    }

    fn token_index(&self, id: u128) -> (r: Option<usize>)
        requires
            tokens_unique(self.tokens()),
        ensures
            r is None <==> !token_id_taken(self.tokens(), id),
            r matches Some(k) ==> k < self.tokens().len() && self.tokens()[k as int].user_token_id == id
                && token_with_id(self.tokens(), id) == Some(self.tokens()[k as int]),
    {
        let mut k: usize = 0;
        while k < self.tokens.len()
            invariant
                tokens_unique(self.tokens()),
                k <= self.tokens@.len(),
                forall|j: int| 0 <= j < k ==> (#[trigger] self.tokens@[j]).user_token_id != id,
            decreases self.tokens@.len() - k,
        {
            if self.tokens[k].user_token_id == id {
                proof {
                    let tk = self.tokens@;
                    assert(token_id_taken(tk, id));
                    let c = choose|i: int| 0 <= i < tk.len() && (#[trigger] tk[i]).user_token_id == id;
                    assert(tk == self.tokens());
                    assert(tk[c].user_token_id == tk[k as int].user_token_id);
                    assert(c == k as int);
                }
                return Some(k);
            }
            k = k + 1;
        }
        None
    }

    fn user_index(&self, id: u128) -> (r: Option<usize>)
        requires
            users_unique(self.users()),
        ensures
            r is None <==> !user_id_taken(self.users(), id),
            r matches Some(k) ==> k < self.users().len() && self.users()[k as int].user_id == id
                && user_with_id(self.users(), id) == Some(self.users()[k as int]),
    {
        let mut k: usize = 0;
        while k < self.users.len()
            invariant
                users_unique(self.users()),
                k <= self.users@.len(),
                forall|j: int| 0 <= j < k ==> (#[trigger] self.users@[j]).user_id != id,
            decreases self.users@.len() - k,
        {
            if self.users[k].user_id == id {
                proof {
                    let us = self.users@;
                    assert(user_id_taken(us, id));
                    let c = choose|i: int| 0 <= i < us.len() && (#[trigger] us[i]).user_id == id;
                    assert(us == self.users());
                    assert(us[c].user_id == us[k as int].user_id);
                    assert(c == k as int);
                }
                return Some(k);
            }
            k = k + 1;
        }
        None
    }

    /// Plain lookup of a token.
    pub fn find_token(&self, id: u128) -> (r: Option<UserToken>)
        requires
            self.wf(),
        ensures
            r == token_with_id(self.tokens(), id),
    {
        match self.token_index(id) {
            Some(k) => Some(self.tokens[k]),
            None => None,
        }
    }

    /// Plain lookup of an account.
    pub fn find_user(&self, id: u128) -> (r: Option<User>)
        requires
            self.wf(),
        ensures
            r == user_with_id(self.users(), id),
    {
        match self.user_index(id) {
            Some(k) => Some(copy_user(&self.users[k])),
            None => None,
        }
    }

    /// Inserts an account, hashing its password. A taken address or screen
    /// name violates a unique constraint; nothing is written then.
    pub fn insert_account(&mut self, form: &UserForm, now: i64) -> (r: Result<User, DbFailure>)
        requires
            old(self).wf(),
        ensures
            final(self).wf(),
            email_taken(old(self).users(), form.user_email@) || name_taken(
                old(self).users(),
                form.user_screen_name@,
            ) ==> r == Err::<User, DbFailure>(DbFailure::UniqueViolation),
            !email_taken(old(self).users(), form.user_email@) && !name_taken(
                old(self).users(),
                form.user_screen_name@,
            ) && encode_utf8(form.user_password@).len() <= MAX_PASSWORD_BYTES && old(self).next_id() < u128::MAX ==> r is Ok,
            r is Err ==> final(self).same_rows(old(self)) && final(self).next_id() == old(self).next_id(),
            r matches Ok(u) ==> {
                &&& final(self).users() == old(self).users().push(u)
                &&& final(self).tokens() == old(self).tokens()
                &&& final(self).next_id() == old(self).next_id() + 1
                &&& u.user_id == old(self).next_id()
                &&& u.user_screen_name == form.user_screen_name
                &&& u.user_email == form.user_email
                &&& u.user_created_at == now
                &&& u.user_updated_at == now
                &&& u.user_is_active
                &&& !u.user_email_verified
                &&& password_check(u.user_password_hash@, form.user_password@) == Ok::<
                    bool,
                    HashFormatError,
                >(true)
                &&& hash_shaped(u.user_password_hash@)
                &&& !hash_shaped(form.user_password@) ==> u.user_password_hash@ != form.user_password@
            },
    {
        let mut k: usize = 0;
        while k < self.users.len()
            invariant
                *self == *old(self),
                self.wf(),
                k <= self.users@.len(),
                forall|j: int|
                    0 <= j < k ==> (#[trigger] self.users@[j]).user_email@ != form.user_email@
                        && self.users@[j].user_screen_name@ != form.user_screen_name@,
            decreases self.users@.len() - k,
        {
            if self.users[k].user_email == form.user_email || self.users[k].user_screen_name
                == form.user_screen_name {
                return Err(DbFailure::UniqueViolation);
            }
            k = k + 1;
        }
        let pw = form.user_password.as_str();
        if pw.as_bytes().len() > MAX_PASSWORD_BYTES || self.next_user_id == u128::MAX {
            return Err(DbFailure::Other);
        }
        let hash = hash_password(pw);
        let user = User {
            user_id: self.next_user_id,
            user_screen_name: form.user_screen_name.clone(),
            user_email: form.user_email.clone(),
            user_password_hash: hash,
            user_created_at: now,
            user_updated_at: now,
            user_is_active: true,
            user_email_verified: false,
        };
        let stored = copy_user(&user);
        let ghost before = self.users@;
        self.users.push(stored);
        proof {
            lemma_owned_push_user(before, self.tokens@, user);
        }
        self.next_user_id = self.next_user_id + 1;
        Ok(user)
    }

    /// Inserts a token, stamped with the store's time and not consumed. A
    /// taken identity violates the primary key; an unknown account violates
    /// the foreign key; an expiry that is not after the creation time
    /// violates a check. Nothing is written then.
    pub fn insert_token(&mut self, form: UserTokenForm, now: i64) -> (r: Result<UserToken, DbFailure>)
        requires
            old(self).wf(),
        ensures
            final(self).wf(),
            token_id_taken(old(self).tokens(), form.user_token_id) ==> r == Err::<UserToken, DbFailure>(
                DbFailure::UniqueViolation,
            ),
            !token_id_taken(old(self).tokens(), form.user_token_id) && user_id_taken(
                old(self).users(),
                form.user_token_user_id,
            ) && now < form.user_token_expires_at ==> r is Ok,
            r is Err ==> final(self).same_rows(old(self)) && final(self).next_id() == old(self).next_id(),
            r matches Ok(t) ==> {
                &&& final(self).tokens() == old(self).tokens().push(t)
                &&& final(self).users() == old(self).users()
                &&& final(self).next_id() == old(self).next_id()
                &&& t == (UserToken {
                    user_token_id: form.user_token_id,
                    user_token_user_id: form.user_token_user_id,
                    user_token_type: form.user_token_type,
                    user_token_created_at: now,
                    user_token_expires_at: form.user_token_expires_at,
                    user_token_used: false,
                })
            },
    {
        if self.token_index(form.user_token_id).is_some() {
            return Err(DbFailure::UniqueViolation);
        }
        if self.user_index(form.user_token_user_id).is_none() || form.user_token_expires_at <= now {
            return Err(DbFailure::Other);
        }
        let t = UserToken {
            user_token_id: form.user_token_id,
            user_token_user_id: form.user_token_user_id,
            user_token_type: form.user_token_type,
            user_token_created_at: now,
            user_token_expires_at: form.user_token_expires_at,
            user_token_used: false,
        };
        self.tokens.push(t);
        Ok(t)
    }

    /// The conditional write `consumed = true where id = ? and consumed =
    /// false`: one row changes when the token exists and is unconsumed, none
    /// otherwise.
    pub fn consume_if_unconsumed(&mut self, id: u128) -> (r: u64)
        requires
            old(self).wf(),
        ensures
            final(self).wf(),
            final(self).users() == old(self).users(),
            final(self).next_id() == old(self).next_id(),
            (token_with_id(old(self).tokens(), id) matches Some(t) && !t.user_token_used) ==> r == 1
                && final(self).tokens() == consume_in(old(self).tokens(), id),
            !(token_with_id(old(self).tokens(), id) matches Some(t) && !t.user_token_used) ==> r == 0
                && final(self).tokens() == old(self).tokens(),
    {
        match self.token_index(id) {
            Some(k) => {
                let t = self.tokens[k];
                if t.user_token_used {
                    return 0;
                }
                let ghost before = self.tokens@;
                self.tokens.set(k, UserToken { user_token_used: true, ..t });
                proof {
                    assert forall|i: int| 0 <= i < before.len() implies (#[trigger] before[i]).user_token_id
                        == id ==> i == k as int by {
                        if before[i].user_token_id == id && i != k as int {
                            assert(before[i].user_token_id != before[k as int].user_token_id);
                        }
                    }
                    assert(self.tokens@ =~= consume_in(before, id));
                }
                1
            },
            None => 0,
        }
    }

    /// Sets the email-verified flag of an account, stamping the update time;
    /// the number of rows changed.
    pub fn mark_verified(&mut self, user_id: u128, now: i64) -> (r: u64)
        requires
            old(self).wf(),
        ensures
            final(self).wf(),
            final(self).tokens() == old(self).tokens(),
            final(self).next_id() == old(self).next_id(),
            user_id_taken(old(self).users(), user_id) ==> r == 1 && final(self).users() == mark_in(
                old(self).users(),
                user_id,
                now,
            ),
            !user_id_taken(old(self).users(), user_id) ==> r == 0 && final(self).users() == old(
                self,
            ).users(),
    {
        match self.user_index(user_id) {
            Some(k) => {
                let ghost before = self.users@;
                let mut u = copy_user(&self.users[k]);
                u.user_email_verified = true;
                u.user_updated_at = now;
                self.users.set(k, u);
                proof {
                    assert forall|i: int| 0 <= i < before.len() implies (#[trigger] before[i]).user_id
                        == user_id ==> i == k as int by {
                        if before[i].user_id == user_id && i != k as int {
                            assert(before[i].user_id != before[k as int].user_id);
                        }
                    }
                    assert(self.users@ =~= mark_in(before, user_id, now));
                    lemma_owned_mark(before, self.tokens@, user_id, now);
                }
                1
            },
            None => 0,
        }
    }

    /// Undoes appends: keeps the first rows of each table and restores the
    /// identity counter.
    fn roll_back_to(&mut self, users_len: usize, tokens_len: usize, next_id: u128)
        requires
            old(self).wf(),
            users_len <= old(self).users().len(),
            tokens_len <= old(self).tokens().len(),
            forall|i: int| 0 <= i < users_len ==> (#[trigger] old(self).users()[i]).user_id < next_id,
            tokens_owned(
                old(self).users().subrange(0, users_len as int),
                old(self).tokens().subrange(0, tokens_len as int),
            ),
        ensures
            final(self).wf(),
            final(self).users() == old(self).users().subrange(0, users_len as int),
            final(self).tokens() == old(self).tokens().subrange(0, tokens_len as int),
            final(self).next_id() == next_id,
    {
        self.users.truncate(users_len);
        self.tokens.truncate(tokens_len);
        self.next_user_id = next_id;
    }

    /// Runs the registration protocol as one transaction; `token_id` is the
    /// identity of the verification token. Either both rows are written or
    /// neither is.
    pub fn signup_with_token_id(&mut self, form: UserForm, now: i64, token_id: u128) -> (r: Result<
        (UserTruncated, Dispatch),
        ErrorCode,
    >)
        requires
            old(self).wf(),
        ensures
            final(self).wf(),
            form_error(form) matches Some(e) ==> r == Err::<(UserTruncated, Dispatch), ErrorCode>(e),
            form_error(form) is None && (email_taken(old(self).users(), form.user_email@) || name_taken(
                old(self).users(),
                form.user_screen_name@,
            )) ==> r == Err::<(UserTruncated, Dispatch), ErrorCode>(ErrorCode::UserAlreadyExists),
            signup_admissible(*old(self), form, now) && !token_id_taken(old(self).tokens(), token_id)
                ==> r is Ok,
            signup_admissible(*old(self), form, now) && token_id_taken(old(self).tokens(), token_id)
                ==> r == Err::<(UserTruncated, Dispatch), ErrorCode>(ErrorCode::CouldNotInsertUserToken),
            r is Err ==> final(self).same_rows(old(self)),
            r matches Ok((user, d)) ==> signed_up(*old(self), *final(self), form, now, token_id, user, d),
    {
        let users_len = self.users.len();
        let tokens_len = self.tokens.len();
        let next_id = self.next_user_id;
        let ghost g_form = form;
        let (f, a) = SignupFlow::Start.advance(SignupEvent::Submitted(form), token_id);
        match a {
            SignupAction::OpenTransaction => {},
            SignupAction::Fail(e) => {
                return Err(e);
            },
            _ => {
                proof {
                    assert(false);
                }
                return Err(ErrorCode::UnexpectedStep);
            },
        }
        let (f, a) = f.advance(SignupEvent::TransactionOpened, token_id);
        let form = match a {
            SignupAction::InsertAccount(form) => form,
            _ => {
                proof {
                    assert(false);
                }
                return Err(ErrorCode::UnexpectedStep);
            },
        };
        assert(form == g_form);
        let ev = match self.insert_account(&form, now) {
            Ok(u) => SignupEvent::AccountInserted(u),
            Err(e) => SignupEvent::AccountFailed(e),
        };
        let (f, a) = f.advance(ev, token_id);
        let tf = match a {
            SignupAction::InsertToken(tf) => tf,
            SignupAction::Rollback(e) => {
                proof {
                    assert(self.users().subrange(0, users_len as int) =~= old(self).users());
                    assert(self.tokens().subrange(0, tokens_len as int) =~= old(self).tokens());
                }
                self.roll_back_to(users_len, tokens_len, next_id);
                assert(self.users() =~= old(self).users());
                assert(self.tokens() =~= old(self).tokens());
                return Err(e);
            },
            _ => {
                proof {
                    assert(false);
                }
                return Err(ErrorCode::UnexpectedStep);
            },
        };
        proof {
            if self.users().len() > old(self).users().len() {
                let last = self.users().len() - 1;
                assert(self.users()[last].user_id == self.users().last().user_id);
            }
        }
        let ev = match self.insert_token(tf, now) {
            Ok(t) => SignupEvent::TokenInserted(t),
            Err(e) => SignupEvent::TokenFailed(e),
        };
        let (f, a) = f.advance(ev, token_id);
        match a {
            SignupAction::Commit => {},
            SignupAction::Rollback(e) => {
                proof {
                    assert(self.users().subrange(0, users_len as int) =~= old(self).users());
                    assert(self.tokens().subrange(0, tokens_len as int) =~= old(self).tokens());
                }
                self.roll_back_to(users_len, tokens_len, next_id);
                assert(self.users() =~= old(self).users());
                assert(self.tokens() =~= old(self).tokens());
                return Err(e);
            },
            _ => {
                proof {
                    assert(false);
                }
                return Err(ErrorCode::UnexpectedStep);
            },
        }
        let (_f, a) = f.advance(SignupEvent::Committed, token_id);
        match a {
            SignupAction::Finish { user, dispatch } => Ok((user, dispatch)),
            _ => {
                proof {
                    assert(false);
                }
                Err(ErrorCode::UnexpectedStep)
            },
        }
    }

    /// Runs the registration protocol with a fresh random token identity.
    pub fn signup(&mut self, form: UserForm, now: i64) -> (r: Result<(UserTruncated, Dispatch), ErrorCode>)
        requires
            old(self).wf(),
        ensures
            final(self).wf(),
            form_error(form) matches Some(e) ==> r == Err::<(UserTruncated, Dispatch), ErrorCode>(e),
            form_error(form) is None && (email_taken(old(self).users(), form.user_email@) || name_taken(
                old(self).users(),
                form.user_screen_name@,
            )) ==> r == Err::<(UserTruncated, Dispatch), ErrorCode>(ErrorCode::UserAlreadyExists),
            signup_admissible(*old(self), form, now) ==> r is Ok || r == Err::<
                (UserTruncated, Dispatch),
                ErrorCode,
            >(ErrorCode::CouldNotInsertUserToken),
            signup_admissible(*old(self), form, now) && old(self).tokens().len() == 0 ==> r is Ok,
            r is Err ==> final(self).same_rows(old(self)),
            r matches Ok((user, d)) ==> signed_up(
                *old(self),
                *final(self),
                form,
                now,
                d.token_id,
                user,
                d,
            ),
    {
        let id = fresh_uuid();
        self.signup_with_token_id(form, now, id)
    }

    /// Sets token `id` back to unconsumed: the rollback of a consume.
    fn unconsume(&mut self, id: u128, before: Ghost<Seq<UserToken>>)
        requires
            old(self).wf(),
            old(self).tokens() == consume_in(before@, id),
            tokens_unique(before@),
            forall|i: int| 0 <= i < before@.len() ==> (#[trigger] before@[i]).wf(),
            token_with_id(before@, id) matches Some(t) && !t.user_token_used,
        ensures
            final(self).wf(),
            final(self).users() == old(self).users(),
            final(self).next_id() == old(self).next_id(),
            final(self).tokens() == before@,
    {
        let ghost b = before@;
        proof {
            assert(tokens_unique(self.tokens())) by {
                assert forall|i: int, j: int|
                    0 <= i < b.len() && 0 <= j < b.len() && i != j implies (#[trigger] self.tokens()[i]).user_token_id
                        != (#[trigger] self.tokens()[j]).user_token_id by {
                    assert(b[i].user_token_id != b[j].user_token_id);
                }
            }
        }
        let c = Ghost(choose|i: int| 0 <= i < b.len() && (#[trigger] b[i]).user_token_id == id);
        assert(self.tokens()[c@].user_token_id == id);
        match self.token_index(id) {
            Some(k) => {
                let t = self.tokens[k];
                self.tokens.set(k, UserToken { user_token_used: false, ..t });
                proof {
                    assert(c@ == k as int);
                    assert forall|i: int| 0 <= i < b.len() && i != k implies (#[trigger] b[i]).user_token_id != id by {
                        assert(b[i].user_token_id != b[k as int].user_token_id);
                    }
                    assert(self.tokens() =~= b);
                }
            },
            None => {},
        }
    }

    /// Runs the verification protocol at time `now`: the checks, then the
    /// conditional consume and the verified flag in one transaction.
    pub fn verify_token(&mut self, token_id: u128, now: i64) -> (r: Result<u128, ErrorCode>)
        requires
            old(self).wf(),
        ensures
            final(self).wf(),
            final(self).next_id() == old(self).next_id(),
            r == verify_outcome(old(self).users(), old(self).tokens(), token_id, now),
            r matches Ok(uid) ==> final(self).tokens() == consume_in(old(self).tokens(), token_id)
                && final(self).users() == mark_in(old(self).users(), uid, now),
            r is Err ==> final(self).same_rows(old(self)),
    {
        let ghost before = self.tokens();
        let (f, a) = VerifyFlow::Start.advance(VerifyEvent::Submitted(token_id), now);
        if a != VerifyAction::Lookup(token_id) {
            proof {
                assert(false);
            }
            return Err(ErrorCode::UnexpectedStep);
        }
        let found = self.find_token(token_id);
        let (f, a) = f.advance(VerifyEvent::Found(found), now);
        let id = match a {
            VerifyAction::Consume(id) => id,
            VerifyAction::Fail(e) => {
                return Err(e);
            },
            _ => {
                proof {
                    assert(false);
                }
                return Err(ErrorCode::UnexpectedStep);
            },
        };
        let rows = self.consume_if_unconsumed(id);
        let (f, a) = f.advance(VerifyEvent::Consumed(rows), now);
        let uid = match a {
            VerifyAction::MarkVerified(uid) => uid,
            _ => {
                proof {
                    assert(false);
                }
                return Err(ErrorCode::UnexpectedStep);
            },
        };
        let rows = self.mark_verified(uid, now);
        let (f, a) = f.advance(VerifyEvent::Marked(rows), now);
        match a {
            VerifyAction::Commit => {},
            VerifyAction::Rollback(e) => {
                self.unconsume(id, Ghost(before));
                return Err(e);
            },
            _ => {
                proof {
                    assert(false);
                }
                return Err(ErrorCode::UnexpectedStep);
            },
        }
        let (_f, a) = f.advance(VerifyEvent::Committed, now);
        match a {
            VerifyAction::Finish(uid) => Ok(uid),
            _ => {
                proof {
                    assert(false);
                }
                Err(ErrorCode::UnexpectedStep)
            },
        }
    }
}

} // verus!
