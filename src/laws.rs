//! Properties that relate several calls of the store's protocols.

use vstd::prelude::*;

use crate::errors::ErrorCode;
use crate::model::{User, UserToken};
use crate::store::{consume_in, mark_in, token_with_id, tokens_owned, tokens_unique, verify_outcome};

verus! {

/// The answers of `n` redemptions of token `id` at time `now`, one after
/// the other, each seeing the rows the previous one left, as
/// `MemStore::verify_token` leaves them.
pub open spec fn redeem_repeatedly(
    users: Seq<User>,
    tokens: Seq<UserToken>,
    id: u128,
    now: i64,
    n: nat,
) -> Seq<Result<u128, ErrorCode>>
    decreases n,
{
    if n == 0 {
        Seq::empty()
    } else {
        let r = verify_outcome(users, tokens, id, now);
        match r {
            Ok(uid) => seq![r] + redeem_repeatedly(
                mark_in(users, uid, now),
                consume_in(tokens, id),
                id,
                now,
                (n - 1) as nat,
            ),
            Err(_) => seq![r] + redeem_repeatedly(users, tokens, id, now, (n - 1) as nat),
        }
    }
}

proof fn lemma_consumed_after_consume(tokens: Seq<UserToken>, id: u128)
    requires
        tokens_unique(tokens),
        token_with_id(tokens, id) is Some,
    ensures
        tokens_unique(consume_in(tokens, id)),
        token_with_id(consume_in(tokens, id), id) matches Some(t) && t.user_token_used,
{
    let c = consume_in(tokens, id);
    let k = choose|i: int| 0 <= i < tokens.len() && (#[trigger] tokens[i]).user_token_id == id;
    assert(c[k].user_token_id == id);
    let j = choose|i: int| 0 <= i < c.len() && (#[trigger] c[i]).user_token_id == id;
    assert(c[j].user_token_id == id);
    assert(c[j].user_token_used);
}

proof fn lemma_used_stays_used(users: Seq<User>, tokens: Seq<UserToken>, id: u128, now: i64, n: nat)
    requires
        token_with_id(tokens, id) matches Some(t) && t.user_token_used,
    ensures
        redeem_repeatedly(users, tokens, id, now, n).len() == n,
        forall|i: int|
            0 <= i < n ==> #[trigger] redeem_repeatedly(users, tokens, id, now, n)[i] == Err::<
                u128,
                ErrorCode,
            >(ErrorCode::UserTokenUsed),
    decreases n,
{
    if n > 0 {
        lemma_used_stays_used(users, tokens, id, now, (n - 1) as nat);
        let rest = redeem_repeatedly(users, tokens, id, now, (n - 1) as nat);
        let all = redeem_repeatedly(users, tokens, id, now, n);
        assert(all == seq![Err::<u128, ErrorCode>(ErrorCode::UserTokenUsed)] + rest);
        assert forall|i: int| 0 <= i < n implies #[trigger] all[i] == Err::<u128, ErrorCode>(
            ErrorCode::UserTokenUsed,
        ) by {
            if i > 0 {
                assert(all[i] == rest[i - 1]);
            }
        }
    }
}

/// Exactly-once consumption: of `n` redemptions of one unconsumed,
/// unexpired token, serialized by the store, the first succeeds and every
/// other reports the token as used.
pub proof fn lemma_single_redemption(
    users: Seq<User>,
    tokens: Seq<UserToken>,
    id: u128,
    now: i64,
    n: nat,
)
    requires
        n >= 1,
        tokens_unique(tokens),
        tokens_owned(users, tokens),
        token_with_id(tokens, id) matches Some(t) && !t.user_token_used && !t.expired_at(now),
    ensures
        redeem_repeatedly(users, tokens, id, now, n).len() == n,
        redeem_repeatedly(users, tokens, id, now, n)[0] is Ok,
        forall|i: int|
            1 <= i < n ==> #[trigger] redeem_repeatedly(users, tokens, id, now, n)[i] == Err::<
                u128,
                ErrorCode,
            >(ErrorCode::UserTokenUsed),
{
    let k = choose|i: int| 0 <= i < tokens.len() && (#[trigger] tokens[i]).user_token_id == id;
    assert(tokens[k].user_token_id == id);
    let r = verify_outcome(users, tokens, id, now);
    let uid = r->Ok_0;
    lemma_consumed_after_consume(tokens, id);
    let u2 = mark_in(users, uid, now);
    let t2 = consume_in(tokens, id);
    lemma_used_stays_used(u2, t2, id, now, (n - 1) as nat);
    let rest = redeem_repeatedly(u2, t2, id, now, (n - 1) as nat);
    let all = redeem_repeatedly(users, tokens, id, now, n);
    assert(all == seq![r] + rest);
    assert forall|i: int| 1 <= i < n implies #[trigger] all[i] == Err::<u128, ErrorCode>(
        ErrorCode::UserTokenUsed,
    ) by {
        assert(all[i] == rest[i - 1]);
    }
}

/// Check order on redemption: an expired token is rejected as expired
/// while unconsumed, and as used once consumed.
pub proof fn lemma_used_checked_before_expiry(
    users: Seq<User>,
    tokens: Seq<UserToken>,
    id: u128,
    now: i64,
)
    requires
        token_with_id(tokens, id) matches Some(t) && t.expired_at(now),
    ensures
        token_with_id(tokens, id) matches Some(t) && (t.user_token_used ==> verify_outcome(
            users,
            tokens,
            id,
            now,
        ) == Err::<u128, ErrorCode>(ErrorCode::UserTokenUsed)) && (!t.user_token_used
            ==> verify_outcome(users, tokens, id, now) == Err::<u128, ErrorCode>(
            ErrorCode::UserTokenExpired,
        )),
{
}

} // verus!
