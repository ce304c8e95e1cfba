//! Conservation of committed value across the ledger.
//!
//! The token-level ledger is the sum of the participant-level ledgers. The
//! proofs here show that every way the ledgers change — issuance, a
//! contribution in either phase, and the bonding transition's bulk rescale —
//! keeps that equation, so it holds after any sequence of calls.

use vstd::prelude::*;

use crate::accounts::{MemeAccount, UserAccount};
use crate::engine::rescaled_record;
use crate::identity::Identity;

verus! {

/// What one participant record contributes to a token's aggregate: its
/// committed amount when the record belongs to the token, nothing otherwise.
pub open spec fn locked_contribution(u: UserAccount, mint: Identity) -> int {
    if u.mint == mint {
        u.locked_amount as int
    } else {
        0
    }
}

/// The committed value of all participant records that belong to the token
/// identified by `mint`.
pub open spec fn sum_locked(users: Seq<UserAccount>, mint: Identity) -> int
    decreases users.len(),
{
    if users.len() == 0 {
        0
    } else {
        sum_locked(users.drop_last(), mint) + locked_contribution(users.last(), mint)
    }
}

/// Conservation: the token-level ledger equals the sum of the committed
/// amounts of all its participant records.
pub open spec fn conserved(meme: MemeAccount, users: Seq<UserAccount>) -> bool {
    sum_locked(users, meme.mint) == meme.locked_amount as int
}

/// Replacing one record changes the sum by the difference of the two
/// records' contributions.
proof fn lemma_sum_locked_update(users: Seq<UserAccount>, k: int, u: UserAccount, mint: Identity)
    requires
        0 <= k < users.len(),
    ensures
        sum_locked(users.update(k, u), mint) == sum_locked(users, mint) - locked_contribution(
            users[k],
            mint,
        ) + locked_contribution(u, mint),
    decreases users.len(),
{
    let updated = users.update(k, u);
    if k == users.len() - 1 {
        assert(updated.drop_last() =~= users.drop_last());
        assert(updated.last() == u);
    } else {
        assert(updated.drop_last() =~= users.drop_last().update(k, u));
        lemma_sum_locked_update(users.drop_last(), k, u, mint);
        assert(updated.last() == users.last());
        assert(users.drop_last()[k] == users[k]);
    }
}

/// Appending a record adds exactly that record's contribution to the sum.
proof fn lemma_sum_locked_push(users: Seq<UserAccount>, u: UserAccount, mint: Identity)
    ensures
        sum_locked(users.push(u), mint) == sum_locked(users, mint) + locked_contribution(u, mint),
{
    assert(users.push(u).drop_last() =~= users);
    assert(users.push(u).last() == u);
}

/// Conservation holds at issuance: a freshly created token ledger is empty,
/// and so is its participant set.
pub proof fn lemma_conservation_at_creation(meme: MemeAccount)
    requires
        meme.locked_amount == 0,
    ensures
        conserved(meme, Seq::<UserAccount>::empty()),
{
}

/// A successful contribution — a pre-bonding purchase or a post-bonding
/// deposit — by a participant with an existing record preserves
/// conservation: the aggregate and the participant's record grow by the same
/// amount.
pub proof fn lemma_contribution_preserves_conservation(meme: MemeAccount, meme_post: MemeAccount,
    users: Seq<UserAccount>, k: int, user_post: UserAccount, amount: u64)
    requires
        conserved(meme, users),
        0 <= k < users.len(),
        users[k].mint == meme.mint,
        user_post.mint == meme.mint,
        user_post.locked_amount == users[k].locked_amount + amount,
        meme_post.mint == meme.mint,
        meme_post.locked_amount == meme.locked_amount + amount,
    ensures
        conserved(meme_post, users.update(k, user_post)),
{
    lemma_sum_locked_update(users, k, user_post, meme.mint);
}

/// A successful first contribution — one that creates the participant's
/// record — preserves conservation: the fresh record carries exactly the
/// contributed amount, and the aggregate grows by the same amount.
pub proof fn lemma_first_contribution_preserves_conservation(meme: MemeAccount, meme_post:
    MemeAccount, users: Seq<UserAccount>, user_post: UserAccount, amount: u64)
    requires
        conserved(meme, users),
        user_post.mint == meme.mint,
        user_post.locked_amount == amount,
        meme_post.mint == meme.mint,
        meme_post.locked_amount == meme.locked_amount + amount,
    ensures
        conserved(meme_post, users.push(user_post)),
{
    lemma_sum_locked_push(users, user_post, meme.mint);
}

/// Rescaling every record of a token by one ratio multiplies their sum by
/// that ratio, with no truncation drift: the single floor division happens
/// once in the ratio, not per record.
pub proof fn lemma_rescale_preserves_sum(pre: Seq<UserAccount>, post: Seq<UserAccount>, mint:
    Identity, ratio: int)
    requires
        post.len() == pre.len(),
        forall|j: int|
            0 <= j < pre.len() ==> rescaled_record(pre[j], #[trigger] post[j], mint, ratio),
    ensures
        sum_locked(post, mint) == sum_locked(pre, mint) * ratio,
    decreases pre.len(),
{
    if pre.len() == 0 {
        assert(sum_locked(pre, mint) == 0);
        vstd::arithmetic::mul::lemma_mul_basics_1(ratio);
    } else {
        assert forall|j: int| 0 <= j < pre.drop_last().len() implies rescaled_record(
            pre.drop_last()[j],
            #[trigger] post.drop_last()[j],
            mint,
            ratio,
        ) by {
            assert(pre.drop_last()[j] == pre[j]);
            assert(post.drop_last()[j] == post[j]);
            assert(rescaled_record(pre[j], post[j], mint, ratio));
        }
        lemma_rescale_preserves_sum(pre.drop_last(), post.drop_last(), mint, ratio);
        let a = sum_locked(pre.drop_last(), mint);
        let b = locked_contribution(pre.last(), mint);
        assert(rescaled_record(pre[pre.len() - 1], post[pre.len() - 1], mint, ratio));
        assert(post.last() == post[pre.len() - 1]);
        assert(pre.last() == pre[pre.len() - 1]);
        if pre.last().mint == mint {
            assert(locked_contribution(post.last(), mint) == b * ratio);
        } else {
            assert(locked_contribution(post.last(), mint) == 0);
            vstd::arithmetic::mul::lemma_mul_basics_1(ratio);
        }
        vstd::arithmetic::mul::lemma_mul_is_distributive_add_other_way(ratio, a, b);
    }
}

/// Conservation survives the bonding transition exactly: when the aggregate
/// equals the participants' sum before the transition and both sides are
/// rewritten by the same ratio, the aggregate equals the participants' sum
/// afterward as well — each participant's proportional share is preserved.
pub proof fn lemma_transition_preserves_conservation(meme: MemeAccount, meme_post: MemeAccount,
    users: Seq<UserAccount>, users_post: Seq<UserAccount>, ratio: int)
    requires
        conserved(meme, users),
        meme_post.mint == meme.mint,
        meme_post.locked_amount == meme.locked_amount * ratio,
        users_post.len() == users.len(),
        forall|j: int|
            0 <= j < users.len() ==> rescaled_record(
                users[j],
                #[trigger] users_post[j],
                meme.mint,
                ratio,
            ),
    ensures
        conserved(meme_post, users_post),
{
    lemma_rescale_preserves_sum(users, users_post, meme.mint, ratio);
}

} // verus!
