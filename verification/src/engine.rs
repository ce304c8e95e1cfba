//! The state-changing operations of the ledger.
//!
//! Each operation validates its inputs, mutates the ledger records it was
//! handed, and returns the value [`Transfer`] the host must perform to
//! settle the call. The host executes each call atomically: if the transfer
//! cannot be performed, the whole call aborts and the record mutations are
//! rolled back, so a failing call is never observable.

use vstd::prelude::*;

use crate::accounts::{InitTokenParams, MemeAccount, TokenMetadata, UserAccount};
use crate::errors::CustomError;
use crate::identity::Identity;

verus! {

/// Token units put on sale during the pre-bonding phase. The bonding
/// transition converts the aggregate native-currency ledger into this supply
/// at a single floor-divided ratio.
pub const SUPPLY_SOLD_BEFORE_BONDING: u64 = 800_000_000_000_000_000;

/// The fixed decimal precision every issued token must declare.
pub const MINT_DECIMALS: u8 = 9;

/// The fixed total supply minted into operator custody at issuance.
pub const MINT_SUPPLY: u64 = 1_000_000_000_000_000_000;

/// Divisor of the vesting release: each release pays out the floor of a
/// participant's remaining allocation divided by this.
pub const UNLOCK_AMOUNT: u64 = 10;

/// The value movement the host must perform to settle a successful call.
/// Amounts are exact; a failing call moves nothing.
#[derive(Clone, Copy, Debug, PartialEq, Eq, Structural)]
pub enum Transfer {
    /// No value moves.
    Nothing,
    /// Mint `amount` token units into the treasury's custody.
    MintToTreasury { amount: u64 },
    /// Move `amount` native-currency units from the participant to the
    /// treasury.
    NativeToTreasury { amount: u64 },
    /// Move `amount` token units from the participant's custody to the
    /// treasury's.
    TokensToTreasury { amount: u64 },
    /// Move `amount` token units from the treasury's custody to the
    /// participant's.
    TokensToUser { amount: u64 },
}

/// The authorization gate's acceptance condition: the presented treasury
/// identity equals the configured operator identity.
pub open spec fn authorized(operator: Identity, treasury: Identity) -> bool {
    treasury == operator
}

/// The authorization gate. Succeeds precisely when the presented treasury
/// identity is the configured operator; every privileged operation applies
/// it before touching any record. No side effects.
pub fn check_treasury(operator: &Identity, treasury: &Identity) -> (r: Result<(), CustomError>)
    ensures
        r is Ok <==> authorized(*operator, *treasury),
        !authorized(*operator, *treasury) ==> r == Err::<(), CustomError>(
            CustomError::Unauthorized,
        ),
{
    if *treasury == *operator {
        Ok(())
    } else {
        Err(CustomError::Unauthorized)
    }
}

/// Validates a token issuance request and produces the descriptive record
/// the host registers with the token-unit subsystem.
///
/// Fails with `InvalidDecimals` when the declared precision differs from
/// [`MINT_DECIMALS`]; with that settled, fails with `Unauthorized` when the
/// presented treasury is not the operator. On success the metadata carries
/// the requested symbol, name and uri, and a royalty share of zero.
pub fn init_meme_token(metadata: InitTokenParams, operator: &Identity, treasury: &Identity) -> (r:
    Result<TokenMetadata, CustomError>)
    ensures
        metadata.decimals != MINT_DECIMALS ==> r == Err::<TokenMetadata, CustomError>(
            CustomError::InvalidDecimals,
        ),
        metadata.decimals == MINT_DECIMALS && !authorized(*operator, *treasury) ==> r == Err::<
            TokenMetadata,
            CustomError,
        >(CustomError::Unauthorized),
        metadata.decimals == MINT_DECIMALS && authorized(*operator, *treasury) ==> {
            &&& r is Ok
            &&& r->Ok_0.symbol@ == metadata.symbol@
            &&& r->Ok_0.name@ == metadata.name@
            &&& r->Ok_0.uri@ == metadata.uri@
            &&& r->Ok_0.seller_fee_basis_points == 0
        },
{
    if metadata.decimals != MINT_DECIMALS {
        return Err(CustomError::InvalidDecimals);
    }
    match check_treasury(operator, treasury) {
        Err(e) => {
            return Err(e);
        },
        Ok(()) => {},
    }
    Ok(
        TokenMetadata {
            symbol: metadata.symbol,
            name: metadata.name,
            uri: metadata.uri,
            seller_fee_basis_points: 0,
        },
    )
}

/// Initializes the token-level ledger record for a freshly issued token and
/// reports the supply mint the host must perform.
///
/// Fails with `Unauthorized` precisely when the presented treasury is not
/// the operator. On success the record starts with an empty ledger in the
/// pre-bonding phase — no venue identifier, bonding timestamp still at its
/// negative sentinel — and exactly [`MINT_SUPPLY`] token units are minted
/// into treasury custody.
pub fn mint_meme_token(signer: Identity, mint: Identity, now: i64, operator: &Identity, treasury:
    &Identity) -> (r: Result<(MemeAccount, Transfer), CustomError>)
    requires
        now >= 0,
    ensures
        !authorized(*operator, *treasury) <==> r == Err::<(MemeAccount, Transfer), CustomError>(
            CustomError::Unauthorized,
        ),
        r is Ok <==> authorized(*operator, *treasury),
        r is Ok ==> r->Ok_0.0 == (MemeAccount {
            dev: signer,
            mint: mint,
            locked_amount: 0,
            creation_time: now,
            bonded_time: -1i64,
            pool_id: None,
        }),
        r is Ok ==> r->Ok_0.0.wf() && !r->Ok_0.0.has_bonded(),
        r is Ok ==> r->Ok_0.1 == (Transfer::MintToTreasury { amount: MINT_SUPPLY }),
{
    match check_treasury(operator, treasury) {
        Err(e) => {
            return Err(e);
        },
        Ok(()) => {},
    }
    let meme_account = MemeAccount {
        dev: signer,
        mint: mint,
        locked_amount: 0,
        creation_time: now,
        bonded_time: -1,
        pool_id: None,
    };
    Ok((meme_account, Transfer::MintToTreasury { amount: MINT_SUPPLY }))
}

/// Whether a contribution of `amount` fits both ledger levels without
/// leaving the 64-bit range.
pub open spec fn contribution_fits(meme: MemeAccount, user: UserAccount, amount: u64) -> bool {
    &&& user.locked_amount + amount <= u64::MAX
    &&& meme.locked_amount + amount <= u64::MAX
}

/// A pre-bonding contribution: the participant commits `amount` units of
/// native currency towards the token's sale.
///
/// Rejected with `Unauthorized` when the presented treasury is not the
/// operator; with `InvalidAmount` when `amount` is zero; with `HasBonded`
/// when the token has already bonded; with `Overflow` when either ledger
/// level would leave the 64-bit range. A failing call mutates nothing.
/// On success both ledger levels grow by exactly `amount`, the participant
/// record is stamped with the participant and token identities, and exactly
/// `amount` native-currency units move from the participant to the treasury.
pub fn buy(meme: &mut MemeAccount, user: &mut UserAccount, signer: Identity, mint: Identity,
    amount: u64, operator: &Identity, treasury: &Identity) -> (r: Result<Transfer, CustomError>)
    requires
        old(meme).wf(),
        mint == old(meme).mint,
    ensures
        final(meme).wf(),
        final(meme).mint == old(meme).mint,
        r is Err ==> *final(meme) == *old(meme) && *final(user) == *old(user),
        !authorized(*operator, *treasury) ==> r == Err::<Transfer, CustomError>(
            CustomError::Unauthorized,
        ),
        authorized(*operator, *treasury) && amount == 0 ==> r == Err::<Transfer, CustomError>(
            CustomError::InvalidAmount,
        ),
        authorized(*operator, *treasury) && amount != 0 && old(meme).has_bonded() ==> r == Err::<
            Transfer,
            CustomError,
        >(CustomError::HasBonded),
        authorized(*operator, *treasury) && amount != 0 && !old(meme).has_bonded()
            && !contribution_fits(*old(meme), *old(user), amount) ==> r == Err::<
            Transfer,
            CustomError,
        >(CustomError::Overflow),
        authorized(*operator, *treasury) && amount != 0 && !old(meme).has_bonded()
            && contribution_fits(*old(meme), *old(user), amount) ==> {
            &&& r == Ok::<Transfer, CustomError>(Transfer::NativeToTreasury { amount })
            &&& final(user).user == signer
            &&& final(user).mint == mint
            &&& final(user).locked_amount == old(user).locked_amount + amount
            &&& final(meme).locked_amount == old(meme).locked_amount + amount
            &&& final(meme).dev == old(meme).dev
            &&& final(meme).creation_time == old(meme).creation_time
            &&& final(meme).bonded_time == old(meme).bonded_time
            &&& final(meme).pool_id == old(meme).pool_id
        },
{
    match check_treasury(operator, treasury) {
        Err(e) => {
            return Err(e);
        },
        Ok(()) => {},
    }
    if amount == 0 {
        return Err(CustomError::InvalidAmount);
    }
    if meme.bonded_time >= 0 {
        return Err(CustomError::HasBonded);
    }
    let new_user_amount = match user.locked_amount.checked_add(amount) {
        Some(v) => v,
        None => {
            return Err(CustomError::Overflow);
        },
    };
    let new_meme_amount = match meme.locked_amount.checked_add(amount) {
        Some(v) => v,
        None => {
            return Err(CustomError::Overflow);
        },
    };
    user.user = signer;
    user.mint = mint;
    user.locked_amount = new_user_amount;
    meme.locked_amount = new_meme_amount;
    Ok(Transfer::NativeToTreasury { amount })
}

/// A post-bonding deposit: the participant commits `amount` token units to
/// the vesting ledger.
///
/// Rejected with `Unauthorized` when the presented treasury is not the
/// operator; with `InvalidAmount` when `amount` is zero; with `NotBonded`
/// when the token has not bonded yet; with `Overflow` when either ledger
/// level would leave the 64-bit range. A failing call mutates nothing.
/// On success both ledger levels grow by exactly `amount`, the participant
/// record is stamped with the participant and token identities, and exactly
/// `amount` token units move from the participant's custody to the
/// treasury's.
pub fn lock(meme: &mut MemeAccount, user: &mut UserAccount, signer: Identity, mint: Identity,
    amount: u64, operator: &Identity, treasury: &Identity) -> (r: Result<Transfer, CustomError>)
    requires
        old(meme).wf(),
        mint == old(meme).mint,
    ensures
        final(meme).wf(),
        final(meme).mint == old(meme).mint,
        r is Err ==> *final(meme) == *old(meme) && *final(user) == *old(user),
        !authorized(*operator, *treasury) ==> r == Err::<Transfer, CustomError>(
            CustomError::Unauthorized,
        ),
        authorized(*operator, *treasury) && amount == 0 ==> r == Err::<Transfer, CustomError>(
            CustomError::InvalidAmount,
        ),
        authorized(*operator, *treasury) && amount != 0 && !old(meme).has_bonded() ==> r == Err::<
            Transfer,
            CustomError,
        >(CustomError::NotBonded),
        authorized(*operator, *treasury) && amount != 0 && old(meme).has_bonded()
            && !contribution_fits(*old(meme), *old(user), amount) ==> r == Err::<
            Transfer,
            CustomError,
        >(CustomError::Overflow),
        authorized(*operator, *treasury) && amount != 0 && old(meme).has_bonded()
            && contribution_fits(*old(meme), *old(user), amount) ==> {
            &&& r == Ok::<Transfer, CustomError>(Transfer::TokensToTreasury { amount })
            &&& final(user).user == signer
            &&& final(user).mint == mint
            &&& final(user).locked_amount == old(user).locked_amount + amount
            &&& final(meme).locked_amount == old(meme).locked_amount + amount
            &&& final(meme).dev == old(meme).dev
            &&& final(meme).creation_time == old(meme).creation_time
            &&& final(meme).bonded_time == old(meme).bonded_time
            &&& final(meme).pool_id == old(meme).pool_id
        },
{
    match check_treasury(operator, treasury) {
        Err(e) => {
            return Err(e);
        },
        Ok(()) => {},
    }
    if amount == 0 {
        return Err(CustomError::InvalidAmount);
    }
    if meme.bonded_time < 0 {
        return Err(CustomError::NotBonded);
    }
    let new_user_amount = match user.locked_amount.checked_add(amount) {
        Some(v) => v,
        None => {
            return Err(CustomError::Overflow);
        },
    };
    let new_meme_amount = match meme.locked_amount.checked_add(amount) {
        Some(v) => v,
        None => {
            return Err(CustomError::Overflow);
        },
    };
    user.user = signer;
    user.mint = mint;
    user.locked_amount = new_user_amount;
    meme.locked_amount = new_meme_amount;
    Ok(Transfer::TokensToTreasury { amount })
}

/// The conversion ratio of the bonding transition: the fixed pre-bonding
/// sale supply floor-divided by the aggregate committed amount. It is
/// derived once from the aggregate ledger and applied uniformly, so each
/// participant's proportional share of the aggregate survives the unit
/// conversion exactly.
pub open spec fn bonding_ratio(committed: u64) -> int
    recommends
        committed > 0,
{
    SUPPLY_SOLD_BEFORE_BONDING as int / committed as int
}

/// How one participant record comes out of the bonding transition: a record
/// of the token being bonded has its committed amount multiplied by the
/// conversion ratio, any other record passes through untouched.
pub open spec fn rescaled_record(pre: UserAccount, post: UserAccount, mint: Identity, ratio: int) -> bool {
    if pre.mint == mint {
        &&& post.user == pre.user
        &&& post.mint == pre.mint
        &&& post.locked_amount == pre.locked_amount * ratio
    } else {
        post == pre
    }
}

/// Whether every participant record of the token can be rescaled by `ratio`
/// without leaving the 64-bit range.
pub open spec fn rescale_fits(users: Seq<UserAccount>, mint: Identity, ratio: int) -> bool {
    forall|j: int|
        0 <= j < users.len() && (#[trigger] users[j]).mint == mint ==> users[j].locked_amount
            * ratio <= u64::MAX
}

/// The bonding transition: the irreversible phase change from the
/// native-currency sale to the token-unit vesting ledger. It fires exactly
/// once per token.
///
/// Rejected with `Unauthorized` when the presented treasury is not the
/// operator; with `HasBonded` when the token has bonded already — the
/// bonding timestamp is the sole gate against double application, which
/// would corrupt every amount; with `InvalidAmount` when the aggregate
/// ledger is empty, since the conversion ratio would divide by zero; with
/// `Overflow` when some supplied record of this token cannot be rescaled
/// within the 64-bit range. The batch is all-or-nothing: a failing call
/// mutates nothing.
///
/// On success the conversion ratio is the sale supply floor-divided by the
/// aggregate committed amount; the aggregate is rewritten to exactly its old
/// value times the ratio (which never exceeds the sale supply, so it cannot
/// overflow); every supplied record of this token is rewritten to exactly
/// its old value times the same ratio; records of other tokens are skipped
/// untouched; and the record enters the bonded phase, stamped with the
/// transition time and the venue's pool identifier.
pub fn bond_to_raydium(meme: &mut MemeAccount, users: &mut Vec<UserAccount>, pool_id: Identity,
    now: i64, operator: &Identity, treasury: &Identity) -> (r: Result<(), CustomError>)
    requires
        old(meme).wf(),
        now >= 0,
    ensures
        final(meme).wf(),
        final(meme).mint == old(meme).mint,
        r is Err ==> *final(meme) == *old(meme) && final(users)@ == old(users)@,
        !authorized(*operator, *treasury) ==> r == Err::<(), CustomError>(
            CustomError::Unauthorized,
        ),
        authorized(*operator, *treasury) && old(meme).has_bonded() ==> r == Err::<(), CustomError>(
            CustomError::HasBonded,
        ),
        authorized(*operator, *treasury) && !old(meme).has_bonded() && old(meme).locked_amount == 0
            ==> r == Err::<(), CustomError>(CustomError::InvalidAmount),
        authorized(*operator, *treasury) && !old(meme).has_bonded() && old(meme).locked_amount != 0
            && !rescale_fits(old(users)@, old(meme).mint, bonding_ratio(old(meme).locked_amount))
            ==> r == Err::<(), CustomError>(CustomError::Overflow),
        authorized(*operator, *treasury) && !old(meme).has_bonded() && old(meme).locked_amount != 0
            && rescale_fits(old(users)@, old(meme).mint, bonding_ratio(old(meme).locked_amount))
            ==> {
            &&& r == Ok::<(), CustomError>(())
            &&& final(meme).locked_amount == old(meme).locked_amount * bonding_ratio(
                old(meme).locked_amount,
            )
            &&& final(meme).bonded_time == now
            &&& final(meme).pool_id == Some(pool_id)
            &&& final(meme).dev == old(meme).dev
            &&& final(meme).creation_time == old(meme).creation_time
            &&& final(users)@.len() == old(users)@.len()
            &&& forall|j: int|
                0 <= j < old(users)@.len() ==> rescaled_record(
                    old(users)@[j],
                    #[trigger] final(users)@[j],
                    old(meme).mint,
                    bonding_ratio(old(meme).locked_amount),
                )
        },
{
    match check_treasury(operator, treasury) {
        Err(e) => {
            return Err(e);
        },
        Ok(()) => {},
    }
    if meme.bonded_time >= 0 {
        return Err(CustomError::HasBonded);
    }
    if meme.locked_amount == 0 {
        return Err(CustomError::InvalidAmount);
    }
    let tokens_per_sol: u64 = SUPPLY_SOLD_BEFORE_BONDING / meme.locked_amount;

    // First pass, read-only: reject the whole batch before anything is
    // written if some record of this token cannot be rescaled.
    let mut i: usize = 0;
    while i < users.len()
        invariant
            i <= users@.len(),
            users@ == old(users)@,
            *meme == *old(meme),
            old(meme).wf(),
            authorized(*operator, *treasury),
            !old(meme).has_bonded(),
            old(meme).locked_amount != 0,
            tokens_per_sol as int == bonding_ratio(old(meme).locked_amount),
            forall|j: int|
                0 <= j < i && (#[trigger] users@[j]).mint == old(meme).mint ==> users@[j].locked_amount
                    * tokens_per_sol <= u64::MAX,
        decreases users@.len() - i,
    {
        if users[i].mint == meme.mint {
            if users[i].locked_amount.checked_mul(tokens_per_sol).is_none() {
                proof {
                    assert(users@[i as int].mint == old(meme).mint && users@[i as int].locked_amount
                        * tokens_per_sol > u64::MAX);
                }
                return Err(CustomError::Overflow);
            }
        }
        i += 1;
    }

    // The aggregate rescale cannot overflow: the committed amount times the
    // floor-divided ratio never exceeds the sale supply itself.
    proof {
        vstd::arithmetic::div_mod::lemma_fundamental_div_mod(
            SUPPLY_SOLD_BEFORE_BONDING as int,
            meme.locked_amount as int,
        );
        vstd::arithmetic::div_mod::lemma_mod_bound(
            SUPPLY_SOLD_BEFORE_BONDING as int,
            meme.locked_amount as int,
        );
    }
    let new_meme_amount: u64 = meme.locked_amount * tokens_per_sol;

    // Second pass: rescale every record of this token by the same ratio.
    let mut i: usize = 0;
    while i < users.len()
        invariant
            i <= users@.len(),
            users@.len() == old(users)@.len(),
            *meme == *old(meme),
            old(meme).locked_amount != 0,
            tokens_per_sol as int == bonding_ratio(old(meme).locked_amount),
            rescale_fits(old(users)@, old(meme).mint, tokens_per_sol as int),
            forall|j: int|
                0 <= j < i ==> rescaled_record(
                    old(users)@[j],
                    #[trigger] users@[j],
                    old(meme).mint,
                    tokens_per_sol as int,
                ),
            forall|j: int| i <= j < users@.len() ==> users@[j] == old(users)@[j],
        decreases users@.len() - i,
    {
        let u = users[i];
        proof {
            assert(users@[i as int] == old(users)@[i as int]);
        }
        if u.mint == meme.mint {
            let prod: u64 = u.locked_amount * tokens_per_sol;
            users[i] = UserAccount { user: u.user, mint: u.mint, locked_amount: prod };
        }
        i += 1;
    }

    meme.locked_amount = new_meme_amount;
    meme.bonded_time = now;
    meme.pool_id = Some(pool_id);
    Ok(())
}

/// The portion a vesting release pays out: the floor of the participant's
/// remaining allocation divided by [`UNLOCK_AMOUNT`].
pub open spec fn release_deduction(p: u64) -> int {
    p as int / UNLOCK_AMOUNT as int
}

/// A vesting release: pays a portion of the participant's post-bonding
/// allocation back out of treasury custody.
///
/// Rejected with `Unauthorized` when the presented treasury is not the
/// operator; with `NotBonded` when the token has not bonded yet; with
/// `InvalidAmount` when either ledger level is already empty. The payout is
/// the floor of a tenth of the participant's allocation. When that floor is
/// zero — the allocation is below the fraction's integer resolution — the
/// participant's remainder is swept to zero and nothing is transferred; this
/// is deliberate dust handling, not an error. Otherwise both ledger levels
/// shrink by exactly the payout and that many token units move from the
/// treasury's custody to the participant's; a token-level ledger smaller
/// than the payout is rejected defensively with `Underflow`. A failing call
/// mutates nothing.
pub fn unlock_meme_phase(meme: &mut MemeAccount, user: &mut UserAccount, operator: &Identity,
    treasury: &Identity) -> (r: Result<Transfer, CustomError>)
    requires
        old(meme).wf(),
    ensures
        final(meme).wf(),
        final(meme).mint == old(meme).mint,
        r is Err ==> *final(meme) == *old(meme) && *final(user) == *old(user),
        !authorized(*operator, *treasury) ==> r == Err::<Transfer, CustomError>(
            CustomError::Unauthorized,
        ),
        authorized(*operator, *treasury) && !old(meme).has_bonded() ==> r == Err::<
            Transfer,
            CustomError,
        >(CustomError::NotBonded),
        authorized(*operator, *treasury) && old(meme).has_bonded() && (old(meme).locked_amount == 0
            || old(user).locked_amount == 0) ==> r == Err::<Transfer, CustomError>(
            CustomError::InvalidAmount,
        ),
        authorized(*operator, *treasury) && old(meme).has_bonded() && old(meme).locked_amount != 0
            && old(user).locked_amount != 0 && release_deduction(old(user).locked_amount) == 0 ==> {
            &&& r == Ok::<Transfer, CustomError>(Transfer::Nothing)
            &&& final(user).locked_amount == 0
            &&& final(user).user == old(user).user
            &&& final(user).mint == old(user).mint
            &&& *final(meme) == *old(meme)
        },
        authorized(*operator, *treasury) && old(meme).has_bonded() && old(meme).locked_amount != 0
            && old(user).locked_amount != 0 && release_deduction(old(user).locked_amount) > 0
            && old(meme).locked_amount < release_deduction(old(user).locked_amount) ==> r == Err::<
            Transfer,
            CustomError,
        >(CustomError::Underflow),
        authorized(*operator, *treasury) && old(meme).has_bonded() && old(meme).locked_amount != 0
            && old(user).locked_amount != 0 && release_deduction(old(user).locked_amount) > 0
            && old(meme).locked_amount >= release_deduction(old(user).locked_amount) ==> {
            &&& r == Ok::<Transfer, CustomError>(
                Transfer::TokensToUser {
                    amount: (release_deduction(old(user).locked_amount)) as u64,
                },
            )
            &&& final(user).locked_amount == old(user).locked_amount - release_deduction(
                old(user).locked_amount,
            )
            &&& final(user).user == old(user).user
            &&& final(user).mint == old(user).mint
            &&& final(meme).locked_amount == old(meme).locked_amount - release_deduction(
                old(user).locked_amount,
            )
            &&& final(meme).dev == old(meme).dev
            &&& final(meme).creation_time == old(meme).creation_time
            &&& final(meme).bonded_time == old(meme).bonded_time
            &&& final(meme).pool_id == old(meme).pool_id
        },
{
    match check_treasury(operator, treasury) {
        Err(e) => {
            return Err(e);
        },
        Ok(()) => {},
    }
    if meme.bonded_time < 0 {
        return Err(CustomError::NotBonded);
    }
    if meme.locked_amount == 0 {
        return Err(CustomError::InvalidAmount);
    }
    if user.locked_amount == 0 {
        return Err(CustomError::InvalidAmount);
    }
    let deduction = user.locked_amount / UNLOCK_AMOUNT;
    if deduction == 0 {
        user.locked_amount = 0;
        return Ok(Transfer::Nothing);
    }
    let new_meme_amount = match meme.locked_amount.checked_sub(deduction) {
        Some(v) => v,
        None => {
            return Err(CustomError::Underflow);
        },
    };
    proof {
        vstd::arithmetic::div_mod::lemma_div_nonincreasing(
            user.locked_amount as int,
            UNLOCK_AMOUNT as int,
        );
    }
    user.locked_amount = user.locked_amount - deduction;
    meme.locked_amount = new_meme_amount;
    Ok(Transfer::TokensToUser { amount: deduction })
}

} // verus!
