use meme::accounts::{InitTokenParams, MemeAccount, UserAccount};
use meme::engine::{
    bond_to_raydium, buy, check_treasury, init_meme_token, lock, mint_meme_token,
    unlock_meme_phase, Transfer, MINT_SUPPLY, SUPPLY_SOLD_BEFORE_BONDING,
};
use meme::errors::CustomError;
use meme::identity::Identity;

fn ident(n: u64) -> Identity {
    Identity {
        w0: n,
        w1: n.wrapping_mul(31),
        w2: n.wrapping_add(17),
        w3: n ^ 0x5a5a,
    }
}

fn operator() -> Identity {
    ident(1)
}

fn mint_id() -> Identity {
    ident(2)
}

fn fresh_meme(locked: u64, bonded: bool) -> MemeAccount {
    MemeAccount {
        dev: ident(3),
        mint: mint_id(),
        locked_amount: locked,
        creation_time: 1_700_000_000,
        bonded_time: if bonded { 1_700_000_500 } else { -1 },
        pool_id: if bonded { Some(ident(4)) } else { None },
    }
}

fn fresh_user(locked: u64) -> UserAccount {
    UserAccount {
        user: ident(5),
        mint: mint_id(),
        locked_amount: locked,
    }
}

fn params(decimals: u8) -> InitTokenParams {
    InitTokenParams {
        symbol: String::from("MEME"),
        name: String::from("A meme token"),
        uri: String::from("https://example.invalid/meme.json"),
        decimals,
    }
}

#[test]
fn treasury_gate_accepts_only_the_operator() {
    assert_eq!(check_treasury(&operator(), &operator()), Ok(()));
    assert_eq!(
        check_treasury(&operator(), &ident(9)),
        Err(CustomError::Unauthorized)
    );
}

#[test]
fn init_with_nine_decimals_succeeds() {
    let meta = init_meme_token(params(9), &operator(), &operator()).unwrap();
    assert_eq!(meta.symbol, "MEME");
    assert_eq!(meta.name, "A meme token");
    assert_eq!(meta.uri, "https://example.invalid/meme.json");
    assert_eq!(meta.seller_fee_basis_points, 0);
}

#[test]
fn init_with_six_decimals_fails_invalid_decimals() {
    let r = init_meme_token(params(6), &operator(), &operator());
    assert_eq!(r.unwrap_err(), CustomError::InvalidDecimals);
}

#[test]
fn init_checks_decimals_before_authorization() {
    let r = init_meme_token(params(6), &operator(), &ident(9));
    assert_eq!(r.unwrap_err(), CustomError::InvalidDecimals);
    let r = init_meme_token(params(9), &operator(), &ident(9));
    assert_eq!(r.unwrap_err(), CustomError::Unauthorized);
}

#[test]
fn mint_initializes_an_empty_pre_bonding_ledger() {
    let (meme, transfer) =
        mint_meme_token(ident(3), mint_id(), 1_700_000_000, &operator(), &operator()).unwrap();
    assert_eq!(meme.dev, ident(3));
    assert_eq!(meme.mint, mint_id());
    assert_eq!(meme.locked_amount, 0);
    assert_eq!(meme.creation_time, 1_700_000_000);
    assert_eq!(meme.bonded_time, -1);
    assert!(meme.pool_id.is_none());
    assert_eq!(transfer, Transfer::MintToTreasury { amount: MINT_SUPPLY });
}

#[test]
fn mint_rejects_a_non_operator_treasury() {
    let r = mint_meme_token(ident(3), mint_id(), 1_700_000_000, &operator(), &ident(9));
    assert_eq!(r.unwrap_err(), CustomError::Unauthorized);
}

#[test]
fn buy_moves_exactly_the_contributed_amount() {
    let mut meme = fresh_meme(40, false);
    let mut user = fresh_user(7);
    let r = buy(
        &mut meme,
        &mut user,
        ident(5),
        mint_id(),
        50,
        &operator(),
        &operator(),
    );
    assert_eq!(r, Ok(Transfer::NativeToTreasury { amount: 50 }));
    assert_eq!(meme.locked_amount, 90);
    assert_eq!(user.locked_amount, 57);
    assert_eq!(user.user, ident(5));
    assert_eq!(user.mint, mint_id());
    assert_eq!(meme.bonded_time, -1);
}

#[test]
fn buy_of_zero_fails_invalid_amount_and_changes_nothing() {
    let mut meme = fresh_meme(40, false);
    let mut user = fresh_user(7);
    let r = buy(
        &mut meme,
        &mut user,
        ident(5),
        mint_id(),
        0,
        &operator(),
        &operator(),
    );
    assert_eq!(r, Err(CustomError::InvalidAmount));
    assert_eq!(meme.locked_amount, 40);
    assert_eq!(user.locked_amount, 7);
}

#[test]
fn buy_after_bonding_fails_has_bonded() {
    let mut meme = fresh_meme(40, true);
    let mut user = fresh_user(7);
    let r = buy(
        &mut meme,
        &mut user,
        ident(5),
        mint_id(),
        50,
        &operator(),
        &operator(),
    );
    assert_eq!(r, Err(CustomError::HasBonded));
    assert_eq!(meme.locked_amount, 40);
    assert_eq!(user.locked_amount, 7);
}

#[test]
fn buy_overflow_is_rejected_and_changes_nothing() {
    let mut meme = fresh_meme(40, false);
    let mut user = fresh_user(u64::MAX - 3);
    let r = buy(
        &mut meme,
        &mut user,
        ident(5),
        mint_id(),
        10,
        &operator(),
        &operator(),
    );
    assert_eq!(r, Err(CustomError::Overflow));
    assert_eq!(meme.locked_amount, 40);
    assert_eq!(user.locked_amount, u64::MAX - 3);
}

#[test]
fn lock_before_bonding_fails_not_bonded() {
    let mut meme = fresh_meme(40, false);
    let mut user = fresh_user(7);
    let r = lock(
        &mut meme,
        &mut user,
        ident(5),
        mint_id(),
        50,
        &operator(),
        &operator(),
    );
    assert_eq!(r, Err(CustomError::NotBonded));
    assert_eq!(meme.locked_amount, 40);
    assert_eq!(user.locked_amount, 7);
}

#[test]
fn lock_after_bonding_moves_token_units() {
    let mut meme = fresh_meme(40, true);
    let mut user = fresh_user(7);
    let r = lock(
        &mut meme,
        &mut user,
        ident(5),
        mint_id(),
        50,
        &operator(),
        &operator(),
    );
    assert_eq!(r, Ok(Transfer::TokensToTreasury { amount: 50 }));
    assert_eq!(meme.locked_amount, 90);
    assert_eq!(user.locked_amount, 57);
}

#[test]
fn contributions_conserve_the_aggregate() {
    let mut meme = fresh_meme(0, false);
    let mut alice = fresh_user(0);
    let mut bob = fresh_user(0);
    for amount in [5u64, 12, 30] {
        buy(
            &mut meme,
            &mut alice,
            ident(5),
            mint_id(),
            amount,
            &operator(),
            &operator(),
        )
        .unwrap();
    }
    buy(
        &mut meme,
        &mut bob,
        ident(6),
        mint_id(),
        100,
        &operator(),
        &operator(),
    )
    .unwrap();
    assert_eq!(
        meme.locked_amount,
        alice.locked_amount + bob.locked_amount
    );
    assert_eq!(meme.locked_amount, 147);
}

#[test]
fn bonding_rescales_aggregate_and_participants_by_the_floor_ratio() {
    let mut meme = fresh_meme(400_000_000_000_000_000, false);
    let mut users = vec![fresh_user(1_000_000)];
    let r = bond_to_raydium(
        &mut meme,
        &mut users,
        ident(4),
        1_700_000_500,
        &operator(),
        &operator(),
    );
    assert_eq!(r, Ok(()));
    // ratio = 800e15 / 400e15 = 2
    assert_eq!(meme.locked_amount, 800_000_000_000_000_000);
    assert_eq!(meme.bonded_time, 1_700_000_500);
    assert_eq!(meme.pool_id, Some(ident(4)));
    assert_eq!(users[0].locked_amount, 2_000_000);
}

#[test]
fn bonding_ratio_is_floor_divided_once_not_per_record() {
    let mut meme = fresh_meme(3, false);
    let mut users = vec![fresh_user(2), fresh_user(1)];
    bond_to_raydium(
        &mut meme,
        &mut users,
        ident(4),
        10,
        &operator(),
        &operator(),
    )
    .unwrap();
    let ratio = SUPPLY_SOLD_BEFORE_BONDING / 3;
    assert_eq!(ratio, 266_666_666_666_666_666);
    assert_eq!(meme.locked_amount, 3 * ratio);
    assert_eq!(users[0].locked_amount, 2 * ratio);
    assert_eq!(users[1].locked_amount, ratio);
    // the participants' sum still matches the aggregate exactly
    assert_eq!(
        meme.locked_amount,
        users[0].locked_amount + users[1].locked_amount
    );
}

#[test]
fn bonding_skips_records_of_other_tokens() {
    let mut meme = fresh_meme(400_000_000_000_000_000, false);
    let foreign = UserAccount {
        user: ident(5),
        mint: ident(77),
        locked_amount: 123,
    };
    let mut users = vec![foreign, fresh_user(6)];
    bond_to_raydium(
        &mut meme,
        &mut users,
        ident(4),
        10,
        &operator(),
        &operator(),
    )
    .unwrap();
    assert_eq!(users[0].locked_amount, 123);
    assert_eq!(users[0].mint, ident(77));
    assert_eq!(users[1].locked_amount, 12);
}

#[test]
fn bonding_twice_fails_has_bonded() {
    let mut meme = fresh_meme(1_000, false);
    let mut users = vec![fresh_user(10)];
    bond_to_raydium(
        &mut meme,
        &mut users,
        ident(4),
        10,
        &operator(),
        &operator(),
    )
    .unwrap();
    let before = users[0].locked_amount;
    let r = bond_to_raydium(
        &mut meme,
        &mut users,
        ident(4),
        11,
        &operator(),
        &operator(),
    );
    assert_eq!(r, Err(CustomError::HasBonded));
    assert_eq!(users[0].locked_amount, before);
}

#[test]
fn bonding_an_empty_ledger_fails_invalid_amount() {
    let mut meme = fresh_meme(0, false);
    let mut users = vec![fresh_user(10)];
    let r = bond_to_raydium(
        &mut meme,
        &mut users,
        ident(4),
        10,
        &operator(),
        &operator(),
    );
    assert_eq!(r, Err(CustomError::InvalidAmount));
    assert_eq!(meme.bonded_time, -1);
    assert_eq!(users[0].locked_amount, 10);
}

#[test]
fn bonding_overflow_aborts_the_whole_batch() {
    let mut meme = fresh_meme(2, false);
    // ratio = 400e15; the second record's product leaves the 64-bit range
    let mut users = vec![fresh_user(1), fresh_user(u64::MAX / 2)];
    let r = bond_to_raydium(
        &mut meme,
        &mut users,
        ident(4),
        10,
        &operator(),
        &operator(),
    );
    assert_eq!(r, Err(CustomError::Overflow));
    assert_eq!(meme.locked_amount, 2);
    assert_eq!(meme.bonded_time, -1);
    assert_eq!(users[0].locked_amount, 1);
    assert_eq!(users[1].locked_amount, u64::MAX / 2);
}

#[test]
fn release_pays_a_tenth_rounded_down() {
    let mut meme = fresh_meme(1_000, true);
    let mut user = fresh_user(105);
    let r = unlock_meme_phase(&mut meme, &mut user, &operator(), &operator());
    assert_eq!(r, Ok(Transfer::TokensToUser { amount: 10 }));
    assert_eq!(user.locked_amount, 95);
    assert_eq!(meme.locked_amount, 990);
}

#[test]
fn release_sweeps_dust_without_a_transfer() {
    let mut meme = fresh_meme(1_000, true);
    let mut user = fresh_user(5);
    let r = unlock_meme_phase(&mut meme, &mut user, &operator(), &operator());
    assert_eq!(r, Ok(Transfer::Nothing));
    assert_eq!(user.locked_amount, 0);
    assert_eq!(meme.locked_amount, 1_000);
}

#[test]
fn release_before_bonding_fails_not_bonded() {
    let mut meme = fresh_meme(1_000, false);
    let mut user = fresh_user(100);
    let r = unlock_meme_phase(&mut meme, &mut user, &operator(), &operator());
    assert_eq!(r, Err(CustomError::NotBonded));
    assert_eq!(user.locked_amount, 100);
}

#[test]
fn release_from_empty_ledgers_fails_invalid_amount() {
    let mut meme = fresh_meme(0, true);
    let mut user = fresh_user(100);
    let r = unlock_meme_phase(&mut meme, &mut user, &operator(), &operator());
    assert_eq!(r, Err(CustomError::InvalidAmount));
    let mut meme = fresh_meme(1_000, true);
    let mut empty_user = fresh_user(0);
    let r = unlock_meme_phase(&mut meme, &mut empty_user, &operator(), &operator());
    assert_eq!(r, Err(CustomError::InvalidAmount));
    assert_eq!(meme.locked_amount, 1_000);
}

#[test]
fn release_larger_than_the_aggregate_fails_underflow() {
    let mut meme = fresh_meme(1, true);
    let mut user = fresh_user(100);
    let r = unlock_meme_phase(&mut meme, &mut user, &operator(), &operator());
    assert_eq!(r, Err(CustomError::Underflow));
    assert_eq!(meme.locked_amount, 1);
    assert_eq!(user.locked_amount, 100);
}

#[test]
fn every_privileged_operation_rejects_a_non_operator() {
    let outsider = ident(9);
    let r = init_meme_token(params(9), &operator(), &outsider);
    assert_eq!(r.unwrap_err(), CustomError::Unauthorized);

    let r = mint_meme_token(ident(3), mint_id(), 0, &operator(), &outsider);
    assert_eq!(r.unwrap_err(), CustomError::Unauthorized);

    let mut meme = fresh_meme(40, false);
    let mut user = fresh_user(7);
    let r = buy(
        &mut meme,
        &mut user,
        ident(5),
        mint_id(),
        50,
        &operator(),
        &outsider,
    );
    assert_eq!(r, Err(CustomError::Unauthorized));
    assert_eq!(meme.locked_amount, 40);
    assert_eq!(user.locked_amount, 7);

    let mut bonded = fresh_meme(40, true);
    let r = lock(
        &mut bonded,
        &mut user,
        ident(5),
        mint_id(),
        50,
        &operator(),
        &outsider,
    );
    assert_eq!(r, Err(CustomError::Unauthorized));
    assert_eq!(bonded.locked_amount, 40);

    let mut users = vec![fresh_user(10)];
    let r = bond_to_raydium(&mut meme, &mut users, ident(4), 10, &operator(), &outsider);
    assert_eq!(r, Err(CustomError::Unauthorized));
    assert_eq!(meme.bonded_time, -1);
    assert_eq!(users[0].locked_amount, 10);

    let r = unlock_meme_phase(&mut bonded, &mut user, &operator(), &outsider);
    assert_eq!(r, Err(CustomError::Unauthorized));
    assert_eq!(bonded.locked_amount, 40);
    assert_eq!(user.locked_amount, 7);
}

#[test]
fn repeated_releases_drain_an_allocation_to_zero() {
    let mut meme = fresh_meme(1_000, true);
    let mut user = fresh_user(100);
    let mut paid_out: u64 = 0;
    let mut sweeps: u64 = 0;
    while user.locked_amount > 0 {
        match unlock_meme_phase(&mut meme, &mut user, &operator(), &operator()).unwrap() {
            Transfer::TokensToUser { amount } => paid_out += amount,
            Transfer::Nothing => sweeps += 1,
            other => panic!("unexpected transfer {:?}", other),
        }
    }
    assert_eq!(user.locked_amount, 0);
    // the dust sweep forfeits the last sub-resolution remainder
    assert!(paid_out < 100);
    assert_eq!(sweeps, 1);
    assert_eq!(meme.locked_amount, 1_000 - paid_out);
}
