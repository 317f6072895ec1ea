//! Idle-miner accrual economy: players accumulate score over time, redeem it in
//! milestone-sized chunks for rewards, or reinvest it into a higher mining rate.
//!
//! The library decides; it moves no assets. Every operation is handed the
//! records it works on and hands back the changed records together with the
//! payment, if any, that the caller is to carry out. An operation that is
//! rejected changes nothing.
//!
//! The operations at the root of the crate read the cluster clock themselves,
//! once each. The handlers under [`instructions`] are the same operations at a
//! time that the caller names.

use vstd::prelude::*;
use crate::errors::{ErrorCode, Failure};
use crate::instructions::claim_reward::RewardTransfer;
use crate::instructions::create_player::EntryFee;
use crate::instructions::{ClaimReward, CreatePlayer, InitializeGame, UpgradeMiner};

pub mod accrual;
pub mod address;
pub mod clock;
pub mod errors;
pub mod instructions;
pub mod states;

verus! {

/// Sets the game up with the given parameters. Always succeeds.
pub fn initialize_game(
    ctx: &mut InitializeGame,
    entry_fee_lamports: u64,
    base_rate: u64,
    interval_seconds: i64,
    milestone_score: u64,
    reward_per_milestone: u64,
) -> (result: Result<(), Failure>)
    ensures
        result is Ok,
        *final(ctx) == (InitializeGame {
            game_config: old(ctx).configured(
                entry_fee_lamports,
                base_rate,
                interval_seconds,
                milestone_score,
                reward_per_milestone,
            ),
            ..*old(ctx)
        }),
{
    match instructions::initialize_game::handle(
        ctx,
        entry_fee_lamports,
        base_rate,
        interval_seconds,
        milestone_score,
        reward_per_milestone,
    ) {
        Ok(()) => Ok(()),
        Err(code) => Err(Failure::Rejected(code)),
    }
}

/// Registers the caller at the time that the clock shows and returns the
/// entry fee to charge.
///
/// A caller who is registered already is turned away without the clock being
/// asked. For any other caller the clock decides: where it answers, the
/// caller is registered at the time it names.
pub fn create_player(ctx: &mut CreatePlayer) -> (result: Result<EntryFee, Failure>)
    ensures
        old(ctx).player is Some ==> result == Err::<EntryFee, Failure>(
            Failure::Rejected(ErrorCode::Unauthorized),
        ),
        old(ctx).player is None ==> result is Ok || result->Err_0 is Clock,
        result is Err ==> *final(ctx) == *old(ctx),
        result is Ok ==> result->Ok_0 == old(ctx).entry_fee(),
        result is Ok ==> (exists|now: i64| *final(ctx) == #[trigger] old(ctx).after(now)),
{
    if ctx.player.is_some() {
        return Err(Failure::Rejected(ErrorCode::Unauthorized));
    }
    let now: i64 = match clock::unix_timestamp() {
        Ok(now) => now,
        Err(error) => {
            return Err(Failure::Clock(error));
        },
    };
    match instructions::create_player::handle(ctx, now) {
        Ok(fee) => Ok(fee),
        Err(code) => Err(Failure::Rejected(code)),
    }
}

/// Claims one milestone at the time that the clock shows and returns the
/// payment that is due.
///
/// A caller who does not own the record is turned away without the clock
/// being asked. For the owner the clock decides: where it answers, the claim
/// is the one that [`instructions::claim_reward::handle`] makes at the time
/// it names.
pub fn claim_reward(ctx: &mut ClaimReward) -> (result: Result<RewardTransfer, Failure>)
    ensures
        !old(ctx).player.owned_by(old(ctx).authority) ==> result == Err::<RewardTransfer, Failure>(
            Failure::Rejected(ErrorCode::Unauthorized),
        ),
        result is Err ==> *final(ctx) == *old(ctx),
        result matches Ok(transfer) ==> (exists|now: i64|
            #[trigger] old(ctx).outcome(now) == Ok::<RewardTransfer, ErrorCode>(transfer)
                && *final(ctx) == old(ctx).after(now)),
        result matches Err(Failure::Rejected(code)) ==> (exists|now: i64|
            #[trigger] old(ctx).outcome(now) == Err::<RewardTransfer, ErrorCode>(code)),
{
    match ctx.player.authorize(&ctx.authority) {
        Ok(()) => {},
        Err(code) => {
            assert(ctx.outcome(0) == Err::<RewardTransfer, ErrorCode>(code));
            return Err(Failure::Rejected(code));
        },
    }
    let now: i64 = match clock::unix_timestamp() {
        Ok(now) => now,
        Err(error) => {
            return Err(Failure::Clock(error));
        },
    };
    match instructions::claim_reward::handle(ctx, now) {
        Ok(transfer) => Ok(transfer),
        Err(code) => Err(Failure::Rejected(code)),
    }
}

/// Spends one milestone on doubling the caller's mining rate, at the time
/// that the clock shows.
///
/// A caller who does not own the record is turned away without the clock
/// being asked. For the owner the clock decides: where it answers, the
/// upgrade is the one that [`instructions::upgrade_miner::handle`] makes at
/// the time it names.
pub fn upgrade_miner(ctx: &mut UpgradeMiner) -> (result: Result<(), Failure>)
    ensures
        !old(ctx).player.owned_by(old(ctx).authority) ==> result == Err::<(), Failure>(
            Failure::Rejected(ErrorCode::Unauthorized),
        ),
        result is Err ==> *final(ctx) == *old(ctx),
        result is Ok ==> (exists|now: i64|
            #[trigger] old(ctx).outcome(now) == Ok::<(), ErrorCode>(())
                && *final(ctx) == old(ctx).after(now)),
        result matches Err(Failure::Rejected(code)) ==> (exists|now: i64|
            #[trigger] old(ctx).outcome(now) == Err::<(), ErrorCode>(code)),
{
    match ctx.player.authorize(&ctx.authority) {
        Ok(()) => {},
        Err(code) => {
            assert(ctx.outcome(0) == Err::<(), ErrorCode>(code));
            return Err(Failure::Rejected(code));
        },
    }
    let now: i64 = match clock::unix_timestamp() {
        Ok(now) => now,
        Err(error) => {
            return Err(Failure::Clock(error));
        },
    };
    match instructions::upgrade_miner::handle(ctx, now) {
        Ok(()) => Ok(()),
        Err(code) => Err(Failure::Rejected(code)),
    }
}

} // verus!
