use vstd::prelude::*;
use crate::address::Address;
use crate::errors::ErrorCode;
use crate::states::{GameConfig, Player};

verus! {

/// What an upgrade works on.
#[derive(Clone, Copy, Debug, PartialEq, Eq)]
pub struct UpgradeMiner {
    /// The caller.
    pub authority: Address,
    /// The game's parameters.
    pub game_config: GameConfig,
    /// The record that the caller wants to upgrade.
    pub player: Player,
}

impl UpgradeMiner {
    /// The record as the milestone check sees it: brought up to `now`.
    pub open spec fn accrued(self, now: i64) -> Player {
        self.player.accrued(self.game_config, now)
    }

    /// What an upgrade at `now` answers. A caller who does not own the record
    /// is turned away before anything else is looked at; then accrual must not
    /// overflow; then the accrued score must reach the milestone; and last the
    /// doubled rate and the new miner count must fit their integer ranges.
    pub open spec fn outcome(self, now: i64) -> Result<(), ErrorCode> {
        if !self.player.owned_by(self.authority) {
            Err(ErrorCode::Unauthorized)
        } else if self.player.accrual_overflows(self.game_config, now) {
            Err(ErrorCode::MathOverflow)
        } else if self.accrued(now).score < self.game_config.milestone_score {
            Err(ErrorCode::InsufficientScore)
        } else if 2 * self.player.mining_rate > u64::MAX || self.player.miners + 1 > u32::MAX {
            Err(ErrorCode::MathOverflow)
        } else {
            Ok(())
        }
    }

    /// The context after an upgrade at `now`. A successful upgrade leaves the
    /// record accrued, one milestone poorer, twice as fast and with one miner
    /// more; a rejected one leaves everything as it was, accrual included.
    pub open spec fn after(self, now: i64) -> UpgradeMiner {
        if self.outcome(now) is Ok {
            UpgradeMiner {
                player: Player {
                    mining_rate: (2 * self.player.mining_rate) as u64,
                    miners: (self.player.miners + 1) as u32,
                    ..self.accrued(now).burned(self.game_config)
                },
                ..self
            }
        } else {
            self
        }
    }
}

/// Spends one milestone on the record itself: brings it up to `now`, takes
/// one milestone off its score, doubles its mining rate and adds a miner.
/// Nothing is paid out. The rate may be doubled as often as it fits.
pub fn handle(ctx: &mut UpgradeMiner, now: i64) -> (result: Result<(), ErrorCode>)
    ensures
        result == old(ctx).outcome(now),
        *final(ctx) == old(ctx).after(now),
        result is Err ==> *final(ctx) == *old(ctx),
        !old(ctx).player.owned_by(old(ctx).authority) ==> result == Err::<(), ErrorCode>(
            ErrorCode::Unauthorized,
        ) && *final(ctx) == *old(ctx),
        result is Ok ==> final(ctx).player.score == old(ctx).accrued(now).score
            - old(ctx).game_config.milestone_score,
        result is Ok ==> final(ctx).player.mining_rate == 2 * old(ctx).player.mining_rate,
        result is Ok ==> final(ctx).player.miners == old(ctx).player.miners + 1,
        final(ctx).authority == old(ctx).authority,
        final(ctx).game_config == old(ctx).game_config,
        final(ctx).player.authority == old(ctx).player.authority,
        old(ctx).player.well_formed() ==> final(ctx).player.well_formed(),
        final(ctx).player.mining_rate >= old(ctx).player.mining_rate,
        final(ctx).player.miners >= old(ctx).player.miners,
        final(ctx).player.last_update_ts >= old(ctx).player.last_update_ts,
        old(ctx).player.last_update_ts <= now ==> final(ctx).player.last_update_ts <= now,
{
    ctx.player.authorize(&ctx.authority)?;
    let mut player = ctx.player;
    player.update_score(&ctx.game_config, now)?;
    player.burn_milestone(&ctx.game_config)?;
    player.mining_rate = player.mining_rate.checked_mul(2).ok_or(ErrorCode::MathOverflow)?;
    player.miners = player.miners.checked_add(1).ok_or(ErrorCode::MathOverflow)?;
    ctx.player = player;
    Ok(())
}

} // verus!
