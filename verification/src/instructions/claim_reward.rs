use vstd::prelude::*;
use vstd::arithmetic::mul::lemma_mul_basics;
use crate::address::Address;
use crate::errors::ErrorCode;
use crate::states::{GameConfig, Player};

verus! {

/// The payment that a successful claim asks for. The library moves nothing
/// itself: whoever called it carries the payment out.
#[derive(Clone, Copy, Debug, PartialEq, Eq)]
pub struct RewardTransfer {
    /// The asset to pay in.
    pub mint: Address,
    /// The account to pay from.
    pub vault: Address,
    /// The player to pay to.
    pub recipient: Address,
    /// How much to pay.
    pub amount: u64,
    /// Derivation tag with which the configuration record signs for the vault.
    pub signer_bump: u8,
}

/// What a claim works on.
#[derive(Clone, Copy, Debug, PartialEq, Eq)]
pub struct ClaimReward {
    /// The caller.
    pub authority: Address,
    /// The game's parameters.
    pub game_config: GameConfig,
    /// The record that the caller wants to claim from.
    pub player: Player,
}

impl ClaimReward {
    /// The record as the milestone check sees it: brought up to `now`.
    pub open spec fn accrued(self, now: i64) -> Player {
        self.player.accrued(self.game_config, now)
    }

    /// The payment for one milestone: the configured reward, in the reward
    /// asset, from the game's vault to the caller, signed for by the
    /// configuration record.
    pub open spec fn reward_transfer(self) -> RewardTransfer {
        RewardTransfer {
            mint: self.game_config.reward_mint,
            vault: self.game_config.reward_vault,
            recipient: self.authority,
            amount: self.game_config.reward_per_milestone,
            signer_bump: self.game_config.bump,
        }
    }

    /// What a claim at `now` answers. A caller who does not own the record is
    /// turned away before anything else is looked at; then accrual must not
    /// overflow; then the accrued score must reach the milestone. A claim that
    /// passes all three yields the payment for one milestone.
    pub open spec fn outcome(self, now: i64) -> Result<RewardTransfer, ErrorCode> {
        if !self.player.owned_by(self.authority) {
            Err(ErrorCode::Unauthorized)
        } else if self.player.accrual_overflows(self.game_config, now) {
            Err(ErrorCode::MathOverflow)
        } else if self.accrued(now).score < self.game_config.milestone_score {
            Err(ErrorCode::InsufficientScore)
        } else {
            Ok(self.reward_transfer())
        }
    }

    /// The context after a claim at `now`. A successful claim leaves the record
    /// accrued and one milestone poorer; a rejected one leaves everything as it
    /// was, accrual included.
    pub open spec fn after(self, now: i64) -> ClaimReward {
        if self.outcome(now) is Ok {
            ClaimReward { player: self.accrued(now).burned(self.game_config), ..self }
        } else {
            self
        }
    }

    /// No score is paid for twice: after a successful claim at `now`, another
    /// claim at the same `now` finds nothing newly accrued. It succeeds where
    /// the first claim left a full milestone, and is rejected for want of
    /// score where it did not.
    pub proof fn lemma_claim_again(self, now: i64)
        requires
            self.outcome(now) is Ok,
        ensures
            self.after(now).accrued(now) == self.after(now).player,
            self.after(now).outcome(now) is Ok <==> self.accrued(now).score >= 2
                * self.game_config.milestone_score,
            self.after(now).outcome(now) is Err ==> self.after(now).outcome(now) == Err::<
                RewardTransfer,
                ErrorCode,
            >(ErrorCode::InsufficientScore),
    {
        self.player.lemma_accrual_idempotent(self.game_config, now);
        let left = self.after(now).player;
        assert(left.last_update_ts == self.accrued(now).last_update_ts);
        assert(left.intervals_due(self.game_config, now) == 0);
        lemma_mul_basics(left.mining_rate as int);
    }
}

/// Claims one milestone: brings the record up to `now`, takes one milestone
/// off its score and returns the payment that is due to the caller. One call
/// claims one milestone, however much score there is.
pub fn handle(ctx: &mut ClaimReward, now: i64) -> (result: Result<RewardTransfer, ErrorCode>)
    ensures
        result == old(ctx).outcome(now),
        *final(ctx) == old(ctx).after(now),
        result is Err ==> *final(ctx) == *old(ctx),
        !old(ctx).player.owned_by(old(ctx).authority) ==> result == Err::<RewardTransfer, ErrorCode>(
            ErrorCode::Unauthorized,
        ) && *final(ctx) == *old(ctx),
        result is Ok ==> final(ctx).player.score == old(ctx).accrued(now).score
            - old(ctx).game_config.milestone_score,
        final(ctx).authority == old(ctx).authority,
        final(ctx).game_config == old(ctx).game_config,
        final(ctx).player.authority == old(ctx).player.authority,
        old(ctx).player.well_formed() ==> final(ctx).player.well_formed(),
        final(ctx).player.last_update_ts >= old(ctx).player.last_update_ts,
        old(ctx).player.last_update_ts <= now ==> final(ctx).player.last_update_ts <= now,
{
    ctx.player.authorize(&ctx.authority)?;
    let mut player = ctx.player;
    player.update_score(&ctx.game_config, now)?;
    player.burn_milestone(&ctx.game_config)?;
    ctx.player = player;
    Ok(
        RewardTransfer {
            mint: ctx.game_config.reward_mint,
            vault: ctx.game_config.reward_vault,
            recipient: ctx.authority,
            amount: ctx.game_config.reward_per_milestone,
            signer_bump: ctx.game_config.bump,
        },
    )
}

} // verus!
