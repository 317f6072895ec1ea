use vstd::prelude::*;
use crate::address::Address;
use crate::errors::ErrorCode;
use crate::states::GameConfig;

verus! {

/// What setting up the game works on.
#[derive(Clone, Copy, Debug, PartialEq, Eq)]
pub struct InitializeGame {
    /// The caller, who becomes the game's admin.
    pub admin: Address,
    /// The configuration record to fill in.
    pub game_config: GameConfig,
    /// The asset in which rewards will be paid.
    pub reward_mint: Address,
    /// The account from which rewards will be paid.
    pub reward_vault: Address,
    /// Derivation tag of the account that stores the configuration.
    pub bump: u8,
}

impl InitializeGame {
    /// The configuration that setting up the game with these parameters writes.
    pub open spec fn configured(
        self,
        entry_fee_lamports: u64,
        base_rate: u64,
        interval_seconds: i64,
        milestone_score: u64,
        reward_per_milestone: u64,
    ) -> GameConfig {
        GameConfig {
            admin: self.admin,
            entry_fee_lamports,
            base_rate,
            interval_seconds,
            milestone_score,
            reward_per_milestone,
            reward_mint: self.reward_mint,
            reward_vault: self.reward_vault,
            bump: self.bump,
        }
    }
}

/// Sets the game up: writes the parameters, the caller as admin, and the
/// reward asset and vault into the configuration record. The parameters are
/// taken as they come; an interval of zero or less is a game without accrual.
pub fn handle(
    ctx: &mut InitializeGame,
    entry_fee_lamports: u64,
    base_rate: u64,
    interval_seconds: i64,
    milestone_score: u64,
    reward_per_milestone: u64,
) -> (result: Result<(), ErrorCode>)
    ensures
        result is Ok,
        *final(ctx) == (InitializeGame {
            game_config: old(ctx).configured(
                entry_fee_lamports,
                base_rate,
                interval_seconds,
                milestone_score,
                reward_per_milestone,
            ),
            ..*old(ctx)
        }),
{
    ctx.game_config.admin = ctx.admin;
    ctx.game_config.entry_fee_lamports = entry_fee_lamports;
    ctx.game_config.base_rate = base_rate;
    ctx.game_config.interval_seconds = interval_seconds;
    ctx.game_config.milestone_score = milestone_score;
    ctx.game_config.reward_per_milestone = reward_per_milestone;
    ctx.game_config.reward_mint = ctx.reward_mint;
    ctx.game_config.reward_vault = ctx.reward_vault;
    ctx.game_config.bump = ctx.bump;
    Ok(())
}

} // verus!
