use vstd::prelude::*;
use crate::address::Address;
use crate::errors::ErrorCode;
use crate::states::{GameConfig, Player};

verus! {

/// The payment that a registration asks for. The library moves nothing
/// itself: whoever called it carries the payment out.
#[derive(Clone, Copy, Debug, PartialEq, Eq)]
pub struct EntryFee {
    /// The player who pays.
    pub payer: Address,
    /// How much the player pays.
    pub lamports: u64,
}

/// What a registration works on.
#[derive(Clone, Copy, Debug, PartialEq, Eq)]
pub struct CreatePlayer {
    /// The caller, who becomes the owner of the new record.
    pub authority: Address,
    /// The game's parameters.
    pub game_config: GameConfig,
    /// The one place where the caller's record is kept: empty until the
    /// caller has registered, and never empty again afterwards.
    pub player: Option<Player>,
    /// Derivation tag of the account that will store the record.
    pub bump: u8,
}

impl CreatePlayer {
    /// The record of a player who registers at `now`: no score yet, the base
    /// rate, one miner, and accrual starting at `now`.
    pub open spec fn fresh_player(self, now: i64) -> Player {
        Player {
            authority: self.authority,
            score: 0,
            mining_rate: self.game_config.base_rate,
            last_update_ts: now,
            miners: 1,
            bump: self.bump,
        }
    }

    /// The payment for a registration: the configured entry fee, from the caller.
    pub open spec fn entry_fee(self) -> EntryFee {
        EntryFee { payer: self.authority, lamports: self.game_config.entry_fee_lamports }
    }

    /// What a registration answers: a caller who has a record already is
    /// turned away, any other caller owes the entry fee.
    pub open spec fn outcome(self) -> Result<EntryFee, ErrorCode> {
        if self.player is Some {
            Err(ErrorCode::Unauthorized)
        } else {
            Ok(self.entry_fee())
        }
    }

    /// The context after a registration at `now`.
    pub open spec fn after(self, now: i64) -> CreatePlayer {
        if self.outcome() is Ok {
            CreatePlayer { player: Some(self.fresh_player(now)), ..self }
        } else {
            self
        }
    }
}

/// Registers the caller: creates the caller's record and returns the entry
/// fee that the caller is to be charged. A caller registers once; a second
/// attempt is rejected and leaves the existing record as it is.
pub fn handle(ctx: &mut CreatePlayer, now: i64) -> (result: Result<EntryFee, ErrorCode>)
    ensures
        result == old(ctx).outcome(),
        *final(ctx) == old(ctx).after(now),
        result is Err ==> *final(ctx) == *old(ctx),
        final(ctx).authority == old(ctx).authority,
        final(ctx).game_config == old(ctx).game_config,
        result is Ok ==> final(ctx).player == Some(old(ctx).fresh_player(now)),
        final(ctx).player is Some,
        result is Ok && old(ctx).game_config.base_rate > 0 ==> final(ctx).player->0.well_formed(),
{
    if ctx.player.is_some() {
        return Err(ErrorCode::Unauthorized);
    }
    ctx.player = Some(
        Player {
            authority: ctx.authority,
            score: 0,
            mining_rate: ctx.game_config.base_rate,
            last_update_ts: now,
            miners: 1,
            bump: ctx.bump,
        },
    );
    Ok(EntryFee { payer: ctx.authority, lamports: ctx.game_config.entry_fee_lamports })
}

} // verus!
