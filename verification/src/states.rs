use vstd::prelude::*;
use vstd::arithmetic::mul::{lemma_mul_basics, lemma_mul_nonnegative};
use crate::accrual::lemma_full_intervals;
use crate::address::Address;
use crate::errors::ErrorCode;

verus! {

/// The game's parameters. They are written once, when the game is set up, and
/// only read by every player operation.
#[derive(Clone, Copy, Debug, PartialEq, Eq)]
pub struct GameConfig {
    /// Who set the game up.
    pub admin: Address,
    /// What a new player pays to register.
    pub entry_fee_lamports: u64,
    /// Score per interval that a new player earns.
    pub base_rate: u64,
    /// Length of one accrual interval in seconds. Zero or less switches accrual off.
    pub interval_seconds: i64,
    /// Score that one claim or one upgrade consumes.
    pub milestone_score: u64,
    /// Reward paid out for each claimed milestone.
    pub reward_per_milestone: u64,
    /// The asset in which rewards are paid.
    pub reward_mint: Address,
    /// The account from which rewards are paid.
    pub reward_vault: Address,
    /// Derivation tag of the account that stores this configuration.
    pub bump: u8,
}

impl GameConfig {
    /// Bytes that a stored configuration occupies.
    pub const LEN: usize = 32 + 8 + 8 + 8 + 8 + 8 + 32 + 32 + 1;
}

/// One player's record.
#[derive(Clone, Copy, Debug, PartialEq, Eq)]
pub struct Player {
    /// The player who owns the record. Nobody else may act on it.
    pub authority: Address,
    /// Score accrued and not yet spent.
    pub score: u64,
    /// Score earned per full interval.
    pub mining_rate: u64,
    /// The moment up to which score has been credited.
    pub last_update_ts: i64,
    /// Number of miners at work.
    pub miners: u32,
    /// Derivation tag of the account that stores this record.
    pub bump: u8,
}

impl Player {
    /// Bytes that a stored record occupies.
    pub const LEN: usize = 32 + 8 + 8 + 8 + 4 + 1;

    /// What holds of a record that was created under a positive base rate: it
    /// earns something in every interval and at least one miner is at work.
    pub open spec fn well_formed(self) -> bool {
        self.mining_rate > 0 && self.miners >= 1
    }

    /// Whether `caller` owns this record.
    pub open spec fn owned_by(self, caller: Address) -> bool {
        self.authority == caller
    }

    /// The record with one milestone taken off its score.
    pub open spec fn burned(self, game_config: GameConfig) -> Player {
        Player { score: (self.score - game_config.milestone_score) as u64, ..self }
    }

    /// Lets `caller` through if `caller` owns this record, and nobody else.
    pub fn authorize(&self, caller: &Address) -> (result: Result<(), ErrorCode>)
        ensures
            self.owned_by(*caller) ==> result == Ok::<(), ErrorCode>(()),
            !self.owned_by(*caller) ==> result == Err::<(), ErrorCode>(ErrorCode::Unauthorized),
    {
        if self.authority != *caller {
            return Err(ErrorCode::Unauthorized);
        }
        Ok(())
    }

    /// Takes exactly one milestone off the score. A score that is short of
    /// the milestone is left as it is.
    pub fn burn_milestone(&mut self, game_config: &GameConfig) -> (result: Result<(), ErrorCode>)
        ensures
            old(self).score >= game_config.milestone_score ==> result == Ok::<(), ErrorCode>(()),
            old(self).score < game_config.milestone_score ==> result == Err::<(), ErrorCode>(
                ErrorCode::InsufficientScore,
            ),
            result is Ok ==> *final(self) == old(self).burned(*game_config),
            result is Ok ==> final(self).score == old(self).score - game_config.milestone_score,
            result is Err ==> *final(self) == *old(self),
    {
        if self.score < game_config.milestone_score {
            return Err(ErrorCode::InsufficientScore);
        }
        self.score = self.score.checked_sub(game_config.milestone_score).ok_or(
            ErrorCode::MathOverflow,
        )?;
        Ok(())
    }

    /// The number of full intervals between the last update and `now`. Accrual
    /// credits exactly these; a started interval counts for nothing yet.
    pub open spec fn intervals_due(self, game_config: GameConfig, now: i64) -> int {
        if now > self.last_update_ts && game_config.interval_seconds > 0 {
            (now - self.last_update_ts) / (game_config.interval_seconds as int)
        } else {
            0
        }
    }

    /// Whether bringing the record up to `now` leaves the integer range: either
    /// the elapsed time does not fit a signed 64-bit number of seconds, or the
    /// new score does not fit an unsigned 64-bit number.
    pub open spec fn accrual_overflows(self, game_config: GameConfig, now: i64) -> bool {
        now > self.last_update_ts && (now - self.last_update_ts > i64::MAX || self.score
            + self.intervals_due(game_config, now) * self.mining_rate > u64::MAX)
    }

    /// The record brought up to `now`: every full interval that has passed is
    /// paid at the mining rate, and the timestamp moves forward by exactly those
    /// intervals. Where no full interval has passed, or where paying them would
    /// overflow, the record stays as it is.
    pub open spec fn accrued(self, game_config: GameConfig, now: i64) -> Player {
        let due = self.intervals_due(game_config, now);
        if due <= 0 || self.accrual_overflows(game_config, now) {
            self
        } else {
            Player {
                score: (self.score + due * self.mining_rate) as u64,
                last_update_ts: (self.last_update_ts + due * game_config.interval_seconds) as i64,
                ..self
            }
        }
    }

    /// Credits the score earned between the last update and `now`.
    ///
    /// Only full intervals are paid, and the timestamp advances by the time
    /// they cover, not to `now`: the started interval is kept for the next
    /// call. A clock that has not moved on, or a configuration with accrual
    /// switched off, changes nothing. An overflow is reported and changes
    /// nothing either.
    pub fn update_score(&mut self, game_config: &GameConfig, now: i64) -> (result: Result<
        (),
        ErrorCode,
    >)
        ensures
            old(self).accrual_overflows(*game_config, now) ==> result == Err::<(), ErrorCode>(
                ErrorCode::MathOverflow,
            ),
            !old(self).accrual_overflows(*game_config, now) ==> result == Ok::<(), ErrorCode>(()),
            *final(self) == old(self).accrued(*game_config, now),
            result is Err ==> *final(self) == *old(self),
            old(self).intervals_due(*game_config, now) * old(self).mining_rate > u64::MAX
                ==> result == Err::<(), ErrorCode>(ErrorCode::MathOverflow)
                && *final(self) == *old(self),
            final(self).authority == old(self).authority,
            final(self).mining_rate == old(self).mining_rate,
            final(self).miners == old(self).miners,
            final(self).bump == old(self).bump,
            final(self).score >= old(self).score,
            final(self).last_update_ts >= old(self).last_update_ts,
            old(self).last_update_ts <= now ==> final(self).last_update_ts <= now,
            result is Ok && old(self).last_update_ts <= now && game_config.interval_seconds > 0
                ==> now - final(self).last_update_ts < game_config.interval_seconds,
    {
        if now <= self.last_update_ts {
            return Ok(());
        }
        let elapsed: i64 = now.checked_sub(self.last_update_ts).ok_or(ErrorCode::MathOverflow)?;
        if game_config.interval_seconds <= 0 {
            return Ok(());
        }
        let intervals: i64 = elapsed / game_config.interval_seconds;
        proof {
            lemma_full_intervals(elapsed as int, game_config.interval_seconds as int);
            lemma_mul_nonnegative(intervals as int, self.mining_rate as int);
        }
        if intervals <= 0 {
            proof {
                lemma_mul_basics(self.mining_rate as int);
                lemma_mul_basics(game_config.interval_seconds as int);
            }
            return Ok(());
        }
        let intervals_u64: u64 = u64::try_from(intervals).map_err(|_e| ErrorCode::MathOverflow)?;
        let earned: u64 = intervals_u64.checked_mul(self.mining_rate).ok_or(ErrorCode::MathOverflow)?;
        let score: u64 = self.score.checked_add(earned).ok_or(ErrorCode::MathOverflow)?;
        let delta_ts: i64 = intervals.checked_mul(game_config.interval_seconds).ok_or(
            ErrorCode::MathOverflow,
        )?;
        let last_update_ts: i64 = self.last_update_ts.checked_add(delta_ts).ok_or(
            ErrorCode::MathOverflow,
        )?;
        self.score = score;
        self.last_update_ts = last_update_ts;
        Ok(())
    }
}

} // verus!
