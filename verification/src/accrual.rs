//! What holds of lazy accrual however often and whenever it is asked for.

use vstd::prelude::*;
use vstd::arithmetic::div_mod::{
    lemma_div_is_ordered, lemma_fundamental_div_mod, lemma_fundamental_div_mod_converse,
    lemma_mod_bound,
};
use vstd::arithmetic::mul::{
    lemma_mul_basics, lemma_mul_inequality, lemma_mul_is_commutative,
    lemma_mul_is_distributive_add_other_way, lemma_mul_is_distributive_sub_other_way,
    lemma_mul_nonnegative,
};
use crate::states::{GameConfig, Player};

verus! {

/// Floor division by a positive length: the full intervals in `elapsed` are
/// never negative and never cover more than `elapsed`, and what they leave
/// over is shorter than one interval.
pub proof fn lemma_full_intervals(elapsed: int, interval: int)
    requires
        elapsed >= 0,
        interval > 0,
    ensures
        0 <= elapsed / interval,
        0 <= (elapsed / interval) * interval <= elapsed,
        elapsed - (elapsed / interval) * interval < interval,
{
    lemma_fundamental_div_mod(elapsed, interval);
    lemma_mod_bound(elapsed, interval);
    lemma_mul_is_commutative(interval, elapsed / interval);
    if elapsed / interval < 0 {
        lemma_mul_inequality(elapsed / interval, -1, interval);
    }
}

/// Taking `first` full intervals out of `elapsed` leaves the other full
/// intervals of `elapsed`, no more and no fewer.
pub proof fn lemma_intervals_split(elapsed: int, interval: int, first: int)
    requires
        interval > 0,
        0 <= first,
        first * interval <= elapsed,
    ensures
        (elapsed - first * interval) / interval == elapsed / interval - first,
{
    let rest = elapsed - first * interval;
    lemma_fundamental_div_mod(rest, interval);
    lemma_mod_bound(rest, interval);
    lemma_mul_is_commutative(interval, rest / interval);
    lemma_mul_is_distributive_add_other_way(interval, rest / interval, first);
    lemma_mul_is_commutative(interval, rest / interval + first);
    lemma_fundamental_div_mod_converse(elapsed, interval, rest / interval + first, rest % interval);
}

impl Player {
    /// The record after one update at each of `times`, in the order given.
    /// An update that overflows leaves the record as it found it, and the
    /// next one goes on from there.
    pub open spec fn accrued_through(self, game_config: GameConfig, times: Seq<i64>) -> Player
        decreases times.len(),
    {
        if times.len() == 0 {
            self
        } else {
            self.accrued(game_config, times[0]).accrued_through(game_config, times.drop_first())
        }
    }

    /// Accrual is idempotent within one instant: once a record has been
    /// brought up to `now`, nothing further is due at the same `now`, and
    /// bringing it up to that `now` again succeeds and changes nothing.
    pub proof fn lemma_accrual_idempotent(self, game_config: GameConfig, now: i64)
        ensures
            !self.accrual_overflows(game_config, now) ==> self.accrued(
                game_config,
                now,
            ).intervals_due(game_config, now) == 0,
            !self.accrual_overflows(game_config, now) ==> !self.accrued(
                game_config,
                now,
            ).accrual_overflows(game_config, now),
            self.accrued(game_config, now).accrued(game_config, now) == self.accrued(
                game_config,
                now,
            ),
    {
        let once = self.accrued(game_config, now);
        let due = self.intervals_due(game_config, now);
        if due > 0 && !self.accrual_overflows(game_config, now) {
            let elapsed = now - self.last_update_ts;
            let interval = game_config.interval_seconds as int;
            lemma_full_intervals(elapsed, interval);
            lemma_intervals_split(elapsed, interval, due);
            assert(once.last_update_ts == self.last_update_ts + due * interval);
            assert(once.intervals_due(game_config, now) == 0);
            lemma_mul_basics(once.mining_rate as int);
        } else if !self.accrual_overflows(game_config, now) {
            assert(once == self);
            if now > self.last_update_ts && game_config.interval_seconds > 0 {
                lemma_full_intervals(now - self.last_update_ts, game_config.interval_seconds as int);
            }
            assert(due == 0);
            lemma_mul_basics(self.mining_rate as int);
        }
    }

    /// Accrual is additive over time: where one update at `later` succeeds,
    /// an update at any `earlier` moment followed by one at `later` succeeds
    /// too and leaves the same record. No interval is paid twice, and the
    /// started interval that the first update leaves over is not lost.
    pub proof fn lemma_accrual_additive(self, game_config: GameConfig, earlier: i64, later: i64)
        requires
            earlier <= later,
            !self.accrual_overflows(game_config, later),
        ensures
            !self.accrual_overflows(game_config, earlier),
            !self.accrued(game_config, earlier).accrual_overflows(game_config, later),
            self.accrued(game_config, earlier).accrued(game_config, later) == self.accrued(
                game_config,
                later,
            ),
    {
        let interval = game_config.interval_seconds as int;
        let rate = self.mining_rate as int;
        let first = self.accrued(game_config, earlier);
        let due_first = self.intervals_due(game_config, earlier);
        let due_all = self.intervals_due(game_config, later);
        if earlier > self.last_update_ts && interval > 0 {
            let elapsed_first = earlier - self.last_update_ts;
            let elapsed_all = later - self.last_update_ts;
            lemma_full_intervals(elapsed_first, interval);
            lemma_full_intervals(elapsed_all, interval);
            lemma_div_is_ordered(elapsed_first, elapsed_all, interval);
            assert(0 <= due_first <= due_all);
            lemma_mul_inequality(due_first, due_all, rate);
            lemma_mul_nonnegative(due_first, rate);
            assert(!self.accrual_overflows(game_config, earlier));
            lemma_intervals_split(elapsed_all, interval, due_first);
            lemma_mul_is_distributive_sub_other_way(rate, due_all, due_first);
            lemma_mul_is_distributive_sub_other_way(interval, due_all, due_first);
            lemma_mul_basics(rate);
            lemma_mul_basics(interval);
            if due_first > 0 {
                assert(first.last_update_ts == self.last_update_ts + due_first * interval);
                assert(first.score == self.score + due_first * rate);
                assert(first.intervals_due(game_config, later) == due_all - due_first);
            } else {
                assert(first == self);
            }
        } else {
            lemma_mul_basics(rate);
            assert(due_first == 0);
            assert(first == self);
        }
    }

    /// What a record has earned by `later` does not depend on how often it
    /// was updated on the way: where one update at `later` succeeds, updates
    /// at any moments up to `later`, however many, followed by one at `later`
    /// succeed too and leave the same record.
    pub proof fn lemma_accrual_any_schedule(
        self,
        game_config: GameConfig,
        times: Seq<i64>,
        later: i64,
    )
        requires
            forall|i: int| 0 <= i < times.len() ==> times[i] <= later,
            !self.accrual_overflows(game_config, later),
        ensures
            !self.accrued_through(game_config, times).accrual_overflows(game_config, later),
            self.accrued_through(game_config, times).accrued(game_config, later) == self.accrued(
                game_config,
                later,
            ),
        decreases times.len(),
    {
        if times.len() > 0 {
            let first = self.accrued(game_config, times[0]);
            self.lemma_accrual_additive(game_config, times[0], later);
            first.lemma_accrual_any_schedule(game_config, times.drop_first(), later);
        }
    }
}

} // verus!
