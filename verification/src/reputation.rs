//! Payer reputation: scores from 0 to 100 that decay while a payer is idle.
use vstd::prelude::*;

use crate::config::Config;

verus! {

/// A payer's stored reputation together with the ledger of its last activity.
#[derive(Clone, Copy, Debug, PartialEq, Eq, Structural)]
pub struct ReputationScore {
    /// Score between 0 and 100.
    pub score: u32,
    /// Ledger sequence of the last activity, from which decay is counted.
    pub last_activity_ledger: u64,
}

/// Score of a payer that has no stored reputation yet.
pub const DEFAULT_SCORE: u32 = 50;

/// The highest score a payer can hold.
pub const MAX_SCORE: u32 = 100;

/// Basis points in one whole.
pub const BPS_DENOMINATOR: u64 = 10_000;

/// One decay period applied to `score`: `rate_bps` basis points of it,
/// rounded down, are removed, and the score never goes below zero.
pub open spec fn decay_once(score: int, rate_bps: int) -> int {
    let amount = (score * rate_bps) / (BPS_DENOMINATOR as int);
    if amount >= score {
        0
    } else {
        score - amount
    }
}

/// `score` after `periods` decay periods at `rate_bps`.
pub open spec fn decay_periods(score: int, rate_bps: int, periods: nat) -> int
    decreases periods,
{
    if periods == 0 {
        score
    } else {
        decay_once(decay_periods(score, rate_bps, (periods - 1) as nat), rate_bps)
    }
}

/// Ledgers elapsed since `last_activity`, zero when it lies in the future.
pub open spec fn ledgers_since(current_ledger: u32, last_activity: u64) -> int {
    if current_ledger >= last_activity {
        current_ledger - last_activity
    } else {
        0
    }
}

/// Whether decay applies: at least one whole period has elapsed and the
/// configuration has a nonzero period and a nonzero rate.
pub open spec fn decay_applies(rep: ReputationScore, config: Config, current_ledger: u32) -> bool {
    &&& ledgers_since(current_ledger, rep.last_activity_ledger) >= config.decay_period_ledgers
    &&& config.decay_period_ledgers > 0
    &&& config.decay_rate_bps > 0
}

/// Number of whole decay periods elapsed since the last activity.
pub open spec fn periods_elapsed(rep: ReputationScore, config: Config, current_ledger: u32) -> nat {
    (ledgers_since(current_ledger, rep.last_activity_ledger) / (config.decay_period_ledgers as int)) as nat
}

/// The smaller of `score` and `MAX_SCORE`.
pub open spec fn capped(score: int) -> int {
    if score > MAX_SCORE {
        MAX_SCORE as int
    } else {
        score
    }
}

/// A payer's effective score at `current_ledger`.
///
/// Without a stored reputation it is `DEFAULT_SCORE`. Otherwise it is the
/// stored score, decayed for every whole period elapsed since the last
/// activity and capped at `MAX_SCORE` when a configuration is present and
/// decay applies.
pub open spec fn effective_score(
    stored: Option<ReputationScore>,
    config: Option<Config>,
    current_ledger: u32,
) -> int {
    match stored {
        None => DEFAULT_SCORE as int,
        Some(rep) => match config {
            Some(c) => if decay_applies(rep, c, current_ledger) {
                capped(
                    decay_periods(
                        rep.score as int,
                        c.decay_rate_bps as int,
                        periods_elapsed(rep, c, current_ledger),
                    ),
                )
            } else {
                rep.score as int
            },
            None => rep.score as int,
        },
    }
}

/// The reputation stored for `score` written at `current_ledger`.
pub open spec fn recorded_reputation(score: u32, current_ledger: u32) -> ReputationScore {
    ReputationScore {
        score: capped(score as int) as u32,
        last_activity_ledger: current_ledger as u64,
    }
}

proof fn lemma_decay_once_bounds(score: int, rate_bps: int)
    requires
        0 <= score,
        0 <= rate_bps,
    ensures
        0 <= decay_once(score, rate_bps) <= score,
{
    assert(score * rate_bps >= 0) by (nonlinear_arith)
        requires
            0 <= score,
            0 <= rate_bps,
    ;
}

/// Decay never raises a score and never takes it below zero.
pub proof fn lemma_decay_never_raises(score: int, rate_bps: int, periods: nat)
    requires
        0 <= score,
        0 <= rate_bps,
    ensures
        0 <= decay_periods(score, rate_bps, periods) <= score,
    decreases periods,
{
    if periods > 0 {
        lemma_decay_never_raises(score, rate_bps, (periods - 1) as nat);
        lemma_decay_once_bounds(decay_periods(score, rate_bps, (periods - 1) as nat), rate_bps);
    }
}

/// The longer a score decays, the lower (or equal) it gets.
pub proof fn lemma_decay_is_antitone(score: int, rate_bps: int, fewer: nat, more: nat)
    requires
        0 <= score,
        0 <= rate_bps,
        fewer <= more,
    ensures
        decay_periods(score, rate_bps, more) <= decay_periods(score, rate_bps, fewer),
    decreases more,
{
    if more > fewer {
        lemma_decay_is_antitone(score, rate_bps, fewer, (more - 1) as nat);
        lemma_decay_never_raises(score, rate_bps, (more - 1) as nat);
        lemma_decay_once_bounds(decay_periods(score, rate_bps, (more - 1) as nat), rate_bps);
    }
}

/// Once one period leaves a score unchanged, every later period does too.
proof fn lemma_decay_settles(score: int, rate_bps: int, settled: nat, periods: nat)
    requires
        settled <= periods,
        decay_once(decay_periods(score, rate_bps, settled), rate_bps) == decay_periods(
            score,
            rate_bps,
            settled,
        ),
    ensures
        decay_periods(score, rate_bps, periods) == decay_periods(score, rate_bps, settled),
    decreases periods,
{
    if periods > settled {
        lemma_decay_settles(score, rate_bps, settled, (periods - 1) as nat);
    }
}

/// A payer's score never rises while time passes without activity: at a later
/// ledger it is at most what it was at an earlier one.
pub proof fn lemma_score_never_rises_over_time(
    stored: Option<ReputationScore>,
    config: Option<Config>,
    earlier: u32,
    later: u32,
)
    requires
        earlier <= later,
    ensures
        effective_score(stored, config, later) <= effective_score(stored, config, earlier),
{
    if let Some(rep) = stored {
        if let Some(c) = config {
            let score = rep.score as int;
            let rate = c.decay_rate_bps as int;
            if decay_applies(rep, c, later) {
                let p_later = periods_elapsed(rep, c, later);
                lemma_decay_never_raises(score, rate, p_later);
                if decay_applies(rep, c, earlier) {
                    let p_earlier = periods_elapsed(rep, c, earlier);
                    vstd::arithmetic::div_mod::lemma_div_is_ordered(
                        ledgers_since(earlier, rep.last_activity_ledger),
                        ledgers_since(later, rep.last_activity_ledger),
                        c.decay_period_ledgers as int,
                    );
                    lemma_decay_is_antitone(score, rate, p_earlier, p_later);
                }
            }
        }
    }
}

/// A score written by `set_payer_score` and read back at the same ledger is
/// the written score, capped at `MAX_SCORE`: no decay has happened yet.
pub proof fn lemma_score_read_after_write(score: u32, current_ledger: u32, config: Option<Config>)
    ensures
        effective_score(Some(recorded_reputation(score, current_ledger)), config, current_ledger)
            == capped(score as int),
{
}

/// A score written by `set_payer_score` reads back, at any later ledger and
/// under any configuration, as a value between 0 and `MAX_SCORE`.
pub proof fn lemma_recorded_score_in_range(
    score: u32,
    written_at: u32,
    config: Option<Config>,
    read_at: u32,
)
    ensures
        0 <= effective_score(Some(recorded_reputation(score, written_at)), config, read_at)
            <= MAX_SCORE,
{
    let rep = recorded_reputation(score, written_at);
    if let Some(c) = config {
        if decay_applies(rep, c, read_at) {
            lemma_decay_never_raises(
                rep.score as int,
                c.decay_rate_bps as int,
                periods_elapsed(rep, c, read_at),
            );
        }
    }
}

/// Without a stored reputation the score is 50; without a configuration, or
/// before a whole decay period has elapsed, or with a zero rate or zero
/// period, the stored score is returned untouched.
pub proof fn lemma_when_no_decay_happens(
    stored: Option<ReputationScore>,
    config: Option<Config>,
    current_ledger: u32,
)
    ensures
        stored is None ==> effective_score(stored, config, current_ledger) == 50,
        stored is Some && config is None ==> effective_score(stored, config, current_ledger)
            == stored->0.score,
        ({
            match (stored, config) {
                (Some(rep), Some(c)) => (current_ledger < rep.last_activity_ledger
                    + c.decay_period_ledgers || c.decay_period_ledgers == 0 || c.decay_rate_bps
                    == 0) ==> effective_score(stored, config, current_ledger) == rep.score,
                _ => true,
            }
        }),
{
}

/// `set_payer_score` records the score capped at 100 and the current ledger.
pub proof fn lemma_recorded_reputation_fields(score: u32, current_ledger: u32)
    ensures
        recorded_reputation(score, current_ledger).score == (if score > 100 {
            100
        } else {
            score
        }),
        recorded_reputation(score, current_ledger).last_activity_ledger == current_ledger,
{
}

proof fn lemma_one_more_period(rep: ReputationScore, config: Config, earlier: u32, later: u32)
    requires
        config.decay_period_ledgers > 0,
        earlier >= rep.last_activity_ledger,
        later == earlier + config.decay_period_ledgers,
    ensures
        periods_elapsed(rep, config, later) == periods_elapsed(rep, config, earlier) + 1,
{
    let since = earlier - rep.last_activity_ledger;
    let d = config.decay_period_ledgers as int;
    vstd::arithmetic::div_mod::lemma_div_plus_one(since, d);
    vstd::arithmetic::div_mod::lemma_div_pos_is_pos(since, d);
    assert(ledgers_since(later, rep.last_activity_ledger) == d + since);
}

/// Once decay applies, waiting one more whole period removes
/// floor(s * decay_rate_bps / 10000) from the score `s` read before, never
/// going below zero: the decay rate is in basis points of the current score.
pub proof fn lemma_each_period_removes_rate_bps(rep: ReputationScore, config: Config, earlier: u32, later: u32)
    requires
        rep.score <= 100,
        config.decay_period_ledgers > 0,
        config.decay_rate_bps > 0,
        earlier >= rep.last_activity_ledger + config.decay_period_ledgers,
        later == earlier + config.decay_period_ledgers,
    ensures
        ({
            let before = effective_score(Some(rep), Some(config), earlier);
            let removed = before * config.decay_rate_bps / 10000;
            effective_score(Some(rep), Some(config), later) == if removed >= before {
                0
            } else {
                before - removed
            }
        }),
{
    lemma_one_more_period(rep, config, earlier, later);
    let n = periods_elapsed(rep, config, earlier);
    lemma_decay_never_raises(rep.score as int, config.decay_rate_bps as int, n);
    lemma_decay_never_raises(rep.score as int, config.decay_rate_bps as int, n + 1);
    assert(decay_periods(rep.score as int, config.decay_rate_bps as int, n + 1) == decay_once(
        decay_periods(rep.score as int, config.decay_rate_bps as int, n),
        config.decay_rate_bps as int,
    ));
}

/// The first whole period removes floor(score * decay_rate_bps / 10000)
/// from a stored score, never going below zero, and caps it at 100.
pub proof fn lemma_first_period_removes_rate_bps(rep: ReputationScore, config: Config, current_ledger: u32)
    requires
        config.decay_period_ledgers > 0,
        config.decay_rate_bps > 0,
        rep.last_activity_ledger + config.decay_period_ledgers <= current_ledger,
        current_ledger < rep.last_activity_ledger + 2 * config.decay_period_ledgers,
    ensures
        ({
            let removed = rep.score * config.decay_rate_bps / 10000;
            let decayed = if removed >= rep.score {
                0
            } else {
                rep.score - removed
            };
            effective_score(Some(rep), Some(config), current_ledger) == if decayed > 100 {
                100
            } else {
                decayed
            }
        }),
{
    let since = current_ledger - rep.last_activity_ledger;
    let d = config.decay_period_ledgers as int;
    vstd::arithmetic::div_mod::lemma_div_plus_one(since - d, d);
    vstd::arithmetic::div_mod::lemma_basic_div(since - d, d);
    assert(periods_elapsed(rep, config, current_ledger) == 1);
    assert(decay_periods(rep.score as int, config.decay_rate_bps as int, 1) == decay_once(
        decay_periods(rep.score as int, config.decay_rate_bps as int, 0),
        config.decay_rate_bps as int,
    ));
}

/// `score` after `periods` decay periods at `rate_bps`, computed step by step.
/// The steps stop early once a period leaves the score unchanged, since every
/// later period would leave it unchanged too.
fn decay_score(score: u32, rate_bps: u32, periods: u64) -> (decayed: u64)
    ensures
        decayed == decay_periods(score as int, rate_bps as int, periods as nat),
        decayed <= score,
{
    let rate: u64 = rate_bps as u64;
    let mut decayed: u64 = score as u64;
    let mut i: u64 = 0;
    let mut settled = false;
    while i < periods && !settled
        invariant
            i <= periods,
            rate == rate_bps,
            decayed <= score,
            decayed == decay_periods(score as int, rate_bps as int, i as nat),
            settled ==> decay_once(decayed as int, rate_bps as int) == decayed,
        decreases periods - i,
    {
        assert(decayed * rate <= 0xffff_ffff * 0xffff_ffffu64) by (nonlinear_arith)
            requires
                decayed <= 0xffff_ffffu64,
                rate <= 0xffff_ffffu64,
        ;
        let amount: u64 = (decayed * rate) / BPS_DENOMINATOR;
        if amount == 0 {
            settled = true;
        } else {
            decayed = decayed.saturating_sub(amount);
        }
        i = i + 1;
    }
    if settled {
        proof {
            lemma_decay_settles(score as int, rate_bps as int, i as nat, periods as nat);
        }
    }
    decayed
}

/// A payer's score at `current_ledger`, with lazy decay applied.
///
/// `stored` is the payer's stored reputation, `config` the stored
/// configuration (decay applies only when one is present).
pub fn get_payer_score(stored: Option<ReputationScore>, config: Option<Config>, current_ledger: u32) -> (score: u32)
    ensures
        score == effective_score(stored, config, current_ledger),
{
    match stored {
        None => DEFAULT_SCORE,
        Some(rep) => match config {
            Some(decay_config) => {
                let ledgers: u64 = (current_ledger as u64).saturating_sub(rep.last_activity_ledger);
                if ledgers >= decay_config.decay_period_ledgers
                    && decay_config.decay_period_ledgers > 0
                    && decay_config.decay_rate_bps > 0
                {
                    let periods: u64 = ledgers / decay_config.decay_period_ledgers;
                    let decayed = decay_score(rep.score, decay_config.decay_rate_bps, periods);
                    if decayed > MAX_SCORE as u64 {
                        MAX_SCORE
                    } else {
                        decayed as u32
                    }
                } else {
                    rep.score
                }
            },
            None => rep.score,
        },
    }
}

/// Records `score`, capped at `MAX_SCORE`, as the payer's reputation in
/// `slot`, with `current_ledger` as the ledger of the last activity.
pub fn set_payer_score(slot: &mut Option<ReputationScore>, score: u32, current_ledger: u32)
    ensures
        *final(slot) == Some(recorded_reputation(score, current_ledger)),
{
    let mut score = score;
    if score > MAX_SCORE {
        score = MAX_SCORE;
    }
    *slot = Some(ReputationScore { score, last_activity_ledger: current_ledger as u64 });
}

} // verus!
