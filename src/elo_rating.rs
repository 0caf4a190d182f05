//! # Elo rating
//!
//! The rating model: how one result, or a series of results, moves ratings.
//!
//! Scores and expected scores are fixed-point numbers: `SCALE` stands for
//! 1.0, so a win is `SCALE`, a draw `SCALE / 2` and a loss `0`. An expected
//! score is the logistic expectation `1 / (1 + 10^((r_b - r_a) / 400))`
//! expressed in the same unit; it is computed by the caller and handed in.
//! Every rating change is truncated toward zero.

use vstd::prelude::*;

use crate::k_factor::{fide_k, fide_k_spec, icc_k, icc_k_spec, uscf_k, uscf_k_spec, KFactorPolicy};

verus! {

/// A rating. It can be negative.
pub type EloScore = i64;

/// A score or an expected score, in units of `1 / SCALE`.
pub type EloCompeteResult = u64;

/// The fixed-point unit: this many units make a score of 1.0.
pub const SCALE: u64 = 1_000_000_000;

/// The score for a won game.
pub const WIN: EloCompeteResult = 1_000_000_000;

/// The score for a drawn game.
pub const DRAW: EloCompeteResult = 500_000_000;

/// The score for a lost game.
pub const LOSS: EloCompeteResult = 0;

/// Why a rating update was refused.
#[derive(Clone, Copy, Debug, PartialEq, Eq, Structural)]
pub enum EloError {
    /// A score or an expected score lies outside `[0, SCALE]`.
    ScoreOutOfRange,
    /// A new rating does not fit in an `EloScore`.
    RatingOverflow,
}

/// Integer division that truncates toward zero, as a cast from a float does.
pub open spec fn trunc_div(n: int, d: int) -> int {
    if n >= 0 {
        n / d
    } else {
        -((-n) / d)
    }
}

/// A score in `[0, 1]`.
pub open spec fn valid_score(s: int) -> bool {
    0 <= s <= SCALE
}

/// A value that an `EloScore` can hold.
pub open spec fn fits_rating(r: int) -> bool {
    i64::MIN <= r <= i64::MAX
}

/// `k * (score - expected)`, truncated toward zero.
pub open spec fn rating_change_spec(k: int, score: int, exp_score: int) -> int {
    trunc_div(k * (score - exp_score), SCALE as int)
}

/// The two new ratings after one match, where `s_a` is A's score and `e_a`
/// A's expected score; B's score and expectation are their complements.
pub open spec fn compete_spec(r_a: int, r_b: int, s_a: int, e_a: int, k_a: int, k_b: int) -> (int, int) {
    (
        r_a + rating_change_spec(k_a, s_a, e_a),
        r_b + rating_change_spec(k_b, SCALE - s_a, SCALE - e_a),
    )
}

/// The complement of a score: B's score when A scored `s`.
pub fn complement(s: EloCompeteResult) -> (c: EloCompeteResult)
    requires
        valid_score(s as int),
    ensures
        c + s == SCALE,
{
    SCALE - s
}

/// `k * (score - exp_score)` truncated toward zero; `None` where the product
/// is too large for the arithmetic, in which case the change is enormous.
fn rating_change(k: u64, score: u128, exp_score: u64) -> (d: Option<i128>)
    ensures
        score <= u64::MAX ==> d is Some,
        d matches Some(v) ==> v == rating_change_spec(k as int, score as int, exp_score as int),
        d matches Some(v) ==> -0x8_0000_0000_0000_0000_0000_0000 <= v <= 0x8_0000_0000_0000_0000_0000_0000,
        d is None ==> rating_change_spec(k as int, score as int, exp_score as int) >= 0x4_0000_0000_0000_0000_0000_0000,
{
    let scale: u128 = SCALE as u128;
    if score >= exp_score as u128 {
        let diff: u128 = score - exp_score as u128;
        proof {
            if score <= u64::MAX {
                assert(k * diff <= u64::MAX * u64::MAX) by (nonlinear_arith)
                    requires
                        k <= u64::MAX,
                        diff <= u64::MAX,
                ;
            }
        }
        match (k as u128).checked_mul(diff) {
            Some(p) => {
                assert(p / scale <= 0x8_0000_0000_0000_0000_0000_0000) by (nonlinear_arith)
                    requires
                        p <= u128::MAX,
                        scale == 1_000_000_000,
                ;
                Some((p / scale) as i128)
            },
            None => {
                let ghost n: int = k * diff;
                assert(n / (scale as int) >= 0x4_0000_0000_0000_0000_0000_0000) by (nonlinear_arith)
                    requires
                        n > u128::MAX,
                        scale == 1_000_000_000,
                ;
                None
            },
        }
    } else {
        let diff: u128 = exp_score as u128 - score;
        assert(k * diff <= u64::MAX * u64::MAX) by (nonlinear_arith)
            requires
                k <= u64::MAX,
                diff <= u64::MAX,
        ;
        let p: u128 = k as u128 * diff;
        assert(p / scale <= 0x8_0000_0000_0000_0000_0000_0000) by (nonlinear_arith)
            requires
                p <= u128::MAX,
                scale == 1_000_000_000,
        ;
        proof {
            assert(k * (score - exp_score) == -(k * diff)) by (nonlinear_arith)
                requires
                    diff == exp_score - score,
            ;
        }
        Some(-((p / scale) as i128))
    }
}

/// The result of one match as `compete` returns it, for valid inputs.
pub open spec fn compete_result(
    r_a: int,
    r_b: int,
    s_a: int,
    e_a: int,
    k_a: int,
    k_b: int,
) -> Result<(EloScore, EloScore), EloError> {
    if !valid_score(s_a) || !valid_score(e_a) {
        Err(EloError::ScoreOutOfRange)
    } else {
        let (new_a, new_b) = compete_spec(r_a, r_b, s_a, e_a, k_a, k_b);
        if fits_rating(new_a) && fits_rating(new_b) {
            Ok((new_a as EloScore, new_b as EloScore))
        } else {
            Err(EloError::RatingOverflow)
        }
    }
}

/// Calculates the new ratings of both players after a match.
///
/// `s_a` is A's score (`WIN`, `DRAW`, `LOSS` or anything in `[0, SCALE]`)
/// and `e_a` A's expected score against B; B's are their complements. Each
/// side moves by its K-factor times its surprise, truncated toward zero.
/// A score outside `[0, SCALE]` is refused, as is a rating that would not
/// fit. For a default behaviour set both K-factors to 32, or use
/// `compete_icc`.
pub fn compete(
    r_a: EloScore,
    r_b: EloScore,
    s_a: EloCompeteResult,
    e_a: EloCompeteResult,
    k_a: u64,
    k_b: u64,
) -> (res: Result<(EloScore, EloScore), EloError>)
    ensures
        res == compete_result(r_a as int, r_b as int, s_a as int, e_a as int, k_a as int, k_b as int),
{
    if s_a > SCALE || e_a > SCALE {
        return Err(EloError::ScoreOutOfRange);
    }
    let s_b = complement(s_a);
    let e_b = complement(e_a);
    let d_a = match rating_change(k_a, s_a as u128, e_a) {
        Some(d) => d,
        None => {
            return Err(EloError::RatingOverflow);
        },
    };
    let d_b = match rating_change(k_b, s_b as u128, e_b) {
        Some(d) => d,
        None => {
            return Err(EloError::RatingOverflow);
        },
    };
    let new_a: i128 = r_a as i128 + d_a;
    let new_b: i128 = r_b as i128 + d_b;
    if new_a < i64::MIN as i128 || new_a > i64::MAX as i128 || new_b < i64::MIN as i128 || new_b
        > i64::MAX as i128 {
        return Err(EloError::RatingOverflow);
    }
    Ok((new_a as EloScore, new_b as EloScore))
}

/// A match where both K-factors follow FIDE's rule.
pub fn compete_fide(
    r_a: EloScore,
    game_count_a: u64,
    r_b: EloScore,
    game_count_b: u64,
    s_a: EloCompeteResult,
    e_a: EloCompeteResult,
) -> (res: Result<(EloScore, EloScore), EloError>)
    ensures
        res == compete_result(
            r_a as int,
            r_b as int,
            s_a as int,
            e_a as int,
            fide_k_spec(r_a as int, game_count_a as int),
            fide_k_spec(r_b as int, game_count_b as int),
        ),
{
    let k_a = fide_k(r_a, game_count_a);
    let k_b = fide_k(r_b, game_count_b);
    compete(r_a, r_b, s_a, e_a, k_a, k_b)
}

/// A match where both K-factors follow the USCF's rule.
pub fn compete_uscf(
    r_a: EloScore,
    r_b: EloScore,
    s_a: EloCompeteResult,
    e_a: EloCompeteResult,
) -> (res: Result<(EloScore, EloScore), EloError>)
    ensures
        res == compete_result(
            r_a as int,
            r_b as int,
            s_a as int,
            e_a as int,
            uscf_k_spec(r_a as int),
            uscf_k_spec(r_b as int),
        ),
{
    let k_a = uscf_k(r_a);
    let k_b = uscf_k(r_b);
    compete(r_a, r_b, s_a, e_a, k_a, k_b)
}

/// A match where both K-factors follow the ICC's rule.
pub fn compete_icc(
    r_a: EloScore,
    r_b: EloScore,
    s_a: EloCompeteResult,
    e_a: EloCompeteResult,
) -> (res: Result<(EloScore, EloScore), EloError>)
    ensures
        res == compete_result(r_a as int, r_b as int, s_a as int, e_a as int, icc_k_spec(), icc_k_spec()),
{
    let k_a = icc_k();
    let k_b = icc_k();
    compete(r_a, r_b, s_a, e_a, k_a, k_b)
}

/// A match where each side's K-factor follows its own policy.
pub fn compete_with(
    r_a: EloScore,
    r_b: EloScore,
    s_a: EloCompeteResult,
    e_a: EloCompeteResult,
    policy_a: &KFactorPolicy,
    policy_b: &KFactorPolicy,
) -> (res: Result<(EloScore, EloScore), EloError>)
    ensures
        res == compete_result(
            r_a as int,
            r_b as int,
            s_a as int,
            e_a as int,
            policy_a.k_spec(),
            policy_b.k_spec(),
        ),
{
    let k_a = policy_a.k_factor();
    let k_b = policy_b.k_factor();
    compete(r_a, r_b, s_a, e_a, k_a, k_b)
}

/// The sum of the scores of a series of games.
pub open spec fn total_score(games: Seq<(EloScore, EloCompeteResult)>) -> int
    decreases games.len(),
{
    if games.len() == 0 {
        0
    } else {
        total_score(games.drop_last()) + games.last().1
    }
}

/// Every game of the series has a score in `[0, SCALE]`.
pub open spec fn all_scores_valid(games: Seq<(EloScore, EloCompeteResult)>) -> bool {
    forall|i: int| 0 <= i < games.len() ==> valid_score(#[trigger] games[i].1 as int)
}

/// The expectation that a series is measured against: that of the last
/// game, or 0 for an empty series.
pub open spec fn serial_expected(games: Seq<(EloScore, EloCompeteResult)>, last_expected: int) -> int {
    if games.len() == 0 {
        0
    } else {
        last_expected
    }
}

/// The result of `serial_compete`.
pub open spec fn serial_compete_result(
    r_a: int,
    games: Seq<(EloScore, EloCompeteResult)>,
    k_factor: int,
    last_expected: int,
) -> Result<EloScore, EloError> {
    if !all_scores_valid(games) || (games.len() > 0 && !valid_score(last_expected)) {
        Err(EloError::ScoreOutOfRange)
    } else {
        let new_a = r_a + rating_change_spec(
            k_factor,
            total_score(games),
            serial_expected(games, last_expected),
        );
        if fits_rating(new_a) {
            Ok(new_a as EloScore)
        } else {
            Err(EloError::RatingOverflow)
        }
    }
}

/// The opponent of the last game of a series, whose expectation
/// `serial_compete` takes.
pub fn last_opponent(games: &[(EloScore, EloCompeteResult)]) -> (r: Option<EloScore>)
    ensures
        r == (if games@.len() == 0 {
            None::<EloScore>
        } else {
            Some(games@.last().0)
        }),
{
    if games.len() == 0 {
        None
    } else {
        Some(games[games.len() - 1].0)
    }
}

/// Calculates the new rating of a player after a series of games, such as
/// a tournament: each game is the opponent's rating and the player's score.
///
/// The scores of all games are summed, but they are measured against one
/// expectation only: `last_expected`, the player's expected score against
/// the opponent of the last game (see `last_opponent`). An empty series
/// leaves the rating as it is, and `last_expected` is then not read.
pub fn serial_compete(
    r_a: EloScore,
    games: &[(EloScore, EloCompeteResult)],
    k_factor: u64,
    last_expected: EloCompeteResult,
) -> (res: Result<EloScore, EloError>)
    ensures
        res == serial_compete_result(r_a as int, games@, k_factor as int, last_expected as int),
{
    let mut score: u128 = 0;
    let mut i: usize = 0;
    while i < games.len()
        invariant
            0 <= i <= games@.len(),
            score == total_score(games@.subrange(0, i as int)),
            score <= i * SCALE,
            forall|j: int| 0 <= j < i ==> valid_score(#[trigger] games@[j].1 as int),
        decreases games@.len() - i,
    {
        let s = games[i].1;
        if s > SCALE {
            return Err(EloError::ScoreOutOfRange);
        }
        assert(games@.subrange(0, i + 1).drop_last() =~= games@.subrange(0, i as int));
        score = score + s as u128;
        i = i + 1;
    }
    assert(games@.subrange(0, games@.len() as int) =~= games@);
    let mut exp_score: u64 = 0;
    if games.len() > 0 {
        if last_expected > SCALE {
            return Err(EloError::ScoreOutOfRange);
        }
        exp_score = last_expected;
    }
    let d = match rating_change(k_factor, score, exp_score) {
        Some(d) => d,
        None => {
            return Err(EloError::RatingOverflow);
        },
    };
    let new_a: i128 = r_a as i128 + d;
    if new_a < i64::MIN as i128 || new_a > i64::MAX as i128 {
        return Err(EloError::RatingOverflow);
    }
    Ok(new_a as EloScore)
}

/// Truncation toward zero is odd: `trunc_div(-n, d) == -trunc_div(n, d)`.
proof fn lemma_trunc_div_neg(n: int, d: int)
    requires
        d > 0,
    ensures
        trunc_div(-n, d) == -trunc_div(n, d),
        n == 0 ==> trunc_div(n, d) == 0,
        n >= 0 ==> trunc_div(n, d) >= 0,
        n >= d ==> trunc_div(n, d) >= 1,
{
    if n == 0 {
        assert(0int / d == 0) by (nonlinear_arith)
            requires
                d > 0,
        ;
    }
    if n >= 0 {
        assert(n / d >= 0) by (nonlinear_arith)
            requires
                n >= 0,
                d > 0,
        ;
    }
    if n >= d {
        assert(n / d >= 1) by (nonlinear_arith)
            requires
                n >= d,
                d > 0,
        ;
    }
}

/// With equal K-factors a match moves no rating points in or out: what one
/// side gains, the other loses, because the two sides' scores and the two
/// sides' expected scores each sum to 1.
pub proof fn lemma_equal_k_is_zero_sum(r_a: int, r_b: int, s_a: int, e_a: int, k: int)
    ensures
        ({
            let (new_a, new_b) = compete_spec(r_a, r_b, s_a, e_a, k, k);
            (new_a - r_a) + (new_b - r_b) == 0
        }),
{
    let n = k * (s_a - e_a);
    assert(k * ((SCALE - s_a) - (SCALE - e_a)) == -n) by (nonlinear_arith)
        requires
            n == k * (s_a - e_a),
    ;
    lemma_trunc_div_neg(n, SCALE as int);
}

/// A result exactly as expected leaves both ratings unchanged, whatever the
/// K-factor.
pub proof fn lemma_expected_result_keeps_ratings(r_a: EloScore, r_b: EloScore, e_a: EloCompeteResult, k: u64)
    requires
        valid_score(e_a as int),
    ensures
        compete_spec(r_a as int, r_b as int, e_a as int, e_a as int, k as int, k as int) == (
        r_a as int, r_b as int),
        compete_result(r_a as int, r_b as int, e_a as int, e_a as int, k as int, k as int) == Ok::<
            (EloScore, EloScore),
            EloError,
        >((r_a, r_b)),
{
    assert(k * (e_a - e_a) == 0) by (nonlinear_arith);
    assert(k * ((SCALE - e_a) - (SCALE - e_a)) == 0) by (nonlinear_arith);
    lemma_trunc_div_neg(0, SCALE as int);
}

/// A side that does at least as well as expected does not lose rating, and
/// its opponent does not gain; a side that does worse than expected does not
/// gain, and its opponent does not lose.
pub proof fn lemma_surprise_direction(r_a: int, r_b: int, s_a: int, e_a: int, k_a: int, k_b: int)
    requires
        k_a >= 0,
        k_b >= 0,
    ensures
        ({
            let (new_a, new_b) = compete_spec(r_a, r_b, s_a, e_a, k_a, k_b);
            &&& s_a >= e_a ==> new_a >= r_a && new_b <= r_b
            &&& s_a <= e_a ==> new_a <= r_a && new_b >= r_b
        }),
{
    let n_a = k_a * (s_a - e_a);
    let n_b = k_b * ((SCALE - s_a) - (SCALE - e_a));
    if s_a >= e_a {
        assert(n_a >= 0) by (nonlinear_arith)
            requires
                n_a == k_a * (s_a - e_a),
                k_a >= 0,
                s_a >= e_a,
        ;
        assert(-n_b >= 0) by (nonlinear_arith)
            requires
                n_b == k_b * ((SCALE - s_a) - (SCALE - e_a)),
                k_b >= 0,
                s_a >= e_a,
        ;
    }
    if s_a <= e_a {
        assert(-n_a >= 0) by (nonlinear_arith)
            requires
                n_a == k_a * (s_a - e_a),
                k_a >= 0,
                s_a <= e_a,
        ;
        assert(n_b >= 0) by (nonlinear_arith)
            requires
                n_b == k_b * ((SCALE - s_a) - (SCALE - e_a)),
                k_b >= 0,
                s_a <= e_a,
        ;
    }
    lemma_trunc_div_neg(n_a, SCALE as int);
    lemma_trunc_div_neg(n_b, SCALE as int);
}

/// An update is no fixed point: when A beats B and the K-factor makes the win
/// worth at least a point at each step, feeding the new ratings into a second
/// win moves A up and B down again.
pub proof fn lemma_repeated_wins_keep_moving(r_a: int, r_b: int, e_1: int, e_2: int, k: int)
    requires
        k * (SCALE - e_1) >= SCALE,
        k * (SCALE - e_2) >= SCALE,
    ensures
        ({
            let (a_1, b_1) = compete_spec(r_a, r_b, WIN as int, e_1, k, k);
            let (a_2, b_2) = compete_spec(a_1, b_1, WIN as int, e_2, k, k);
            &&& r_a < a_1 < a_2
            &&& r_b > b_1 > b_2
        }),
{
    lemma_trunc_div_neg(k * (SCALE - e_1), SCALE as int);
    lemma_trunc_div_neg(k * (SCALE - e_2), SCALE as int);
    lemma_equal_k_is_zero_sum(r_a, r_b, WIN as int, e_1, k);
    let (a_1, b_1) = compete_spec(r_a, r_b, WIN as int, e_1, k, k);
    lemma_equal_k_is_zero_sum(a_1, b_1, WIN as int, e_2, k);
}

/// An empty series leaves the rating as it is.
pub proof fn lemma_empty_series_is_no_op(r_a: EloScore, k_factor: u64, last_expected: EloCompeteResult)
    ensures
        serial_compete_result(
            r_a as int,
            Seq::<(EloScore, EloCompeteResult)>::empty(),
            k_factor as int,
            last_expected as int,
        ) == Ok::<EloScore, EloError>(r_a),
{
    assert(k_factor * (0 - 0) == 0) by (nonlinear_arith);
    lemma_trunc_div_neg(0, SCALE as int);
}

} // verus!
