//! K-factor policies: how strongly a single result moves a rating.
//!
//! Each policy is a fixed table over half-open intervals of the rating and,
//! for FIDE, of the number of games played.

use vstd::prelude::*;

use crate::elo_rating::EloScore;

verus! {

/// FIDE's K-factor, as a mathematical function.
pub open spec fn fide_k_spec(rating: int, game_counts: int) -> int {
    if game_counts < 30 {
        40
    } else if rating < 2400 {
        20
    } else {
        10
    }
}

/// USCF's K-factor, as a mathematical function.
pub open spec fn uscf_k_spec(rating: int) -> int {
    if rating < 2100 {
        32
    } else if rating < 2400 {
        24
    } else {
        16
    }
}

/// The ICC's single K-factor.
pub open spec fn icc_k_spec() -> int {
    32
}

/// FIDE calculates its K-factor from the number of games played and the
/// rating: newcomers move fast, established masters slowly.
///
/// The age criterion that FIDE also applies is left out.
pub fn fide_k(rating: EloScore, game_counts: u64) -> (k: u64)
    ensures
        k == fide_k_spec(rating as int, game_counts as int),
{
    if game_counts < 30 {
        40
    } else if rating < 2400 {
        20
    } else {
        10
    }
}

/// The USCF uses three K-factors, by rating band.
pub fn uscf_k(rating: EloScore) -> (k: u64)
    ensures
        k == uscf_k_spec(rating as int),
{
    if rating < 2100 {
        32
    } else if rating < 2400 {
        24
    } else {
        16
    }
}

/// The ICC uses one K-factor for everybody.
pub fn icc_k() -> (k: u64)
    ensures
        k == icc_k_spec(),
{
    32
}

/// A K-factor policy, carrying the inputs that its rule reads.
#[derive(Clone, Copy, Debug, PartialEq, Eq, Structural)]
pub enum KFactorPolicy {
    Fide { rating: EloScore, game_counts: u64 },
    Uscf { rating: EloScore },
    Icc,
}

impl KFactorPolicy {
    /// The K-factor that this policy gives, as a mathematical function.
    pub open spec fn k_spec(self) -> int {
        match self {
            KFactorPolicy::Fide { rating, game_counts } => fide_k_spec(rating as int, game_counts as int),
            KFactorPolicy::Uscf { rating } => uscf_k_spec(rating as int),
            KFactorPolicy::Icc => icc_k_spec(),
        }
    }

    /// The K-factor that this policy gives.
    pub fn k_factor(&self) -> (k: u64)
        ensures
            k == self.k_spec(),
    {
        match *self {
            KFactorPolicy::Fide { rating, game_counts } => fide_k(rating, game_counts),
            KFactorPolicy::Uscf { rating } => uscf_k(rating),
            KFactorPolicy::Icc => icc_k(),
        }
    }
}

} // verus!
