use vstd::prelude::*;

verus! {

/// A field of the pending edits that lies outside the range the game accepts.
#[derive(Debug, Clone, Copy, PartialEq, Eq, Structural)]
pub enum ValidationError {
    LevelOutOfRange,
    ExperienceOutOfRange,
    AbilityPointsOutOfRange,
    SduOutOfRange,
    AmmoOutOfRange,
    MoneyOutOfRange,
    EridiumOutOfRange,
    GuardianRankTokensOutOfRange,
    ScienceLevelOutOfRange,
    ScienceTokensOutOfRange,
    GuardianRewardOutOfRange,
    KeysOutOfRange,
}

impl ValidationError {
    /// Human-readable cause, shown in the failure notification.
    pub fn description(&self) -> &'static str {
        match self {
            ValidationError::LevelOutOfRange => "level is outside the levels the game knows",
            ValidationError::ExperienceOutOfRange => "experience points are out of range",
            ValidationError::AbilityPointsOutOfRange => "ability points cannot be negative",
            ValidationError::SduOutOfRange => "an SDU level is out of range",
            ValidationError::AmmoOutOfRange => "an ammo amount is out of range",
            ValidationError::MoneyOutOfRange => "money cannot be negative",
            ValidationError::EridiumOutOfRange => "eridium cannot be negative",
            ValidationError::GuardianRankTokensOutOfRange => "guardian rank tokens cannot be negative",
            ValidationError::ScienceLevelOutOfRange => "science level is out of range",
            ValidationError::ScienceTokensOutOfRange => "science tokens cannot be negative",
            ValidationError::GuardianRewardOutOfRange => "a guardian reward cannot be negative",
            ValidationError::KeysOutOfRange => "a key count cannot be negative",
        }
    }
}

/// Every value lies in `0..=maximum` for its position.
pub open spec fn within_maximum(values: Seq<i32>, maximum: Seq<i32>) -> bool {
    forall|k: int| 0 <= k < values.len() ==> 0 <= #[trigger] values[k] <= maximum[k]
}

/// Every value is non-negative.
pub open spec fn all_non_negative(values: Seq<i32>) -> bool {
    forall|k: int| 0 <= k < values.len() ==> 0 <= #[trigger] values[k]
}

pub fn check_within_maximum<const N: usize>(values: &[i32; N], maximum: &[i32; N]) -> (r: bool)
    ensures
        r == within_maximum(values@, maximum@),
{
    let mut i: usize = 0;
    while i < N
        invariant
            i <= N,
            values@.len() == N,
            maximum@.len() == N,
            forall|k: int| 0 <= k < i ==> 0 <= #[trigger] values@[k] <= maximum@[k],
        decreases N - i,
    {
        if values[i] < 0 || values[i] > maximum[i] {
            return false;
        }
        i = i + 1;
    }
    true
}

pub fn check_non_negative<const N: usize>(values: &[i32; N]) -> (r: bool)
    ensures
        r == all_non_negative(values@),
{
    let mut i: usize = 0;
    while i < N
        invariant
            i <= N,
            values@.len() == N,
            forall|k: int| 0 <= k < i ==> 0 <= #[trigger] values@[k],
        decreases N - i,
    {
        if values[i] < 0 {
            return false;
        }
        i = i + 1;
    }
    true
}

/// Whether two arrays hold the same values.
pub fn same_values<const N: usize>(a: &[i32; N], b: &[i32; N]) -> (r: bool)
    ensures
        r == (a@ == b@),
{
    let mut i: usize = 0;
    while i < N
        invariant
            i <= N,
            a@.len() == N,
            b@.len() == N,
            forall|k: int| 0 <= k < i ==> a@[k] == b@[k],
        decreases N - i,
    {
        if a[i] != b[i] {
            return false;
        }
        i = i + 1;
    }
    proof {
        assert(a@ =~= b@);
    }
    true
}

} // verus!
