use vstd::prelude::*;

verus! {

/// Number of entries of `table` that are at most `xp`.
pub open spec fn count_at_most(table: Seq<i32>, xp: int) -> nat
    decreases table.len(),
{
    if table.len() == 0 {
        0
    } else {
        count_at_most(table.drop_last(), xp) + if table.last() <= xp {
            1nat
        } else {
            0nat
        }
    }
}

/// Game rules that the editor enforces, supplied by the save-format library at startup:
/// the experience table and the maximum of every bounded slot.
#[derive(Debug, Clone)]
pub struct GameData {
    /// `required_xp[k]` is the experience a character needs to reach level `k + 1`.
    pub required_xp: Vec<i32>,
    /// Maximum level of each SDU slot of a save, indexed by `SaveSduSlot`.
    pub save_sdu_maximum: [i32; 8],
    /// Maximum amount of each ammo pool, indexed by `AmmoPool`.
    pub ammo_maximum: [i32; 7],
    /// Maximum level of each SDU slot of a profile, indexed by `ProfileSduSlot`.
    pub profile_sdu_maximum: [i32; 2],
    /// Highest science level a profile can hold.
    pub max_science_level: i32,
}

impl GameData {
    /// The experience table starts at zero and strictly increases; every maximum is
    /// non-negative.
    pub open spec fn wf(&self) -> bool {
        &&& 1 <= self.required_xp@.len() <= i32::MAX
        &&& self.required_xp@[0] == 0
        &&& forall|i: int, j: int|
            0 <= i < j < self.required_xp@.len() ==> self.required_xp@[i] < self.required_xp@[j]
        &&& forall|k: int| 0 <= k < 8 ==> self.save_sdu_maximum@[k] >= 0
        &&& forall|k: int| 0 <= k < 7 ==> self.ammo_maximum@[k] >= 0
        &&& forall|k: int| 0 <= k < 2 ==> self.profile_sdu_maximum@[k] >= 0
        &&& self.max_science_level >= 0
    }

    pub open spec fn max_level(&self) -> int {
        self.required_xp@.len() as int
    }

    /// Experience needed for `level`, for a level in `1..=max_level()`.
    pub open spec fn xp_for_level(&self, level: int) -> int {
        self.required_xp@[level - 1] as int
    }

    /// The highest level whose required experience is at most `xp`; level 1 when there
    /// is none (negative experience).
    pub open spec fn level_for_xp(&self, xp: int) -> int {
        let reached = count_at_most(self.required_xp@, xp);
        if reached == 0 {
            1
        } else {
            reached as int
        }
    }

    /// Experience for `level`, or `None` when the level is outside `1..=max_level()`.
    pub fn experience_for_level(&self, level: i32) -> (r: Option<i32>)
        requires
            self.wf(),
        ensures
            1 <= level <= self.max_level() ==> r == Some(self.xp_for_level(level as int) as i32),
            !(1 <= level <= self.max_level()) ==> r is None,
    {
        if level >= 1 && (level as usize) <= self.required_xp.len() {
            Some(self.required_xp[(level - 1) as usize])
        } else {
            None
        }
    }

    /// The level that `xp` experience reaches.
    pub fn experience_to_level(&self, xp: i32) -> (r: i32)
        requires
            self.wf(),
        ensures
            r as int == self.level_for_xp(xp as int),
            1 <= r <= self.max_level(),
    {
        let ghost table = self.required_xp@;
        let mut reached: usize = 0;
        let mut i: usize = 0;
        while i < self.required_xp.len()
            invariant
                table == self.required_xp@,
                i <= table.len(),
                reached <= i,
                reached as int == count_at_most(table.subrange(0, i as int), xp as int),
            decreases table.len() - i,
        {
            proof {
                assert(table.subrange(0, i as int + 1) =~= table.subrange(0, i as int).push(
                    table[i as int],
                ));
                assert(table.subrange(0, i as int + 1).drop_last() =~= table.subrange(
                    0,
                    i as int,
                ));
            }
            if self.required_xp[i] <= xp {
                reached = reached + 1;
            }
            i = i + 1;
        }
        proof {
            assert(table.subrange(0, table.len() as int) =~= table);
        }
        if reached == 0 {
            1
        } else {
            reached as i32
        }
    }
}

} // verus!
