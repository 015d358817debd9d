//! Score bookkeeping.

use vstd::prelude::*;

use crate::combo::COMBO_MULTIPLIER_CAP;
use crate::fp::SCALE;

verus! {

/// Running score for the session.
#[derive(Clone, Copy, PartialEq, Eq, Structural, Debug)]
pub struct ScoreTracker {
    pub score: u64,
}

/// The points one kill is worth: the enemy's base score scaled by the
/// fixed-point combo multiplier, truncated to whole points.
pub open spec fn kill_points(base_score: u32, multiplier: i64) -> int {
    (base_score * multiplier) / (SCALE as int)
}

/// A tracker after crediting one kill, saturating at the score
/// type's maximum.
pub open spec fn score_credited(s: ScoreTracker, base_score: u32, multiplier: i64) -> ScoreTracker {
    ScoreTracker {
        score: if s.score + kill_points(base_score, multiplier) <= u64::MAX {
            (s.score + kill_points(base_score, multiplier)) as u64
        } else {
            u64::MAX
        },
    }
}

/// A tracker after a whole tick's enemy-death events, oldest first,
/// all at one multiplier.
pub open spec fn score_after_deaths(
    s: ScoreTracker,
    events: Seq<crate::events::EnemyDeath>,
    multiplier: i64,
) -> ScoreTracker
    decreases events.len(),
{
    if events.len() == 0 {
        s
    } else {
        score_credited(score_after_deaths(s, events.drop_last(), multiplier), events.last().score, multiplier)
    }
}

/// Drain a tick's enemy-death events into the score, each kill scaled
/// by the combo multiplier in force.
pub fn score_system(
    score: &mut ScoreTracker,
    events: &Vec<crate::events::EnemyDeath>,
    combo: &crate::combo::ComboCounter,
)
    ensures
        *final(score) == score_after_deaths(*old(score), events@, multiplier_spec_of(combo)),
{
    let ghost evs = events@;
    let multiplier = combo.multiplier();
    let n = events.len();
    let mut i: usize = 0;
    while i < n
        invariant
            n == evs.len(),
            i <= n,
            events@ == evs,
            SCALE <= multiplier <= COMBO_MULTIPLIER_CAP,
            multiplier == multiplier_spec_of(combo),
            *score == score_after_deaths(*old(score), evs.subrange(0, i as int), multiplier),
        decreases n - i,
    {
        let ghost prefix = evs.subrange(0, i as int);
        let ghost prefix1 = evs.subrange(0, i as int + 1);
        proof {
            assert(prefix1.drop_last() =~= prefix);
            assert(prefix1.last() == evs[i as int]);
        }
        score.on_enemy_death(events[i].score, multiplier);
        i = i + 1;
    }
    proof {
        assert(evs.subrange(0, n as int) =~= evs);
    }
}

/// The fixed-point multiplier a combo grants, as the score system
/// reads it.
pub open spec fn multiplier_spec_of(combo: &crate::combo::ComboCounter) -> i64 {
    crate::combo::multiplier_spec(combo.count) as i64
}

impl ScoreTracker {
    pub fn new() -> (r: ScoreTracker)
        ensures
            r.score == 0,
    {
        ScoreTracker { score: 0 }
    }

    /// Credit one kill at the current combo multiplier, saturating at
    /// the score type's maximum.
    pub fn on_enemy_death(&mut self, base_score: u32, multiplier: i64)
        requires
            0 <= multiplier <= COMBO_MULTIPLIER_CAP,
        ensures
            *final(self) == score_credited(*old(self), base_score, multiplier),
    {
        proof {
            assert(0 <= (base_score as int) * (multiplier as int)
                <= (u32::MAX as int) * (COMBO_MULTIPLIER_CAP as int)) by (nonlinear_arith)
                requires
                    0 <= base_score as int <= u32::MAX as int,
                    0 <= multiplier as int <= COMBO_MULTIPLIER_CAP as int;
            vstd::arithmetic::div_mod::lemma_div_pos_is_pos(
                (base_score as int) * (multiplier as int), SCALE as int);
            vstd::arithmetic::div_mod::lemma_div_is_ordered(
                (base_score as int) * (multiplier as int),
                (u32::MAX as int) * (COMBO_MULTIPLIER_CAP as int),
                SCALE as int);
        }
        let gained: u64 = ((base_score as u64) * (multiplier as u64)) / (SCALE as u64);
        if gained <= u64::MAX - self.score {
            self.score = self.score + gained;
        } else {
            self.score = u64::MAX;
        }
    }
}

} // verus!
