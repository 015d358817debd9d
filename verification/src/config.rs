//! The session's tuning snapshot, resolved at start and immutable for
//! the whole session.

use vstd::prelude::*;

use crate::fp::SCALE;
use crate::vec2::COORD_LIMIT;

verus! {

#[derive(Clone, Copy, PartialEq, Eq, Structural, Debug)]
pub struct GameConfig {
    pub vertical_bounds_rotation_speed: i64,
    pub upper_bound: i64,
    pub upper_repulsion_strength: i64,
    pub upper_hp_drain: i64,
    pub lower_bound: i64,
    pub lower_repulsion_strength: i64,
    pub lower_hp_drain: i64,
    pub superboost_acceleration_modifier: i64,
    pub superboost_turn_speed_modifier: i64,
    pub hitstun_time_ms: u64,
}

impl GameConfig {
    /// Ranges under which every system that reads the configuration is
    /// defined.
    pub open spec fn wf(self) -> bool {
        &&& 0 <= self.vertical_bounds_rotation_speed <= 100 * SCALE
        &&& -COORD_LIMIT <= self.lower_bound <= self.upper_bound <= COORD_LIMIT
        &&& 0 <= self.upper_repulsion_strength <= 1000 * SCALE
        &&& 0 <= self.lower_repulsion_strength <= 1000 * SCALE
        &&& 0 <= self.upper_hp_drain <= 1000 * SCALE
        &&& 0 <= self.lower_hp_drain <= 1000 * SCALE
        &&& 0 <= self.superboost_acceleration_modifier <= 100 * SCALE
        &&& 0 <= self.superboost_turn_speed_modifier <= 100 * SCALE
    }

    /// The stock tuning values.
    pub open spec fn stock() -> GameConfig {
        GameConfig {
            vertical_bounds_rotation_speed: 3_000_000i64,
            upper_bound: 500_000_000i64,
            upper_repulsion_strength: 8_100_000i64,
            upper_hp_drain: 7_000_000i64,
            lower_bound: -500_000_000i64,
            lower_repulsion_strength: 16_100_000i64,
            lower_hp_drain: 10_000_000i64,
            superboost_acceleration_modifier: 2_000_000i64,
            superboost_turn_speed_modifier: 333_300i64,
            hitstun_time_ms: 10u64,
        }
    }
}

impl Default for GameConfig {
    fn default() -> (r: GameConfig)
        ensures
            r == GameConfig::stock(),
            r.wf(),
    {
        GameConfig {
            vertical_bounds_rotation_speed: 3_000_000,
            upper_bound: 500_000_000,
            upper_repulsion_strength: 8_100_000,
            upper_hp_drain: 7_000_000,
            lower_bound: -500_000_000,
            lower_repulsion_strength: 16_100_000,
            lower_hp_drain: 10_000_000,
            superboost_acceleration_modifier: 2_000_000,
            superboost_turn_speed_modifier: 333_300,
            hitstun_time_ms: 10,
        }
    }
}

} // verus!
