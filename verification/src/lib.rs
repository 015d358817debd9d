//! Simulation core of a top-down arena shooter.
//!
//! A player craft and waves of enemies exchange projectile and beam fire
//! while drifting under simple physics inside a bounded vertical corridor.
//! All quantities are fixed-point integers (millionths), so every system
//! here — stat modifiers, weapon cooldowns, collision resolution, the
//! heat-driven wave spawner, the hit-stun state machine — is exact and
//! carries a verified contract.

pub mod ai;
pub mod body;
pub mod bullet;
pub mod combo;
pub mod config;
pub mod enemy;
pub mod engines;
pub mod events;
pub mod fp;
pub mod gamestate;
pub mod heat;
pub mod hitstun;
pub mod hp;
pub mod laser;
pub mod lifetime;
pub mod modifier;
pub mod object;
pub mod physics;
pub mod player;
pub mod rng;
pub mod score;
pub mod sim;
pub mod stats;
pub mod timer;
pub mod vec2;
pub mod vertical_bound;
pub mod weapon;
