//! The high-level game state graph and the game-ending wind-down.

use vstd::prelude::*;

use crate::object::{Beam, Enemy, Projectile};
use crate::timer::{ticked_elapsed, SimTimer};

verus! {

#[derive(Clone, Copy, PartialEq, Eq, Structural, Debug)]
pub enum GameState {
    Loading,
    MainMenu,
    InHanger,
    InGame,
    HitStun,
    Paused,
    GameEnding,
    Quitting,
}

/// The edges of the state graph: which transition requests are legal.
pub open spec fn can_transition(from: GameState, to: GameState) -> bool {
    match from {
        GameState::Loading => to == GameState::MainMenu,
        GameState::MainMenu => to == GameState::InHanger || to == GameState::InGame,
        GameState::InHanger => to == GameState::InGame || to == GameState::MainMenu,
        GameState::InGame => to == GameState::GameEnding || to == GameState::HitStun,
        GameState::HitStun => to == GameState::InGame,
        GameState::Paused => to == GameState::GameEnding || to == GameState::Quitting,
        GameState::GameEnding => to == GameState::MainMenu || to == GameState::InHanger,
        GameState::Quitting => false,
    }
}

/// Whether core gameplay systems run this tick: only while in play and
/// not frozen by hit-stun.
pub fn in_game_no_hitstun(state: &GameState, hitstun: bool) -> (r: bool)
    ensures
        r == (*state == GameState::InGame && !hitstun),
{
    match state {
        GameState::InGame => !hitstun,
        _ => false,
    }
}

/// One tick of the game-ending wind-down: every ephemeral combat
/// object — enemies, projectiles and beams — despawns, and when the
/// wind-down timer completes it resets and the session returns to the
/// main menu.
pub fn game_ending_system(
    timer: &mut SimTimer,
    enemies: &mut Vec<Enemy>,
    bullets: &mut Vec<Projectile>,
    beams: &mut Vec<Beam>,
    dt_ms: u64,
) -> (next: Option<GameState>)
    requires
        old(timer).wf(),
    ensures
        final(timer).wf(),
        final(enemies)@.len() == 0,
        final(bullets)@.len() == 0,
        final(beams)@.len() == 0,
        ({
            let advanced = ticked_elapsed(*old(timer), dt_ms);
            if advanced >= old(timer).duration_ms {
                next == Some(GameState::MainMenu) && final(timer).elapsed_ms == 0
                    && final(timer).duration_ms == old(timer).duration_ms
            } else {
                next is None && final(timer).elapsed_ms == advanced && final(timer).duration_ms
                    == old(timer).duration_ms
            }
        }),
{
    timer.tick(dt_ms);
    enemies.clear();
    bullets.clear();
    beams.clear();
    if timer.finished() {
        timer.reset();
        Some(GameState::MainMenu)
    } else {
        None
    }
}

} // verus!
