//! Free-roaming enemies: while fewer than two are alive, a new one appears
//! at a random spot well inside the window.

use crate::geometry::{Vec2i, COORD_LIMIT};
use crate::{Game, WinSize};
use rand::Rng;
use vstd::prelude::*;

verus! {

/// An enemy unit.
#[derive(Clone, Copy, PartialEq, Eq, Structural, Debug)]
pub struct Enemy;

/// Everything the host engine needs to spawn one roaming enemy.
#[derive(Clone, Copy, PartialEq, Eq, Structural, Debug)]
pub struct EnemySpawn {
    pub pos: Vec2i,
}

/// Relies on rand's `Rng::gen_range` over a half-open integer range: the
/// result lies in the range. The range must not be empty, or the call
/// panics.
#[verifier::external_body]
fn random_in_range(lo: i64, hi: i64) -> (r: i64)
    requires
        lo < hi,
    ensures
        lo <= r < hi,
{
    rand::thread_rng().gen_range(lo..hi)
}

/// The respawn system: while fewer than two enemies are counted, one more
/// appears somewhere at least 100 pixels inside the window edges (exactly
/// where is up to chance) and the count rises by one. With two or more
/// counted, nothing happens.
pub fn enemy_spawn(game: &mut Game, win_size: &WinSize) -> (spawn: Option<EnemySpawn>)
    requires
        0 <= win_size.w <= COORD_LIMIT,
        0 <= win_size.h <= COORD_LIMIT,
        win_size.w / 2 - 100_000 > 0,
        win_size.h / 2 - 100_000 > 0,
    ensures
        spawn is Some <==> old(game).active_enemies < 2,
        old(game).active_enemies < 2 ==> {
            &&& final(game).active_enemies == old(game).active_enemies + 1
            &&& -(win_size.w / 2 - 100_000) <= spawn.unwrap().pos.x < win_size.w / 2 - 100_000
            &&& -(win_size.h / 2 - 100_000) <= spawn.unwrap().pos.y < win_size.h / 2 - 100_000
        },
        old(game).active_enemies >= 2 ==> *final(game) == *old(game),
{
    if game.active_enemies < 2 {
        let w_span: i64 = win_size.w / 2 - 100_000;
        let h_span: i64 = win_size.h / 2 - 100_000;
        let x = random_in_range(-w_span, w_span);
        let y = random_in_range(-h_span, h_span);
        game.active_enemies = game.active_enemies + 1;
        Some(EnemySpawn { pos: Vec2i { x, y } })
    } else {
        None
    }
}

} // verus!
