//! The enemy chase behaviour.
//!
//! A utility-AI pair: a scorer that fires when some player ship comes within
//! the chaser's proximity radius, and an action state machine that, while
//! executing, steers toward the player; a cancelled chase transitions to
//! failure rather than forcibly halting motion.

use vstd::prelude::*;

use crate::vec3i::Vec3i;

verus! {

/// The largest proximity radius a chaser may be configured with; squares of
/// radii inside it stay exact in `i64`.
pub const PROXIMITY_LIMIT: i64 = 1_000_000;

/// An enemy that chases the player when close enough.
#[derive(PartialEq, Eq, Structural, Clone, Copy, Debug)]
pub struct PlayerChaser {
    pub max_proximity: i64,
    pub los: bool,
}

impl PlayerChaser {
    pub open spec fn wf(self) -> bool {
        0 <= self.max_proximity <= PROXIMITY_LIMIT
    }
}

/// The lifecycle of one chase action, as the behaviour engine drives it.
#[derive(PartialEq, Eq, Structural, Clone, Copy, Debug)]
pub enum ChaseState {
    Init,
    Requested,
    Executing,
    Cancelled,
    Success,
    Failure,
}

/// A player within the radius: strictly closer than the configured maximum
/// proximity, by squared distance.
pub open spec fn player_in_range_spec(enemy: Vec3i, player: Vec3i, chaser: PlayerChaser) -> bool {
    Vec3i::dist_sq_spec(player, enemy) < chaser.max_proximity * chaser.max_proximity
}

/// Scores the chase: full score exactly when some player ship is within the
/// chaser's proximity radius.
pub fn chase_scorer_system(enemy: Vec3i, players: &Vec<Vec3i>, chaser: &PlayerChaser) -> (score:
    bool)
    requires
        enemy.in_bounds(),
        chaser.wf(),
        forall|i: int| 0 <= i < players@.len() ==> (#[trigger] players@[i]).in_bounds(),
    ensures
        score <==> exists|i: int|
            0 <= i < players@.len() && player_in_range_spec(enemy, #[trigger] players@[i], *chaser),
{
    let mut i: usize = 0;
    while i < players.len()
        invariant
            i <= players@.len(),
            enemy.in_bounds(),
            chaser.wf(),
            forall|j: int| 0 <= j < players@.len() ==> (#[trigger] players@[j]).in_bounds(),
            forall|j: int|
                0 <= j < i ==> !player_in_range_spec(enemy, #[trigger] players@[j], *chaser),
        decreases players@.len() - i,
    {
        proof {
            crate::vec3i::lemma_square_bound(chaser.max_proximity as int, PROXIMITY_LIMIT as int);
        }
        let d = players[i].dist_sq(enemy);
        if d < chaser.max_proximity * chaser.max_proximity {
            return true;
        }
        i = i + 1;
    }
    false
}

/// One tick of the chase action: a requested chase starts executing, an
/// executing chase keeps executing and steers toward the player by the
/// difference of their positions, and a cancelled chase fails. Other states
/// are left alone, and only an executing chase steers.
pub fn chase_action_system(state: ChaseState, enemy: Vec3i, player: Option<Vec3i>) -> (r: (
    ChaseState,
    Option<Vec3i>,
))
    requires
        enemy.in_bounds(),
        player matches Some(p) ==> p.in_bounds(),
        state is Executing ==> player is Some,
    ensures
        r.0 == chase_next_state(state),
        state is Executing ==> r.1 == Some(Vec3i::sub_spec(player->Some_0, enemy)),
        !(state is Executing) ==> r.1 is None,
{
    match state {
        ChaseState::Requested => (ChaseState::Executing, None),
        ChaseState::Executing => {
            let p = match player {
                Some(p) => p,
                None => {
                    proof {
                        assert(false);
                    }
                    enemy
                },
            };
            (ChaseState::Executing, Some(p.sub(enemy)))
        },
        ChaseState::Cancelled => (ChaseState::Failure, None),
        _ => (state, None),
    }
}

/// The state the chase action moves to: a requested chase starts executing,
/// an executing chase keeps executing, a cancelled chase fails, and every
/// other state is left alone.
pub open spec fn chase_next_state(state: ChaseState) -> ChaseState {
    match state {
        ChaseState::Requested => ChaseState::Executing,
        ChaseState::Executing => ChaseState::Executing,
        ChaseState::Cancelled => ChaseState::Failure,
        _ => state,
    }
}

} // verus!
