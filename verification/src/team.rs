//! Faction tags and the friendly-fire rule.

use vstd::prelude::*;

verus! {

/// A coarse faction tag used to gate damage between entities.
///
/// `Neutral` marks an entity that belongs to no faction; such an entity is
/// always fair game, and its own attacks are gated by nothing.
#[derive(PartialEq, Eq, Structural, Clone, Copy, Debug)]
pub enum Team {
    Neutral,
    Player,
    Enemy,
}

impl Team {
    /// The friendly-fire rule: an attacker may damage a target unless both
    /// carry the same non-`Neutral` team. Entities with no team, in either role,
    /// can always take part in damage.
    pub fn can_damage(&self, other: &Team) -> (r: bool)
        ensures
            r == Self::can_damage_spec(*self, *other),
    {
        if *self == Team::Neutral || *other == Team::Neutral {
            return true;
        }

        self != other
    }

    /// What `can_damage` decides: true unless the two teams are equal and
    /// neither is `Neutral`.
    pub open spec fn can_damage_spec(attacker: Team, target: Team) -> bool {
        attacker is Neutral || target is Neutral || attacker != target
    }
}

impl Default for Team {
    fn default() -> (r: Self)
        ensures
            r is Neutral,
    {
        Team::Neutral
    }
}

/// The damage gate is symmetric: swapping attacker and target never changes
/// whether damage is allowed.
pub proof fn lemma_can_damage_symmetric(a: Team, b: Team)
    ensures
        Team::can_damage_spec(a, b) == Team::can_damage_spec(b, a),
{
}

/// An entity with no team can always be damaged, and can damage anything.
pub proof fn lemma_neutral_is_always_damageable(t: Team)
    ensures
        Team::can_damage_spec(Team::Neutral, t),
        Team::can_damage_spec(t, Team::Neutral),
{
}

/// Entities of one non-`Neutral` team never damage each other, while entities of
/// two distinct non-`Neutral` teams always can.
pub proof fn lemma_distinct_teams(a: Team, b: Team)
    requires
        a !is Neutral,
        b !is Neutral,
    ensures
        Team::can_damage_spec(a, b) == (a != b),
{
}

} // verus!
