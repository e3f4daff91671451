//! Factions: who is an ally and who is an enemy in an encounter.

use vstd::prelude::*;

verus! {

/// Faction marking for creatures in an encounter.
///
/// Player-controlled creatures belong to `Player`, every hostile NPC or
/// monster to `Enemy`.
#[derive(Debug, Clone, Copy, PartialEq, Eq, Hash, Structural)]
pub enum Faction {
    /// A player-controlled creature.
    Player,
    /// A hostile NPC or monster.
    Enemy,
}

impl Faction {
    /// Two factions are hostile exactly when they differ.
    pub fn is_hostile_to(&self, other: &Faction) -> (r: bool)
        ensures
            r == (*self != *other),
    {
        *self != *other
    }

    /// Two factions are friendly exactly when they are the same.
    pub fn is_friendly_to(&self, other: &Faction) -> (r: bool)
        ensures
            r == (*self == *other),
    {
        *self == *other
    }
}

/// Every pair of factions is either hostile or friendly, never both, and
/// both relations are symmetric.
pub proof fn lemma_hostile_or_friendly(a: Faction, b: Faction)
    ensures
        (a != b) != (a == b),
        (a != b) == (b != a),
        (a == b) == (b == a),
{
}

} // verus!
