//! Terrain types — a property of the spatial field, not of entities.

use vstd::prelude::*;

verus! {

/// Terrain types.
#[derive(Debug, Clone, Copy, PartialEq, Eq, Hash, Structural)]
pub enum Terrain {
    Normal,
    Difficult,
    GreaterDifficult,
    Impassable,
    Hazardous,
}

/// Mechanical effects of terrain.
#[derive(Debug, Clone, PartialEq)]
pub enum TerrainEffect {
    MovementMultiplier(u32),
    Blocked,
    DamageOnEntry(String),
}

/// Movement cost multiplier of a terrain; `None` for impassable terrain.
pub open spec fn terrain_multiplier(t: Terrain) -> Option<int> {
    match t {
        Terrain::Normal => Some(1),
        Terrain::Difficult => Some(2),
        Terrain::GreaterDifficult => Some(3),
        Terrain::Impassable => None,
        Terrain::Hazardous => Some(1),
    }
}

impl Terrain {
    pub fn effects(&self) -> (r: Vec<TerrainEffect>)
        ensures
            match *self {
                Terrain::Normal => r@ == seq![TerrainEffect::MovementMultiplier(1)],
                Terrain::Difficult => r@ == seq![TerrainEffect::MovementMultiplier(2)],
                Terrain::GreaterDifficult => r@ == seq![TerrainEffect::MovementMultiplier(3)],
                Terrain::Impassable => r@ == seq![TerrainEffect::Blocked],
                Terrain::Hazardous => {
                    &&& r@.len() == 2
                    &&& r@[0] == TerrainEffect::MovementMultiplier(1)
                    &&& r@[1] matches TerrainEffect::DamageOnEntry(s) && s@ == "hazardous terrain"@
                },
            },
    {
        match self {
            Terrain::Normal => vec![TerrainEffect::MovementMultiplier(1)],
            Terrain::Difficult => vec![TerrainEffect::MovementMultiplier(2)],
            Terrain::GreaterDifficult => vec![TerrainEffect::MovementMultiplier(3)],
            Terrain::Impassable => vec![TerrainEffect::Blocked],
            Terrain::Hazardous => vec![
                TerrainEffect::MovementMultiplier(1),
                TerrainEffect::DamageOnEntry(String::from_str("hazardous terrain")),
            ],
        }
    }

    pub fn movement_cost(&self) -> (r: Option<u32>)
        ensures
            match terrain_multiplier(*self) {
                Some(m) => r == Some(m as u32),
                None => r is None,
            },
    {
        match self {
            Terrain::Normal => Some(1),
            Terrain::Difficult => Some(2),
            Terrain::GreaterDifficult => Some(3),
            Terrain::Impassable => None,
            Terrain::Hazardous => Some(1),
        }
    }
}

/// The cost multiplier agrees with the effects: impassable terrain is the
/// one terrain that is blocked, every other has a multiplier of 1 to 3.
pub proof fn lemma_multiplier_range(t: Terrain)
    ensures
        terrain_multiplier(t) is None <==> t == Terrain::Impassable,
        terrain_multiplier(t) matches Some(m) ==> 1 <= m <= 3,
{
}

} // verus!
