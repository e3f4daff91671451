//! Action and item traits: a named tag with a category.

use vstd::prelude::*;

verus! {

/// Trait categories affect how the mechanics layer processes actions.
#[derive(Debug, Clone, Copy, PartialEq, Eq, Hash, Structural)]
pub enum TraitCategory {
    Attack,
    Move,
    Manipulate,
    Concentrate,
    Sensory,
    Incapacitation,
    Flourish,
    Open,
    Press,
    Tradition,
    DamageType,
    Custom,
}

/// A trait is a named tag with a category. The mechanics layer uses the
/// category to determine processing; the name is for identification.
#[derive(Debug, PartialEq, Eq, Hash)]
pub struct GameTrait {
    pub name: String,
    pub category: TraitCategory,
}

impl Clone for GameTrait {
    fn clone(&self) -> (r: Self)
        ensures
            r == *self,
    {
        GameTrait { name: self.name.clone(), category: self.category }
    }
}

impl GameTrait {
    pub fn new(name: &str, category: TraitCategory) -> (r: Self)
        ensures
            r.name@ == name@,
            r.category == category,
    {
        GameTrait { name: String::from_str(name), category }
    }

    pub fn attack() -> (r: Self)
        ensures
            r.name@ == "Attack"@,
            r.category == TraitCategory::Attack,
    {
        Self::new("Attack", TraitCategory::Attack)
    }

    pub fn move_trait() -> (r: Self)
        ensures
            r.name@ == "Move"@,
            r.category == TraitCategory::Move,
    {
        Self::new("Move", TraitCategory::Move)
    }

    pub fn manipulate() -> (r: Self)
        ensures
            r.name@ == "Manipulate"@,
            r.category == TraitCategory::Manipulate,
    {
        Self::new("Manipulate", TraitCategory::Manipulate)
    }

    pub fn concentrate() -> (r: Self)
        ensures
            r.name@ == "Concentrate"@,
            r.category == TraitCategory::Concentrate,
    {
        Self::new("Concentrate", TraitCategory::Concentrate)
    }

    pub fn flourish() -> (r: Self)
        ensures
            r.name@ == "Flourish"@,
            r.category == TraitCategory::Flourish,
    {
        Self::new("Flourish", TraitCategory::Flourish)
    }

    pub fn open() -> (r: Self)
        ensures
            r.name@ == "Open"@,
            r.category == TraitCategory::Open,
    {
        Self::new("Open", TraitCategory::Open)
    }

    pub fn press() -> (r: Self)
        ensures
            r.name@ == "Press"@,
            r.category == TraitCategory::Press,
    {
        Self::new("Press", TraitCategory::Press)
    }

    pub fn incapacitation() -> (r: Self)
        ensures
            r.name@ == "Incapacitation"@,
            r.category == TraitCategory::Incapacitation,
    {
        Self::new("Incapacitation", TraitCategory::Incapacitation)
    }
}

} // verus!
