//! Proficiency ranks, skill proficiencies and saving throws.

use vstd::prelude::*;

verus! {

/// PF2e proficiency ranks.
#[derive(Debug, Clone, Copy, PartialEq, Eq, PartialOrd, Ord, Hash, Structural)]
pub enum Proficiency {
    Untrained,
    Trained,
    Expert,
    Master,
    Legendary,
}

/// Position of a rank, 0 (untrained) to 4 (legendary).
pub open spec fn rank_index(p: Proficiency) -> int {
    match p {
        Proficiency::Untrained => 0,
        Proficiency::Trained => 1,
        Proficiency::Expert => 2,
        Proficiency::Master => 3,
        Proficiency::Legendary => 4,
    }
}

/// The proficiency bonus: 0 untrained, otherwise level plus twice the rank.
pub open spec fn proficiency_bonus(p: Proficiency, level: int) -> int {
    if p == Proficiency::Untrained {
        0
    } else {
        level + 2 * rank_index(p)
    }
}

impl Proficiency {
    /// The proficiency bonus = rank value + level (if trained or better).
    /// Untrained adds 0.
    pub fn bonus(&self, level: i32) -> (r: i32)
        requires
            level + 2 * rank_index(*self) <= i32::MAX,
        ensures
            r == proficiency_bonus(*self, level as int),
    {
        match self {
            Proficiency::Untrained => 0,
            Proficiency::Trained => level + 2,
            Proficiency::Expert => level + 4,
            Proficiency::Master => level + 6,
            Proficiency::Legendary => level + 8,
        }
    }
}

/// Higher ranks never give a smaller bonus at the same level (when trained).
pub proof fn lemma_bonus_monotone(p: Proficiency, q: Proficiency, level: int)
    requires
        rank_index(p) <= rank_index(q),
        p != Proficiency::Untrained,
    ensures
        proficiency_bonus(p, level) <= proficiency_bonus(q, level),
{
}

/// An entity's skill proficiencies: skill names with ranks.
#[derive(Debug, Clone)]
pub struct SkillProficiencies {
    pub skills: Vec<(String, Proficiency)>,
}

/// Index of the first entry named `name`, `-1` when there is none.
pub open spec fn skill_index(s: Seq<(String, Proficiency)>, name: Seq<char>) -> int
    decreases s.len(),
{
    if s.len() == 0 {
        -1
    } else {
        let k = skill_index(s.drop_last(), name);
        if k >= 0 {
            k
        } else if s.last().0@ == name {
            s.len() - 1
        } else {
            -1
        }
    }
}

/// The rank of a skill; untrained when it is not listed.
pub open spec fn skill_rank(s: Seq<(String, Proficiency)>, name: Seq<char>) -> Proficiency {
    let k = skill_index(s, name);
    if k >= 0 {
        s[k].1
    } else {
        Proficiency::Untrained
    }
}

proof fn lemma_skill_index(s: Seq<(String, Proficiency)>, name: Seq<char>)
    ensures
        -1 <= skill_index(s, name) < s.len(),
        skill_index(s, name) >= 0 ==> s[skill_index(s, name)].0@ == name,
    decreases s.len(),
{
    if s.len() > 0 {
        lemma_skill_index(s.drop_last(), name);
    }
}

proof fn lemma_skill_index_same(s: Seq<(String, Proficiency)>, r: Seq<(String, Proficiency)>, name: Seq<char>)
    requires
        s.len() == r.len(),
        forall|j: int| 0 <= j < s.len() ==> s[j].0@ == r[j].0@,
    ensures
        skill_index(r, name) == skill_index(s, name),
    decreases s.len(),
{
    if s.len() > 0 {
        lemma_skill_index_same(s.drop_last(), r.drop_last(), name);
    }
}

impl SkillProficiencies {
    /// Index of the entry for `skill`, or `len` when there is none.
    fn find(&self, skill: &str) -> (r: usize)
        ensures
            r <= self.skills@.len(),
            r == self.skills@.len() <==> skill_index(self.skills@, skill@) < 0,
            r < self.skills@.len() ==> r == skill_index(self.skills@, skill@),
    {
        let key = String::from_str(skill);
        let n = self.skills.len();
        let ghost s = self.skills@;
        for i in 0..n
            invariant
                n == s.len(),
                s == self.skills@,
                key@ == skill@,
                skill_index(s.take(i as int), skill@) < 0,
        {
            proof {
                assert(s.take(i + 1).drop_last() =~= s.take(i as int));
            }
            if self.skills[i].0 == key {
                proof {
                    lemma_skill_prefix(s, i + 1, skill@);
                }
                return i;
            }
        }
        proof {
            assert(s.take(n as int) =~= s);
        }
        n
    }

    pub fn get(&self, skill: &str) -> (r: Proficiency)
        ensures
            r == skill_rank(self.skills@, skill@),
    {
        let k = self.find(skill);
        if k < self.skills.len() {
            self.skills[k].1
        } else {
            Proficiency::Untrained
        }
    }

    /// Record the rank of a skill, replacing any rank it had.
    pub fn set(&mut self, skill: &str, rank: Proficiency)
        ensures
            skill_rank(final(self).skills@, skill@) == rank,
            forall|other: Seq<char>|
                other != skill@ ==> #[trigger] skill_rank(final(self).skills@, other) == skill_rank(
                    old(self).skills@,
                    other,
                ),
    {
        let ghost s = self.skills@;
        let k = self.find(skill);
        if k < self.skills.len() {
            let name = String::from_str(skill);
            self.skills.set(k, (name, rank));
            proof {
                lemma_skill_index(s, skill@);
                assert forall|j: int| 0 <= j < s.len() implies s[j].0@ == self.skills@[j].0@ by {}
                lemma_skill_index_same(s, self.skills@, skill@);
                assert forall|other: Seq<char>| other != skill@ implies #[trigger] skill_rank(
                    self.skills@,
                    other,
                ) == skill_rank(s, other) by {
                    lemma_skill_index_same(s, self.skills@, other);
                    lemma_skill_index(s, other);
                }
            }
        } else {
            self.skills.push((String::from_str(skill), rank));
            proof {
                let t = self.skills@;
                assert(t.drop_last() =~= s);
                assert forall|other: Seq<char>| other != skill@ implies #[trigger] skill_rank(t, other)
                    == skill_rank(s, other) by {
                    lemma_skill_index(s, other);
                }
            }
        }
    }
}

proof fn lemma_skill_prefix(s: Seq<(String, Proficiency)>, k: int, name: Seq<char>)
    requires
        0 < k <= s.len(),
        skill_index(s.take(k - 1), name) < 0,
        s[k - 1].0@ == name,
    ensures
        skill_index(s, name) == k - 1,
    decreases s.len() - k,
{
    if k == s.len() {
        assert(s.take(k - 1) =~= s.drop_last());
    } else {
        assert(s.drop_last().take(k - 1) =~= s.take(k - 1));
        lemma_skill_prefix(s.drop_last(), k, name);
    }
}

impl Default for SkillProficiencies {
    fn default() -> (r: Self)
        ensures
            r.skills@ == Seq::<(String, Proficiency)>::empty(),
    {
        SkillProficiencies { skills: Vec::new() }
    }
}

/// Saving throw proficiencies.
#[derive(Debug, Clone, Copy, PartialEq, Eq, Structural)]
pub struct SavingThrows {
    pub fortitude: Proficiency,
    pub reflex: Proficiency,
    pub will: Proficiency,
}

impl Default for SavingThrows {
    fn default() -> (r: Self)
        ensures
            r == (SavingThrows {
                fortitude: Proficiency::Untrained,
                reflex: Proficiency::Untrained,
                will: Proficiency::Untrained,
            }),
    {
        Self {
            fortitude: Proficiency::Untrained,
            reflex: Proficiency::Untrained,
            will: Proficiency::Untrained,
        }
    }
}

} // verus!
