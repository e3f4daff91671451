//! # Condition Layer (Layer 2)
//!
//! Conditions are mechanical states the field imposes on entities.
//! When an entity has "frightened 2", the rules say exactly what
//! modifiers that produces. The entity doesn't decide this.

pub mod rules;
pub mod types;

pub use rules::ConditionRules;
pub use types::{
    ConditionEffect, ConditionModifierTarget, ConditionSeverity, ConditionType, SensoryChannel,
};

use vstd::prelude::*;

use crate::mechanics::modifier::Modifier;
use rules::{effects_of, negates_severity};
use types::severity_value;

verus! {

/// An active condition on an entity.
#[derive(Debug, Clone, Copy, PartialEq, Eq, Structural)]
pub struct ActiveCondition {
    pub condition: ConditionType,
    pub severity: ConditionSeverity,
}

/// All active conditions on an entity.
#[derive(Debug, Clone)]
pub struct Conditions {
    pub active: Vec<ActiveCondition>,
}

/// Index of the first entry for condition `c`, `-1` when there is none.
pub open spec fn first_index(s: Seq<ActiveCondition>, c: ConditionType) -> int
    decreases s.len(),
{
    if s.len() == 0 {
        -1
    } else {
        let k = first_index(s.drop_last(), c);
        if k >= 0 {
            k
        } else if s.last().condition == c {
            s.len() - 1
        } else {
            -1
        }
    }
}

/// The severity of `c`: that of its first entry, 0 when it is absent.
pub open spec fn severity_of(s: Seq<ActiveCondition>, c: ConditionType) -> u32 {
    let k = first_index(s, c);
    if k >= 0 {
        severity_value(s[k].severity)
    } else {
        0
    }
}

/// `s` without any entry for `c`, order kept.
pub open spec fn without(s: Seq<ActiveCondition>, c: ConditionType) -> Seq<ActiveCondition>
    decreases s.len(),
{
    if s.len() == 0 {
        seq![]
    } else {
        let r = without(s.drop_last(), c);
        if s.last().condition != c {
            r.push(s.last())
        } else {
            r
        }
    }
}

/// The entries after applying `c` at severity `sev`: the first entry for
/// `c` takes the new severity if it is higher; a new entry is appended when
/// `c` is absent.
pub open spec fn applied(s: Seq<ActiveCondition>, c: ConditionType, sev: ConditionSeverity) -> Seq<
    ActiveCondition,
> {
    let k = first_index(s, c);
    if k >= 0 {
        if severity_value(sev) > severity_value(s[k].severity) {
            s.update(k, ActiveCondition { condition: c, severity: sev })
        } else {
            s
        }
    } else {
        s.push(ActiveCondition { condition: c, severity: sev })
    }
}

/// The entries after reducing `c` by `amount`: a binary condition, or a
/// value not above `amount`, removes the condition; a larger value drops by
/// `amount`.
pub open spec fn reduced(s: Seq<ActiveCondition>, c: ConditionType, amount: u32) -> Seq<
    ActiveCondition,
> {
    let k = first_index(s, c);
    if k < 0 {
        s
    } else {
        match s[k].severity {
            ConditionSeverity::Active => without(s, c),
            ConditionSeverity::Value(v) => if v <= amount {
                without(s, c)
            } else {
                s.update(
                    k,
                    ActiveCondition {
                        condition: c,
                        severity: ConditionSeverity::Value((v - amount) as u32),
                    },
                )
            },
        }
    }
}

/// A change that end-of-turn decay made to one condition.
#[derive(Debug, Clone, Copy, PartialEq, Eq, Structural)]
pub enum ConditionDecay {
    /// The condition was reduced to nothing.
    Removed(ConditionType),
    /// The condition's severity changed.
    Changed { condition: ConditionType, old_severity: u32, new_severity: u32 },
}

/// What reducing `c` by one reports.
pub open spec fn decay_event(s: Seq<ActiveCondition>, c: ConditionType) -> ConditionDecay {
    let new = severity_of(reduced(s, c, 1), c);
    if new == 0 {
        ConditionDecay::Removed(c)
    } else {
        ConditionDecay::Changed { condition: c, old_severity: severity_of(s, c), new_severity: new }
    }
}

/// Reducing each condition of `cs` by one, in order: the entries and the
/// reports that result.
pub open spec fn decay_all(s: Seq<ActiveCondition>, cs: Seq<ConditionType>) -> (Seq<
    ActiveCondition,
>, Seq<ConditionDecay>)
    decreases cs.len(),
{
    if cs.len() == 0 {
        (s, seq![])
    } else {
        let (s1, ev) = decay_all(s, cs.drop_last());
        let c = cs.last();
        (reduced(s1, c, 1), ev.push(decay_event(s1, c)))
    }
}

/// The conditions of the entries that decay at the end of a turn, in order.
pub open spec fn decaying(s: Seq<ActiveCondition>) -> Seq<ConditionType>
    decreases s.len(),
{
    if s.len() == 0 {
        seq![]
    } else {
        let r = decaying(s.drop_last());
        if s.last().condition == ConditionType::Frightened {
            r.push(s.last().condition)
        } else {
            r
        }
    }
}

/// The modifiers a list of effects applies, in order.
pub open spec fn modifiers_in(es: Seq<ConditionEffect>) -> Seq<Modifier>
    decreases es.len(),
{
    if es.len() == 0 {
        seq![]
    } else {
        let r = modifiers_in(es.drop_last());
        match es.last() {
            ConditionEffect::ApplyModifier(_, m) => r.push(m),
            _ => r,
        }
    }
}

/// The modifiers of a list of effect lists, concatenated.
pub open spec fn all_modifiers_in(ess: Seq<Seq<ConditionEffect>>) -> Seq<Modifier>
    decreases ess.len(),
{
    if ess.len() == 0 {
        seq![]
    } else {
        all_modifiers_in(ess.drop_last()) + modifiers_in(ess.last())
    }
}

/// The rules can give the effects of every entry without overflow.
pub open spec fn effects_computable(s: Seq<ActiveCondition>) -> bool {
    forall|i: int|
        0 <= i < s.len() && negates_severity(#[trigger] s[i].condition) ==> (severity_value(
            s[i].severity,
        ) as i32) != i32::MIN
}

impl Conditions {
    /// Index of the first entry for `c`, or `len` when there is none.
    fn find(&self, condition: ConditionType) -> (r: usize)
        ensures
            r <= self.active@.len(),
            r == self.active@.len() <==> first_index(self.active@, condition) < 0,
            r < self.active@.len() ==> r == first_index(self.active@, condition),
    {
        let n = self.active.len();
        let ghost s = self.active@;
        for i in 0..n
            invariant
                n == s.len(),
                s == self.active@,
                first_index(s.take(i as int), condition) < 0,
        {
            proof {
                assert(s.take(i + 1).drop_last() =~= s.take(i as int));
            }
            if self.active[i].condition == condition {
                proof {
                    lemma_first_index_prefix(s, i + 1, condition);
                }
                return i;
            }
        }
        proof {
            assert(s.take(n as int) =~= s);
        }
        n
    }

    pub fn has(&self, condition: ConditionType) -> (r: bool)
        ensures
            r == (first_index(self.active@, condition) >= 0),
    {
        self.find(condition) < self.active.len()
    }

    pub fn severity(&self, condition: ConditionType) -> (r: u32)
        ensures
            r == severity_of(self.active@, condition),
    {
        let k = self.find(condition);
        if k < self.active.len() {
            self.active[k].severity.value()
        } else {
            0
        }
    }

    pub fn apply(&mut self, condition: ConditionType, severity: ConditionSeverity)
        ensures
            final(self).active@ == applied(old(self).active@, condition, severity),
    {
        let k = self.find(condition);
        if k < self.active.len() {
            if severity.value() > self.active[k].severity.value() {
                self.active.set(k, ActiveCondition { condition, severity });
            }
        } else {
            self.active.push(ActiveCondition { condition, severity });
        }
    }

    pub fn remove(&mut self, condition: ConditionType)
        ensures
            final(self).active@ == without(old(self).active@, condition),
    {
        let ghost s = self.active@;
        let mut kept: Vec<ActiveCondition> = Vec::new();
        let n = self.active.len();
        for i in 0..n
            invariant
                n == s.len(),
                s == self.active@,
                kept@ == without(s.take(i as int), condition),
        {
            proof {
                assert(s.take(i + 1).drop_last() =~= s.take(i as int));
            }
            if self.active[i].condition != condition {
                kept.push(self.active[i]);
            }
        }
        proof {
            assert(s.take(n as int) =~= s);
        }
        self.active = kept;
    }

    pub fn reduce(&mut self, condition: ConditionType, amount: u32)
        ensures
            final(self).active@ == reduced(old(self).active@, condition, amount),
    {
        let k = self.find(condition);
        if k < self.active.len() {
            match self.active[k].severity {
                ConditionSeverity::Active => {
                    self.remove(condition);
                },
                ConditionSeverity::Value(v) => {
                    if v <= amount {
                        self.remove(condition);
                    } else {
                        self.active.set(
                            k,
                            ActiveCondition { condition, severity: ConditionSeverity::Value(v - amount) },
                        );
                    }
                },
            }
        }
    }

    /// End-of-turn decay: every condition that decreases at the end of a
    /// turn loses one point of severity. Reports, in order, each condition
    /// that was reduced to nothing or changed severity.
    pub fn decay_end_of_turn(&mut self) -> (r: Vec<ConditionDecay>)
        ensures
            final(self).active@ == decay_all(old(self).active@, decaying(old(self).active@)).0,
            r@ == decay_all(old(self).active@, decaying(old(self).active@)).1,
    {
        let ghost s0 = self.active@;
        let mut cs: Vec<ConditionType> = Vec::new();
        let n = self.active.len();
        for i in 0..n
            invariant
                n == s0.len(),
                s0 == self.active@,
                cs@ == decaying(s0.take(i as int)),
        {
            proof {
                assert(s0.take(i + 1).drop_last() =~= s0.take(i as int));
            }
            if ConditionRules::decreases_at_end_of_turn(self.active[i].condition) {
                cs.push(self.active[i].condition);
            }
        }
        proof {
            assert(s0.take(n as int) =~= s0);
        }
        let mut events: Vec<ConditionDecay> = Vec::new();
        let m = cs.len();
        for j in 0..m
            invariant
                m == cs@.len(),
                cs@ == decaying(s0),
                self.active@ == decay_all(s0, cs@.take(j as int)).0,
                events@ == decay_all(s0, cs@.take(j as int)).1,
        {
            proof {
                assert(cs@.take(j + 1).drop_last() =~= cs@.take(j as int));
            }
            let c = cs[j];
            let old = self.severity(c);
            self.reduce(c, 1);
            let new = self.severity(c);
            if new == 0 {
                events.push(ConditionDecay::Removed(c));
            } else {
                events.push(
                    ConditionDecay::Changed { condition: c, old_severity: old, new_severity: new },
                );
            }
        }
        proof {
            assert(cs@.take(m as int) =~= cs@);
        }
        events
    }
}

impl Default for Conditions {
    fn default() -> (r: Self)
        ensures
            r.active@ == Seq::<ActiveCondition>::empty(),
    {
        Conditions { active: Vec::new() }
    }
}

/// Every modifier the active conditions apply, condition by condition, in
/// the order the rules list them.
pub fn collect_condition_modifiers(conditions: &Conditions) -> (r: Vec<Modifier>)
    requires
        effects_computable(conditions.active@),
    ensures
        exists|ess: Seq<Seq<ConditionEffect>>|
            {
                &&& ess.len() == conditions.active@.len()
                &&& forall|i: int|
                    0 <= i < ess.len() ==> effects_of(
                        conditions.active@[i].condition,
                        conditions.active@[i].severity,
                        #[trigger] ess[i],
                    )
                &&& r@ == all_modifiers_in(ess)
            },
{
    let ghost s = conditions.active@;
    let mut out: Vec<Modifier> = Vec::new();
    let ghost mut ess: Seq<Seq<ConditionEffect>> = seq![];
    let n = conditions.active.len();
    for i in 0..n
        invariant
            n == s.len(),
            s == conditions.active@,
            effects_computable(s),
            ess.len() == i,
            forall|k: int| 0 <= k < i ==> effects_of(s[k].condition, s[k].severity, #[trigger] ess[k]),
            out@ == all_modifiers_in(ess),
    {
        let a = conditions.active[i];
        let effects = ConditionRules::effects(a.condition, a.severity);
        let ghost start = out@;
        let m = effects.len();
        for j in 0..m
            invariant
                m == effects@.len(),
                out@ == start + modifiers_in(effects@.take(j as int)),
        {
            proof {
                assert(effects@.take(j + 1).drop_last() =~= effects@.take(j as int));
            }
            match &effects[j] {
                ConditionEffect::ApplyModifier(_, modifier) => {
                    out.push(modifier.clone());
                },
                _ => {},
            }
            proof {
                assert(out@ =~= start + modifiers_in(effects@.take(j + 1)));
            }
        }
        proof {
            assert(effects@.take(m as int) =~= effects@);
            let old_ess = ess;
            ess = ess.push(effects@);
            assert(ess.drop_last() =~= old_ess);
        }
    }
    out
}

proof fn lemma_first_index_prefix(s: Seq<ActiveCondition>, k: int, c: ConditionType)
    requires
        0 < k <= s.len(),
        first_index(s.take(k - 1), c) < 0,
        s[k - 1].condition == c,
    ensures
        first_index(s, c) == k - 1,
    decreases s.len() - k,
{
    if k == s.len() {
        assert(s.take(k - 1) =~= s.drop_last());
    } else {
        assert(s.drop_last().take(k - 1) =~= s.take(k - 1));
        lemma_first_index_prefix(s.drop_last(), k, c);
    }
}

// ---------------------------------------------------------------------------
// Laws
// ---------------------------------------------------------------------------

/// `first_index` finds the first entry for the condition.
pub proof fn lemma_first_index(s: Seq<ActiveCondition>, c: ConditionType)
    ensures
        -1 <= first_index(s, c) < s.len(),
        first_index(s, c) >= 0 ==> s[first_index(s, c)].condition == c,
        first_index(s, c) >= 0 ==> forall|j: int| 0 <= j < first_index(s, c) ==> s[j].condition != c,
        first_index(s, c) < 0 <==> forall|j: int| 0 <= j < s.len() ==> s[j].condition != c,
    decreases s.len(),
{
    if s.len() > 0 {
        lemma_first_index(s.drop_last(), c);
        let p = s.drop_last();
        assert forall|j: int| 0 <= j < p.len() implies p[j] == s[j] by {}
    }
}

/// First index and severity after appending an entry.
proof fn lemma_push_facts(x: Seq<ActiveCondition>, a: ActiveCondition, d: ConditionType)
    ensures
        first_index(x.push(a), d) == (if first_index(x, d) >= 0 {
            first_index(x, d)
        } else if a.condition == d {
            x.len() as int
        } else {
            -1
        }),
        severity_of(x.push(a), d) == (if first_index(x, d) >= 0 {
            severity_of(x, d)
        } else if a.condition == d {
            severity_value(a.severity)
        } else {
            0
        }),
{
    assert(x.push(a).drop_last() =~= x);
    lemma_first_index(x, d);
}

/// No entry survives removal of its condition; other conditions keep their
/// presence and severity.
pub proof fn lemma_without(s: Seq<ActiveCondition>, c: ConditionType)
    ensures
        forall|j: int| 0 <= j < without(s, c).len() ==> without(s, c)[j].condition != c,
        forall|d: ConditionType|
            d != c ==> (#[trigger] first_index(without(s, c), d) >= 0 <==> first_index(s, d) >= 0),
        forall|d: ConditionType| d != c ==> #[trigger] severity_of(without(s, c), d) == severity_of(s, d),
    decreases s.len(),
{
    if s.len() > 0 {
        let p = s.drop_last();
        let a = s.last();
        assert(s =~= p.push(a));
        lemma_without(p, c);
        assert forall|d: ConditionType| d != c implies #[trigger] severity_of(without(s, c), d)
            == severity_of(s, d) && (first_index(without(s, c), d) >= 0 <==> first_index(s, d) >= 0) by {
            lemma_push_facts(p, a, d);
            if a.condition != c {
                assert(without(s, c) == without(p, c).push(a));
                lemma_push_facts(without(p, c), a, d);
            } else {
                assert(without(s, c) == without(p, c));
            }
        }
        assert forall|d: ConditionType| d != c implies (#[trigger] first_index(without(s, c), d) >= 0
            <==> first_index(s, d) >= 0) by {
            assert(severity_of(without(s, c), d) == severity_of(s, d));
        }
        if a.condition != c {
            assert(without(s, c) == without(p, c).push(a));
        }
    }
}

/// Applying a condition leaves it active at the higher of its old severity
/// and the new one, and leaves every other condition as it was.
pub proof fn lemma_apply_severity(s: Seq<ActiveCondition>, c: ConditionType, sev: ConditionSeverity)
    ensures
        first_index(applied(s, c, sev), c) >= 0,
        severity_of(applied(s, c, sev), c) == if severity_value(sev) > severity_of(s, c) {
            severity_value(sev)
        } else {
            severity_of(s, c)
        },
        forall|d: ConditionType| d != c ==> #[trigger] severity_of(applied(s, c, sev), d) == severity_of(s, d),
{
    lemma_first_index(s, c);
    let k = first_index(s, c);
    let r = applied(s, c, sev);
    if k >= 0 {
        lemma_first_index_same(s, r, c);
        assert forall|d: ConditionType| d != c implies #[trigger] severity_of(r, d) == severity_of(s, d) by {
            lemma_first_index_same(s, r, d);
            lemma_first_index(s, d);
        }
    } else {
        lemma_push_facts(s, ActiveCondition { condition: c, severity: sev }, c);
        assert forall|d: ConditionType| d != c implies #[trigger] severity_of(r, d) == severity_of(s, d) by {
            lemma_push_facts(s, ActiveCondition { condition: c, severity: sev }, d);
        }
    }
}

/// Removing a condition leaves no trace of it.
pub proof fn lemma_remove_clears(s: Seq<ActiveCondition>, c: ConditionType)
    ensures
        first_index(without(s, c), c) < 0,
        severity_of(without(s, c), c) == 0,
{
    lemma_without(s, c);
    lemma_first_index(without(s, c), c);
}

/// Reducing a condition: a binary one disappears; a valued one drops by the
/// amount, disappearing at 0 or below. Other conditions are untouched.
pub proof fn lemma_reduce_severity(s: Seq<ActiveCondition>, c: ConditionType, amount: u32)
    ensures
        severity_of(reduced(s, c, amount), c) == (if first_index(s, c) >= 0 && s[first_index(
            s,
            c,
        )].severity is Value && severity_of(s, c) > amount {
            severity_of(s, c) - amount
        } else {
            0
        }),
        forall|d: ConditionType| d != c ==> #[trigger] severity_of(reduced(s, c, amount), d) == severity_of(s, d),
{
    lemma_first_index(s, c);
    lemma_without(s, c);
    lemma_remove_clears(s, c);
    let k = first_index(s, c);
    let r = reduced(s, c, amount);
    if k >= 0 {
        match s[k].severity {
            ConditionSeverity::Active => {},
            ConditionSeverity::Value(v) => {
                if v > amount {
                    lemma_first_index_same(s, r, c);
                    assert forall|d: ConditionType| d != c implies #[trigger] severity_of(r, d)
                        == severity_of(s, d) by {
                        lemma_first_index_same(s, r, d);
                        lemma_first_index(s, d);
                    }
                }
            },
        }
    }
}

/// Updating an entry without changing its condition keeps every first index.
proof fn lemma_first_index_same(s: Seq<ActiveCondition>, r: Seq<ActiveCondition>, d: ConditionType)
    requires
        s.len() == r.len(),
        forall|j: int| 0 <= j < s.len() ==> s[j].condition == r[j].condition,
    ensures
        first_index(r, d) == first_index(s, d),
    decreases s.len(),
{
    if s.len() > 0 {
        lemma_first_index_same(s.drop_last(), r.drop_last(), d);
    }
}

/// The condition a decay report is about.
pub open spec fn decay_condition(e: ConditionDecay) -> ConditionType {
    match e {
        ConditionDecay::Removed(c) => c,
        ConditionDecay::Changed { condition, .. } => condition,
    }
}

proof fn lemma_without_idempotent(s: Seq<ActiveCondition>, c: ConditionType)
    ensures
        without(without(s, c), c) == without(s, c),
    decreases s.len(),
{
    if s.len() > 0 {
        let p = s.drop_last();
        lemma_without_idempotent(p, c);
        if s.last().condition != c {
            let w = without(p, c).push(s.last());
            assert(w.drop_last() =~= without(p, c));
            assert(without(w, c) == without(without(p, c), c).push(s.last()));
        }
    }
}

proof fn lemma_without_update(s: Seq<ActiveCondition>, k: int, a: ActiveCondition, c: ConditionType)
    requires
        0 <= k < s.len(),
        s[k].condition == c,
        a.condition == c,
    ensures
        without(s.update(k, a), c) == without(s, c),
    decreases s.len(),
{
    let u = s.update(k, a);
    let p = s.drop_last();
    if k == s.len() - 1 {
        assert(u.drop_last() =~= p);
    } else {
        assert(u.drop_last() =~= p.update(k, a));
        lemma_without_update(p, k, a, c);
        assert(u.last() == s.last());
    }
}

proof fn lemma_without_reduced(s: Seq<ActiveCondition>, c: ConditionType, amount: u32)
    ensures
        without(reduced(s, c, amount), c) == without(s, c),
{
    lemma_first_index(s, c);
    let k = first_index(s, c);
    if k >= 0 {
        match s[k].severity {
            ConditionSeverity::Active => {
                lemma_without_idempotent(s, c);
            },
            ConditionSeverity::Value(v) => {
                if v <= amount {
                    lemma_without_idempotent(s, c);
                } else {
                    lemma_without_update(
                        s,
                        k,
                        ActiveCondition { condition: c, severity: ConditionSeverity::Value((v - amount) as u32) },
                        c,
                    );
                }
            },
        }
    }
}

proof fn lemma_decaying_frightened(s: Seq<ActiveCondition>)
    ensures
        forall|i: int| 0 <= i < decaying(s).len() ==> #[trigger] decaying(s)[i] == ConditionType::Frightened,
        (forall|j: int| 0 <= j < s.len() ==> (#[trigger] s[j]).condition != ConditionType::Frightened)
            ==> decaying(s).len() == 0,
    decreases s.len(),
{
    if s.len() > 0 {
        let p = s.drop_last();
        lemma_decaying_frightened(p);
        let r = decaying(p);
        assert forall|i: int| 0 <= i < decaying(s).len() implies #[trigger] decaying(s)[i]
            == ConditionType::Frightened by {
            if i < r.len() {
                assert(decaying(s)[i] == r[i]);
            }
        }
        if forall|j: int| 0 <= j < s.len() ==> (#[trigger] s[j]).condition != ConditionType::Frightened {
            assert forall|j: int| 0 <= j < p.len() implies (#[trigger] p[j]).condition
                != ConditionType::Frightened by {
                assert(p[j] == s[j]);
            }
            assert(s[s.len() - 1].condition != ConditionType::Frightened);
        }
    }
}

proof fn lemma_decaying_single(s: Seq<ActiveCondition>, k: int)
    requires
        0 <= k < s.len(),
        s[k].condition == ConditionType::Frightened,
        forall|j: int| 0 <= j < s.len() && (#[trigger] s[j]).condition == ConditionType::Frightened ==> j == k,
    ensures
        decaying(s) == seq![ConditionType::Frightened],
    decreases s.len(),
{
    let p = s.drop_last();
    if k == s.len() - 1 {
        assert forall|j: int| 0 <= j < p.len() implies (#[trigger] p[j]).condition
            != ConditionType::Frightened by {
            assert(p[j] == s[j]);
        }
        lemma_decaying_frightened(p);
        assert(decaying(p) =~= Seq::<ConditionType>::empty());
        assert(decaying(s) =~= seq![ConditionType::Frightened]);
    } else {
        assert forall|j: int| 0 <= j < p.len() && (#[trigger] p[j]).condition == ConditionType::Frightened
            implies j == k by {
            assert(p[j] == s[j]);
        }
        assert(p[k] == s[k]);
        lemma_decaying_single(p, k);
        assert(s.last().condition != ConditionType::Frightened);
    }
}

proof fn lemma_decay_all_frightened(s: Seq<ActiveCondition>, cs: Seq<ConditionType>)
    requires
        forall|i: int| 0 <= i < cs.len() ==> #[trigger] cs[i] == ConditionType::Frightened,
    ensures
        without(decay_all(s, cs).0, ConditionType::Frightened) == without(s, ConditionType::Frightened),
        forall|d: ConditionType|
            d != ConditionType::Frightened ==> #[trigger] severity_of(decay_all(s, cs).0, d) == severity_of(
                s,
                d,
            ),
        forall|i: int|
            0 <= i < decay_all(s, cs).1.len() ==> #[trigger] decay_condition(decay_all(s, cs).1[i])
                == ConditionType::Frightened,
    decreases cs.len(),
{
    if cs.len() > 0 {
        let q = cs.drop_last();
        assert forall|i: int| 0 <= i < q.len() implies #[trigger] q[i] == ConditionType::Frightened by {
            assert(q[i] == cs[i]);
        }
        lemma_decay_all_frightened(s, q);
        let s1 = decay_all(s, q).0;
        let ev = decay_all(s, q).1;
        assert(cs.last() == cs[cs.len() - 1]);
        let f = ConditionType::Frightened;
        lemma_without_reduced(s1, f, 1);
        lemma_reduce_severity(s1, f, 1);
        let ev2 = decay_all(s, cs).1;
        assert(ev2 == ev.push(decay_event(s1, f)));
        assert forall|i: int| 0 <= i < ev2.len() implies #[trigger] decay_condition(ev2[i])
            == ConditionType::Frightened by {
            if i < ev.len() {
                assert(ev2[i] == ev[i]);
            }
        }
    }
}

/// End-of-turn decay touches Frightened alone: every other condition keeps
/// its entries, in their order, and its severity, and every report it makes
/// is about Frightened.
pub proof fn lemma_decay_only_frightened(s: Seq<ActiveCondition>)
    ensures
        without(decay_all(s, decaying(s)).0, ConditionType::Frightened) == without(
            s,
            ConditionType::Frightened,
        ),
        forall|d: ConditionType|
            d != ConditionType::Frightened ==> #[trigger] severity_of(decay_all(s, decaying(s)).0, d)
                == severity_of(s, d),
        forall|i: int|
            0 <= i < decay_all(s, decaying(s)).1.len() ==> #[trigger] decay_condition(
                decay_all(s, decaying(s)).1[i],
            ) == ConditionType::Frightened,
{
    lemma_decaying_frightened(s);
    lemma_decay_all_frightened(s, decaying(s));
}

/// Without a Frightened entry, end-of-turn decay changes nothing and
/// reports nothing.
pub proof fn lemma_decay_without_frightened(s: Seq<ActiveCondition>)
    requires
        forall|j: int| 0 <= j < s.len() ==> (#[trigger] s[j]).condition != ConditionType::Frightened,
    ensures
        decay_all(s, decaying(s)).0 == s,
        decay_all(s, decaying(s)).1.len() == 0,
{
    lemma_decaying_frightened(s);
    assert(decaying(s) =~= Seq::<ConditionType>::empty());
}

/// With one Frightened entry, end-of-turn decay lowers its value by one,
/// removing it when nothing is left (a binary entry counts as 1), and
/// reports that one change.
pub proof fn lemma_decay_single_frightened(s: Seq<ActiveCondition>, k: int)
    requires
        0 <= k < s.len(),
        s[k].condition == ConditionType::Frightened,
        forall|j: int| 0 <= j < s.len() && (#[trigger] s[j]).condition == ConditionType::Frightened ==> j == k,
    ensures
        severity_of(decay_all(s, decaying(s)).0, ConditionType::Frightened) == if severity_of(
            s,
            ConditionType::Frightened,
        ) > 1 {
            severity_of(s, ConditionType::Frightened) - 1
        } else {
            0
        },
        decay_all(s, decaying(s)).1 == seq![
            if severity_of(s, ConditionType::Frightened) > 1 {
                ConditionDecay::Changed {
                    condition: ConditionType::Frightened,
                    old_severity: severity_of(s, ConditionType::Frightened),
                    new_severity: (severity_of(s, ConditionType::Frightened) - 1) as u32,
                }
            } else {
                ConditionDecay::Removed(ConditionType::Frightened)
            },
        ],
{
    let f = ConditionType::Frightened;
    lemma_decaying_single(s, k);
    let cs = decaying(s);
    assert(cs.drop_last() =~= Seq::<ConditionType>::empty());
    assert(cs.last() == f);
    lemma_first_index(s, f);
    assert(first_index(s, f) == k) by {
        if first_index(s, f) < 0 {
            assert(s[k].condition != f);
        }
    }
    lemma_reduce_severity(s, f, 1);
    let e = Seq::<ConditionType>::empty();
    assert(decay_all(s, e) == (s, Seq::<ConditionDecay>::empty()));
    assert(decay_all(s, cs.drop_last()) == decay_all(s, e));
    assert(decay_all(s, cs).0 == reduced(s, f, 1));
    assert(decay_all(s, cs).1 == Seq::<ConditionDecay>::empty().push(decay_event(s, f)));
    assert(decay_all(s, cs).1 =~= seq![decay_event(s, f)]);
}

} // verus!
