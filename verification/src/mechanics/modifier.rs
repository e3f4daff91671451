//! Modifiers and the PF2e stacking rules.
//!
//! Only untyped modifiers stack freely. For every typed category the
//! highest bonus and the lowest (most negative) penalty apply; every other
//! bonus or penalty of that category is suppressed.

use vstd::prelude::*;

verus! {

/// Modifier type determines stacking rules.
#[derive(Debug, Clone, Copy, PartialEq, Eq, Hash, Structural)]
pub enum ModifierType {
    Untyped,
    Ability,
    Proficiency,
    Item,
    Status,
    Circumstance,
}

/// A single modifier: value + type + source label.
/// Positive = bonus, negative = penalty.
#[derive(Debug, PartialEq, Eq)]
pub struct Modifier {
    pub value: i32,
    pub modifier_type: ModifierType,
    pub source: String,
}

impl Clone for Modifier {
    fn clone(&self) -> (r: Self)
        ensures
            r == *self,
    {
        Modifier { value: self.value, modifier_type: self.modifier_type, source: self.source.clone() }
    }
}

impl Modifier {
    pub fn new(value: i32, modifier_type: ModifierType, source: &str) -> (r: Self)
        ensures
            r.value == value,
            r.modifier_type == modifier_type,
            r.source@ == source@,
    {
        Modifier { value, modifier_type, source: String::from_str(source) }
    }

    pub fn is_bonus(&self) -> (r: bool)
        ensures
            r == (self.value > 0),
    {
        self.value > 0
    }

    pub fn is_penalty(&self) -> (r: bool)
        ensures
            r == (self.value < 0),
    {
        self.value < 0
    }
}

// ---------------------------------------------------------------------------
// The stacking rules, stated over sequences of modifiers
// ---------------------------------------------------------------------------

/// A bonus of type `t`.
pub open spec fn is_bonus_of(m: Modifier, t: ModifierType) -> bool {
    m.modifier_type == t && m.value > 0
}

/// A penalty of type `t`.
pub open spec fn is_penalty_of(m: Modifier, t: ModifierType) -> bool {
    m.modifier_type == t && m.value < 0
}

/// A bonus (when `bonus`) or a penalty (otherwise) of type `t`.
pub open spec fn is_kind_of(m: Modifier, t: ModifierType, bonus: bool) -> bool {
    if bonus {
        is_bonus_of(m, t)
    } else {
        is_penalty_of(m, t)
    }
}

/// Index of the bonus of type `t` that applies: the greatest one, and of
/// several equal greatest ones the last. `-1` when there is none.
pub open spec fn best_bonus_index(s: Seq<Modifier>, t: ModifierType) -> int
    decreases s.len(),
{
    if s.len() == 0 {
        -1
    } else {
        let k = best_bonus_index(s.drop_last(), t);
        let i = s.len() - 1;
        if is_bonus_of(s[i], t) && (k < 0 || s[k].value <= s[i].value) {
            i
        } else {
            k
        }
    }
}

/// Index of the penalty of type `t` that applies: the most negative one,
/// and of several equal ones the first. `-1` when there is none.
pub open spec fn worst_penalty_index(s: Seq<Modifier>, t: ModifierType) -> int
    decreases s.len(),
{
    if s.len() == 0 {
        -1
    } else {
        let k = worst_penalty_index(s.drop_last(), t);
        let i = s.len() - 1;
        if is_penalty_of(s[i], t) && (k < 0 || s[i].value < s[k].value) {
            i
        } else {
            k
        }
    }
}

/// The bonuses (or penalties) of type `t` in order, except the one at `skip`.
pub open spec fn others_of(s: Seq<Modifier>, t: ModifierType, bonus: bool, skip: int) -> Seq<
    Modifier,
>
    decreases s.len(),
{
    if s.len() == 0 {
        seq![]
    } else {
        let r = others_of(s.drop_last(), t, bonus, skip);
        let i = s.len() - 1;
        if is_kind_of(s[i], t, bonus) && i != skip {
            r.push(s[i])
        } else {
            r
        }
    }
}

/// The untyped modifiers, in order.
pub open spec fn untyped_of(s: Seq<Modifier>) -> Seq<Modifier>
    decreases s.len(),
{
    if s.len() == 0 {
        seq![]
    } else {
        let r = untyped_of(s.drop_last());
        if s.last().modifier_type == ModifierType::Untyped {
            r.push(s.last())
        } else {
            r
        }
    }
}

/// The one-element sequence `[s[idx]]`, or empty when `idx` is `-1`.
pub open spec fn chosen(s: Seq<Modifier>, idx: int) -> Seq<Modifier> {
    if idx >= 0 {
        seq![s[idx]]
    } else {
        seq![]
    }
}

/// What a typed category contributes: its best bonus, then its worst penalty.
pub open spec fn category_applied(s: Seq<Modifier>, t: ModifierType) -> Seq<Modifier> {
    chosen(s, best_bonus_index(s, t)) + chosen(s, worst_penalty_index(s, t))
}

/// What a typed category suppresses: the other bonuses, then the other penalties.
pub open spec fn category_suppressed(s: Seq<Modifier>, t: ModifierType) -> Seq<Modifier> {
    others_of(s, t, true, best_bonus_index(s, t)) + others_of(
        s,
        t,
        false,
        worst_penalty_index(s, t),
    )
}

/// All applied modifiers, in the order the rules take them: untyped first,
/// then Ability, Proficiency, Item, Status, Circumstance.
pub open spec fn applied_of(s: Seq<Modifier>) -> Seq<Modifier> {
    untyped_of(s) + category_applied(s, ModifierType::Ability) + category_applied(
        s,
        ModifierType::Proficiency,
    ) + category_applied(s, ModifierType::Item) + category_applied(s, ModifierType::Status)
        + category_applied(s, ModifierType::Circumstance)
}

/// All suppressed modifiers, category by category.
pub open spec fn suppressed_of(s: Seq<Modifier>) -> Seq<Modifier> {
    category_suppressed(s, ModifierType::Ability) + category_suppressed(
        s,
        ModifierType::Proficiency,
    ) + category_suppressed(s, ModifierType::Item) + category_suppressed(
        s,
        ModifierType::Status,
    ) + category_suppressed(s, ModifierType::Circumstance)
}

/// The sum of the values of a sequence of modifiers.
pub open spec fn sum_values(s: Seq<Modifier>) -> int
    decreases s.len(),
{
    if s.len() == 0 {
        0
    } else {
        sum_values(s.drop_last()) + s.last().value
    }
}

/// Every running total, taken in order, fits in an `i32`.
pub open spec fn prefix_sums_fit(s: Seq<Modifier>) -> bool {
    forall|k: int| 0 <= k <= s.len() ==> i32::MIN <= #[trigger] sum_values(s.take(k)) <= i32::MAX
}

/// The total of a modifier sequence under the stacking rules.
pub open spec fn stacked_total(s: Seq<Modifier>) -> int {
    sum_values(applied_of(s))
}

/// `a` is a prefix of `b`.
pub open spec fn is_prefix_of(a: Seq<Modifier>, b: Seq<Modifier>) -> bool {
    a.len() <= b.len() && a == b.take(a.len() as int)
}

proof fn lemma_prefix_fit(a: Seq<Modifier>, b: Seq<Modifier>)
    requires
        is_prefix_of(a, b),
        prefix_sums_fit(b),
    ensures
        prefix_sums_fit(a),
        i32::MIN <= sum_values(a) <= i32::MAX,
{
    assert forall|k: int| 0 <= k <= a.len() implies i32::MIN <= #[trigger] sum_values(a.take(k))
        <= i32::MAX by {
        assert(a.take(k) =~= b.take(k));
    }
    assert(a.take(a.len() as int) =~= a);
}

proof fn lemma_prefix_append(a: Seq<Modifier>, b: Seq<Modifier>)
    ensures
        is_prefix_of(a, a + b),
{
    assert((a + b).take(a.len() as int) =~= a);
}

proof fn lemma_prefix_refl(a: Seq<Modifier>)
    ensures
        is_prefix_of(a, a),
{
    assert(a.take(a.len() as int) =~= a);
}

proof fn lemma_prefix_trans(a: Seq<Modifier>, b: Seq<Modifier>, c: Seq<Modifier>)
    requires
        is_prefix_of(a, b),
        is_prefix_of(b, c),
    ensures
        is_prefix_of(a, c),
{
    assert(c.take(a.len() as int) =~= b.take(a.len() as int));
}

proof fn lemma_sum_push(s: Seq<Modifier>, m: Modifier)
    ensures
        sum_values(s.push(m)) == sum_values(s) + m.value,
{
    assert(s.push(m).drop_last() =~= s);
}

proof fn lemma_take_succ(s: Seq<Modifier>, i: int)
    requires
        0 <= i < s.len(),
    ensures
        s.take(i + 1).drop_last() =~= s.take(i),
        s.take(i + 1).last() == s[i],
        s.take(i + 1).len() == i + 1,
{
}

proof fn lemma_best_index_bounds(s: Seq<Modifier>, t: ModifierType)
    ensures
        -1 <= best_bonus_index(s, t) < s.len(),
        -1 <= worst_penalty_index(s, t) < s.len(),
        best_bonus_index(s, t) >= 0 ==> is_bonus_of(s[best_bonus_index(s, t)], t),
        worst_penalty_index(s, t) >= 0 ==> is_penalty_of(s[worst_penalty_index(s, t)], t),
    decreases s.len(),
{
    if s.len() > 0 {
        lemma_best_index_bounds(s.drop_last(), t);
    }
}

/// A collection of modifiers resolved according to PF2e stacking rules.
#[derive(Debug)]
pub struct ModifierStack {
    modifiers: Vec<Modifier>,
}

impl View for ModifierStack {
    type V = Seq<Modifier>;

    closed spec fn view(&self) -> Seq<Modifier> {
        self.modifiers@
    }
}

impl Clone for ModifierStack {
    fn clone(&self) -> (r: Self)
        ensures
            r@ == self@,
    {
        let mut v: Vec<Modifier> = Vec::new();
        let n = self.modifiers.len();
        for i in 0..n
            invariant
                n == self.modifiers@.len(),
                v@ =~= self.modifiers@.take(i as int),
        {
            v.push(self.modifiers[i].clone());
            proof {
                lemma_take_succ(self.modifiers@, i as int);
            }
        }
        ModifierStack { modifiers: v }
    }
}

impl Default for ModifierStack {
    fn default() -> (r: Self)
        ensures
            r@ == Seq::<Modifier>::empty(),
    {
        ModifierStack { modifiers: Vec::new() }
    }
}

/// Result of resolving a modifier stack.
#[derive(Debug)]
pub struct ResolvedModifiers {
    pub total: i32,
    pub applied: Vec<Modifier>,
    pub suppressed: Vec<Modifier>,
}

impl ModifierStack {
    pub fn new() -> (r: Self)
        ensures
            r@ == Seq::<Modifier>::empty(),
    {
        ModifierStack { modifiers: Vec::new() }
    }

    pub fn add(&mut self, modifier: Modifier)
        ensures
            final(self)@ == old(self)@.push(modifier),
    {
        self.modifiers.push(modifier);
    }

    /// The modifiers in the order they were added.
    pub fn modifiers(&self) -> (r: &[Modifier])
        ensures
            r@ == self@,
    {
        self.modifiers.as_slice()
    }

    pub fn with(self, modifier: Modifier) -> (r: Self)
        ensures
            r@ == self@.push(modifier),
    {
        let mut s = self;
        s.add(modifier);
        s
    }

    /// Index of the applying bonus (or penalty) of type `t`, `len` for none.
    fn pick_index(&self, t: ModifierType, bonus: bool) -> (r: usize)
        ensures
            bonus ==> (r == self@.len() <==> best_bonus_index(self@, t) < 0),
            bonus ==> (r < self@.len() ==> r == best_bonus_index(self@, t)),
            !bonus ==> (r == self@.len() <==> worst_penalty_index(self@, t) < 0),
            !bonus ==> (r < self@.len() ==> r == worst_penalty_index(self@, t)),
            r <= self@.len(),
    {
        let ghost s = self.modifiers@;
        let n = self.modifiers.len();
        let mut best: usize = n;
        for i in 0..n
            invariant
                n == s.len(),
                s == self.modifiers@,
                bonus ==> (best == n <==> best_bonus_index(s.take(i as int), t) < 0),
                bonus ==> (best < n ==> best == best_bonus_index(s.take(i as int), t)),
                !bonus ==> (best == n <==> worst_penalty_index(s.take(i as int), t) < 0),
                !bonus ==> (best < n ==> best == worst_penalty_index(s.take(i as int), t)),
                best <= n,
                best < n ==> best < i,
        {
            proof {
                lemma_take_succ(s, i as int);
                lemma_best_index_bounds(s.take(i as int), t);
            }
            let m = &self.modifiers[i];
            if m.modifier_type == t {
                if bonus && m.value > 0 {
                    if best == n || self.modifiers[best].value <= m.value {
                        best = i;
                    }
                } else if !bonus && m.value < 0 {
                    if best == n || m.value < self.modifiers[best].value {
                        best = i;
                    }
                }
            }
        }
        proof {
            assert(s.take(n as int) =~= s);
        }
        best
    }

    /// Moves the bonuses (or penalties) of type `t` into `applied` (the one
    /// at `pick`) and `suppressed` (all others), keeping the running total.
    fn split_kind(
        &self,
        t: ModifierType,
        bonus: bool,
        pick: usize,
        total: &mut i32,
        applied: &mut Vec<Modifier>,
        suppressed: &mut Vec<Modifier>,
    )
        requires
            pick <= self@.len(),
            pick < self@.len() ==> is_kind_of(self@[pick as int], t, bonus),
            sum_values(old(applied)@) == *old(total),
            prefix_sums_fit(old(applied)@ + chosen(self@, if pick < self@.len() { pick as int } else { -1 })),
        ensures
            final(applied)@ == old(applied)@ + chosen(self@, if pick < self@.len() { pick as int } else { -1 }),
            final(suppressed)@ == old(suppressed)@ + others_of(self@, t, bonus, if pick < self@.len() { pick as int } else { -1 }),
            *final(total) == sum_values(final(applied)@),
    {
        let ghost s = self.modifiers@;
        let ghost a0 = applied@;
        let ghost s0 = suppressed@;
        let ghost skip: int = if pick < s.len() { pick as int } else { -1 };
        let n = self.modifiers.len();
        for i in 0..n
            invariant
                n == s.len(),
                s == self.modifiers@,
                s == self@,
                skip == (if pick < s.len() { pick as int } else { -1 }),
                pick <= n,
                pick < n ==> is_kind_of(s[pick as int], t, bonus),
                suppressed@ == s0 + others_of(s.take(i as int), t, bonus, skip),
                applied@ == a0 + (if skip >= 0 && skip < i { seq![s[skip]] } else { seq![] }),
                *total == sum_values(applied@),
                prefix_sums_fit(a0 + chosen(s, skip)),
        {
            proof {
                lemma_take_succ(s, i as int);
            }
            let m = &self.modifiers[i];
            let matches = if bonus {
                m.modifier_type == t && m.value > 0
            } else {
                m.modifier_type == t && m.value < 0
            };
            if matches {
                if i == pick {
                    proof {
                        assert(a0 + chosen(s, skip) =~= applied@.push(s[i as int]));
                        lemma_prefix_refl(applied@.push(s[i as int]));
                        lemma_prefix_fit(applied@.push(s[i as int]), a0 + chosen(s, skip));
                        lemma_sum_push(applied@, s[i as int]);
                    }
                    *total = *total + m.value;
                    applied.push(m.clone());
                    proof {
                        assert(applied@ =~= a0 + seq![s[skip]]);
                    }
                } else {
                    suppressed.push(m.clone());
                    proof {
                        assert(suppressed@ =~= s0 + others_of(s.take(i + 1), t, bonus, skip));
                    }
                }
            }
            proof {
                assert(suppressed@ =~= s0 + others_of(s.take(i + 1), t, bonus, skip));
                assert(applied@ =~= a0 + (if skip >= 0 && skip < i + 1 { seq![s[skip]] } else { seq![] }));
            }
        }
        proof {
            assert(s.take(n as int) =~= s);
            assert(applied@ =~= a0 + chosen(s, skip));
        }
    }

    /// Applies one typed category: its best bonus, then its worst penalty.
    fn resolve_category(
        &self,
        t: ModifierType,
        total: &mut i32,
        applied: &mut Vec<Modifier>,
        suppressed: &mut Vec<Modifier>,
    )
        requires
            sum_values(old(applied)@) == *old(total),
            prefix_sums_fit(old(applied)@ + category_applied(self@, t)),
        ensures
            final(applied)@ == old(applied)@ + category_applied(self@, t),
            final(suppressed)@ == old(suppressed)@ + category_suppressed(self@, t),
            *final(total) == sum_values(final(applied)@),
    {
        let ghost s = self@;
        let ghost a0 = applied@;
        let ghost s0 = suppressed@;
        let ghost bb = best_bonus_index(s, t);
        let ghost wp = worst_penalty_index(s, t);
        proof {
            lemma_best_index_bounds(s, t);
        }
        let b = self.pick_index(t, true);
        let p = self.pick_index(t, false);
        proof {
            assert((if b < s.len() { b as int } else { -1 }) == bb);
            assert((if p < s.len() { p as int } else { -1 }) == wp);
            let full = a0 + category_applied(s, t);
            assert(full =~= (a0 + chosen(s, bb)) + chosen(s, wp));
            lemma_prefix_append(a0 + chosen(s, bb), chosen(s, wp));
            lemma_prefix_fit(a0 + chosen(s, bb), full);
        }
        self.split_kind(t, true, b, total, applied, suppressed);
        proof {
            assert(applied@ + chosen(s, wp) =~= a0 + category_applied(s, t));
        }
        self.split_kind(t, false, p, total, applied, suppressed);
        proof {
            assert(applied@ =~= a0 + category_applied(s, t));
            assert(suppressed@ =~= s0 + category_suppressed(s, t));
        }
    }

    /// Resolve the stack into a total according to PF2e rules:
    /// - Untyped: all stack
    /// - Typed bonuses: highest of each type
    /// - Typed penalties: lowest (most negative) of each type
    pub fn resolve(&self) -> (r: ResolvedModifiers)
        requires
            prefix_sums_fit(applied_of(self@)),
        ensures
            r.applied@ == applied_of(self@),
            r.suppressed@ == suppressed_of(self@),
            r.total == stacked_total(self@),
    {
        let ghost s = self@;
        let mut total: i32 = 0;
        let mut applied: Vec<Modifier> = Vec::new();
        let mut suppressed: Vec<Modifier> = Vec::new();
        let n = self.modifiers.len();
        let ghost full = applied_of(s);
        proof {
            lemma_untyped_prefix(s);
            lemma_prefix_append(untyped_of(s), category_applied(s, ModifierType::Ability));
            let c1 = untyped_of(s) + category_applied(s, ModifierType::Ability);
            let c2 = c1 + category_applied(s, ModifierType::Proficiency);
            let c3 = c2 + category_applied(s, ModifierType::Item);
            let c4 = c3 + category_applied(s, ModifierType::Status);
            lemma_prefix_append(c1, category_applied(s, ModifierType::Proficiency));
            lemma_prefix_append(c2, category_applied(s, ModifierType::Item));
            lemma_prefix_append(c3, category_applied(s, ModifierType::Status));
            lemma_prefix_append(c4, category_applied(s, ModifierType::Circumstance));
            lemma_prefix_trans(c3, c4, full);
            lemma_prefix_trans(c2, c3, full);
            lemma_prefix_trans(c1, c2, full);
            lemma_prefix_trans(untyped_of(s), c1, full);
        }
        for i in 0..n
            invariant
                n == s.len(),
                s == self.modifiers@,
                s == self@,
                full == applied_of(s),
                prefix_sums_fit(full),
                is_prefix_of(untyped_of(s), full),
                forall|j: int| 0 <= j <= n ==> is_prefix_of(#[trigger] untyped_of(s.take(j)), untyped_of(s)),
                applied@ == untyped_of(s.take(i as int)),
                total == sum_values(applied@),
                suppressed@ == Seq::<Modifier>::empty(),
        {
            proof {
                lemma_take_succ(s, i as int);
            }
            let m = &self.modifiers[i];
            if m.modifier_type == ModifierType::Untyped {
                proof {
                    assert(untyped_of(s.take(i + 1)) =~= applied@.push(s[i as int]));
                    lemma_prefix_trans(applied@.push(s[i as int]), untyped_of(s), full);
                    lemma_prefix_fit(applied@.push(s[i as int]), full);
                    lemma_sum_push(applied@, s[i as int]);
                }
                total = total + m.value;
                applied.push(m.clone());
            }
        }
        proof {
            assert(s.take(n as int) =~= s);
        }
        let ghost u = untyped_of(s);
        let ghost c1 = u + category_applied(s, ModifierType::Ability);
        let ghost c2 = c1 + category_applied(s, ModifierType::Proficiency);
        let ghost c3 = c2 + category_applied(s, ModifierType::Item);
        let ghost c4 = c3 + category_applied(s, ModifierType::Status);
        proof {
            assert(full == c4 + category_applied(s, ModifierType::Circumstance));
            lemma_prefix_append(c4, category_applied(s, ModifierType::Circumstance));
            lemma_prefix_append(c3, category_applied(s, ModifierType::Status));
            lemma_prefix_trans(c3, c4, full);
            lemma_prefix_append(c2, category_applied(s, ModifierType::Item));
            lemma_prefix_trans(c2, c3, full);
            lemma_prefix_append(c1, category_applied(s, ModifierType::Proficiency));
            lemma_prefix_trans(c1, c2, full);
            lemma_prefix_fit(c1, full);
            lemma_prefix_fit(c2, full);
            lemma_prefix_fit(c3, full);
            lemma_prefix_fit(c4, full);
        }
        self.resolve_category(ModifierType::Ability, &mut total, &mut applied, &mut suppressed);
        self.resolve_category(ModifierType::Proficiency, &mut total, &mut applied, &mut suppressed);
        self.resolve_category(ModifierType::Item, &mut total, &mut applied, &mut suppressed);
        self.resolve_category(ModifierType::Status, &mut total, &mut applied, &mut suppressed);
        self.resolve_category(ModifierType::Circumstance, &mut total, &mut applied, &mut suppressed);
        proof {
            assert(applied@ =~= full);
            assert(suppressed@ =~= suppressed_of(s));
        }
        ResolvedModifiers { total, applied, suppressed }
    }
}

proof fn lemma_untyped_prefix(s: Seq<Modifier>)
    ensures
        forall|j: int| 0 <= j <= s.len() ==> is_prefix_of(#[trigger] untyped_of(s.take(j)), untyped_of(s)),
    decreases s.len(),
{
    assert forall|j: int| 0 <= j <= s.len() implies is_prefix_of(
        #[trigger] untyped_of(s.take(j)),
        untyped_of(s),
    ) by {
        if j == s.len() {
            assert(s.take(j) =~= s);
            lemma_prefix_refl(untyped_of(s));
        } else {
            let p = s.drop_last();
            lemma_untyped_prefix(p);
            assert(s.take(j) =~= p.take(j));
            assert(is_prefix_of(untyped_of(p.take(j)), untyped_of(p)));
            assert(is_prefix_of(untyped_of(p), untyped_of(s))) by {
                assert(untyped_of(s).take(untyped_of(p).len() as int) =~= untyped_of(p));
            }
            lemma_prefix_trans(untyped_of(p.take(j)), untyped_of(p), untyped_of(s));
        }
    }
}

/// The index of an entry of `s` after one modifier is put in front.
pub open spec fn shifted_index(k: int) -> int {
    if k < 0 {
        -1
    } else {
        k + 1
    }
}

proof fn lemma_prepend_untyped_of(u: Modifier, s: Seq<Modifier>)
    requires
        u.modifier_type == ModifierType::Untyped,
    ensures
        untyped_of(seq![u] + s) == seq![u] + untyped_of(s),
    decreases s.len(),
{
    let w = seq![u] + s;
    if s.len() == 0 {
        let e = Seq::<Modifier>::empty();
        assert(w =~= seq![u]);
        assert(w.drop_last() =~= e);
        assert(untyped_of(e) == e);
        assert(untyped_of(w) == untyped_of(w.drop_last()).push(u));
        assert(untyped_of(s) == e);
        assert(untyped_of(w) =~= seq![u] + untyped_of(s));
    } else {
        let p = s.drop_last();
        assert(w.drop_last() =~= seq![u] + p);
        lemma_prepend_untyped_of(u, p);
        assert(w.last() == s.last());
        assert((seq![u] + untyped_of(p)).push(s.last()) =~= seq![u] + untyped_of(p).push(s.last()));
    }
}

proof fn lemma_prepend_indices(u: Modifier, s: Seq<Modifier>, t: ModifierType)
    requires
        u.modifier_type == ModifierType::Untyped,
        t != ModifierType::Untyped,
    ensures
        best_bonus_index(seq![u] + s, t) == shifted_index(best_bonus_index(s, t)),
        worst_penalty_index(seq![u] + s, t) == shifted_index(worst_penalty_index(s, t)),
    decreases s.len(),
{
    let w = seq![u] + s;
    if s.len() == 0 {
        let e = Seq::<Modifier>::empty();
        assert(w.drop_last() =~= e);
        assert(best_bonus_index(e, t) == -1);
        assert(worst_penalty_index(e, t) == -1);
        assert(w[0] == u);
    } else {
        let p = s.drop_last();
        assert(w.drop_last() =~= seq![u] + p);
        lemma_prepend_indices(u, p, t);
        lemma_best_index_bounds(p, t);
        assert(w[w.len() - 1] == s[s.len() - 1]);
        let kb = best_bonus_index(p, t);
        let kw = worst_penalty_index(p, t);
        if kb >= 0 {
            assert(w[kb + 1] == s[kb]);
        }
        if kw >= 0 {
            assert(w[kw + 1] == s[kw]);
        }
    }
}

/// A modifier put in front of a sequence adds its value to the sum.
pub proof fn lemma_sum_prepend(m: Modifier, s: Seq<Modifier>)
    ensures
        sum_values(seq![m] + s) == m.value + sum_values(s),
    decreases s.len(),
{
    let w = seq![m] + s;
    if s.len() == 0 {
        let e = Seq::<Modifier>::empty();
        assert(w.drop_last() =~= e);
        assert(sum_values(e) == 0);
        assert(w.last() == m);
    } else {
        assert(w.drop_last() =~= seq![m] + s.drop_last());
        lemma_sum_prepend(m, s.drop_last());
        assert(w.last() == s.last());
    }
}

proof fn lemma_category_prepend(u: Modifier, s: Seq<Modifier>, t: ModifierType)
    requires
        u.modifier_type == ModifierType::Untyped,
        t != ModifierType::Untyped,
    ensures
        category_applied(seq![u] + s, t) == category_applied(s, t),
{
    let w = seq![u] + s;
    lemma_prepend_indices(u, s, t);
    lemma_best_index_bounds(s, t);
    let kb = best_bonus_index(s, t);
    let kw = worst_penalty_index(s, t);
    if kb >= 0 {
        assert(w[kb + 1] == s[kb]);
    }
    if kw >= 0 {
        assert(w[kw + 1] == s[kw]);
    }
    assert(category_applied(w, t) =~= category_applied(s, t));
}

/// Untyped modifiers always stack in full: putting an untyped modifier in
/// front of a stack puts it in front of what applies, changes nothing else
/// that applies, and adds its value to the total.
pub proof fn lemma_untyped_always_stacks(u: Modifier, s: Seq<Modifier>)
    requires
        u.modifier_type == ModifierType::Untyped,
    ensures
        applied_of(seq![u] + s) == seq![u] + applied_of(s),
        stacked_total(seq![u] + s) == u.value + stacked_total(s),
{
    let w = seq![u] + s;
    lemma_prepend_untyped_of(u, s);
    lemma_category_prepend(u, s, ModifierType::Ability);
    lemma_category_prepend(u, s, ModifierType::Proficiency);
    lemma_category_prepend(u, s, ModifierType::Item);
    lemma_category_prepend(u, s, ModifierType::Status);
    lemma_category_prepend(u, s, ModifierType::Circumstance);
    assert(applied_of(w) =~= seq![u] + applied_of(s));
    lemma_sum_prepend(u, applied_of(s));
}

/// Running totals that start from `base` stay in range with a modifier put
/// in front, given that they stay in range with its value added to `base`.
pub proof fn lemma_running_totals_prepend(m: Modifier, s: Seq<Modifier>, base: int)
    requires
        i32::MIN <= base <= i32::MAX,
        forall|k: int| 0 <= k <= s.len() ==> i32::MIN <= base + m.value + #[trigger] sum_values(s.take(k)) <= i32::MAX,
    ensures
        forall|k: int| 0 <= k <= s.len() + 1 ==> i32::MIN <= base + #[trigger] sum_values((seq![m] + s).take(k)) <= i32::MAX,
{
    assert forall|k: int| 0 <= k <= s.len() + 1 implies i32::MIN <= base + #[trigger] sum_values(
        (seq![m] + s).take(k),
    ) <= i32::MAX by {
        if k == 0 {
            assert((seq![m] + s).take(0) =~= Seq::<Modifier>::empty());
        } else {
            assert((seq![m] + s).take(k) =~= seq![m] + s.take(k - 1));
            lemma_sum_prepend(m, s.take(k - 1));
        }
    }
}

/// The sum of two sequences put end to end is the sum of their sums.
pub proof fn lemma_sum_concat(a: Seq<Modifier>, b: Seq<Modifier>)
    ensures
        sum_values(a + b) == sum_values(a) + sum_values(b),
    decreases b.len(),
{
    if b.len() == 0 {
        assert(a + b =~= a);
    } else {
        lemma_sum_concat(a, b.drop_last());
        assert((a + b).drop_last() =~= a + b.drop_last());
        assert((a + b).last() == b.last());
    }
}

/// The value that the bonuses of type `t` add: the greatest of them, or 0
/// when there is none.
pub open spec fn best_bonus(s: Seq<Modifier>, t: ModifierType) -> int {
    let k = best_bonus_index(s, t);
    if k >= 0 {
        s[k].value as int
    } else {
        0
    }
}

/// The value that the penalties of type `t` add: the most negative of them,
/// or 0 when there is none.
pub open spec fn worst_penalty(s: Seq<Modifier>, t: ModifierType) -> int {
    let k = worst_penalty_index(s, t);
    if k >= 0 {
        s[k].value as int
    } else {
        0
    }
}

proof fn lemma_extremes(s: Seq<Modifier>, t: ModifierType)
    ensures
        forall|j: int|
            0 <= j < s.len() && is_bonus_of(#[trigger] s[j], t) ==> best_bonus_index(s, t) >= 0
                && s[j].value <= s[best_bonus_index(s, t)].value,
        forall|j: int|
            0 <= j < s.len() && is_penalty_of(#[trigger] s[j], t) ==> worst_penalty_index(s, t) >= 0
                && s[worst_penalty_index(s, t)].value <= s[j].value,
    decreases s.len(),
{
    if s.len() > 0 {
        let p = s.drop_last();
        lemma_extremes(p, t);
        lemma_best_index_bounds(p, t);
        assert forall|j: int| 0 <= j < s.len() && is_bonus_of(#[trigger] s[j], t) implies best_bonus_index(
            s,
            t,
        ) >= 0 && s[j].value <= s[best_bonus_index(s, t)].value by {
            if j < s.len() - 1 {
                assert(s[j] == p[j]);
                let k = best_bonus_index(p, t);
                assert(s[k] == p[k]);
            }
        }
        assert forall|j: int| 0 <= j < s.len() && is_penalty_of(#[trigger] s[j], t) implies worst_penalty_index(
            s,
            t,
        ) >= 0 && s[worst_penalty_index(s, t)].value <= s[j].value by {
            if j < s.len() - 1 {
                assert(s[j] == p[j]);
                let k = worst_penalty_index(p, t);
                assert(s[k] == p[k]);
            }
        }
    }
}

/// The sum of what a typed category applies is its greatest bonus plus its
/// most negative penalty.
proof fn lemma_category_sum(s: Seq<Modifier>, t: ModifierType)
    ensures
        sum_values(category_applied(s, t)) == best_bonus(s, t) + worst_penalty(s, t),
{
    let b = chosen(s, best_bonus_index(s, t));
    let w = chosen(s, worst_penalty_index(s, t));
    lemma_sum_concat(b, w);
    let e = Seq::<Modifier>::empty();
    assert(sum_values(e) == 0);
    assert(sum_values(b) == best_bonus(s, t)) by {
        if best_bonus_index(s, t) >= 0 {
            assert(b.drop_last() =~= e);
            assert(b.last() == s[best_bonus_index(s, t)]);
        } else {
            assert(b =~= e);
        }
    }
    assert(sum_values(w) == worst_penalty(s, t)) by {
        if worst_penalty_index(s, t) >= 0 {
            assert(w.drop_last() =~= e);
            assert(w.last() == s[worst_penalty_index(s, t)]);
        } else {
            assert(w =~= e);
        }
    }
}

#[verifier::spinoff_prover]
proof fn lemma_total_split(s: Seq<Modifier>)
    ensures
        stacked_total(s) == sum_values(untyped_of(s)) + best_bonus(s, ModifierType::Ability)
            + worst_penalty(s, ModifierType::Ability) + best_bonus(s, ModifierType::Proficiency)
            + worst_penalty(s, ModifierType::Proficiency) + best_bonus(s, ModifierType::Item)
            + worst_penalty(s, ModifierType::Item) + best_bonus(s, ModifierType::Status)
            + worst_penalty(s, ModifierType::Status) + best_bonus(s, ModifierType::Circumstance)
            + worst_penalty(s, ModifierType::Circumstance),
{
    let u = untyped_of(s);
    let ca = category_applied(s, ModifierType::Ability);
    let cp = category_applied(s, ModifierType::Proficiency);
    let ci = category_applied(s, ModifierType::Item);
    let cs = category_applied(s, ModifierType::Status);
    let cc = category_applied(s, ModifierType::Circumstance);
    lemma_sum_concat(u, ca);
    lemma_sum_concat(u + ca, cp);
    lemma_sum_concat(u + ca + cp, ci);
    lemma_sum_concat(u + ca + cp + ci, cs);
    lemma_sum_concat(u + ca + cp + ci + cs, cc);
    lemma_category_sum(s, ModifierType::Ability);
    lemma_category_sum(s, ModifierType::Proficiency);
    lemma_category_sum(s, ModifierType::Item);
    lemma_category_sum(s, ModifierType::Status);
    lemma_category_sum(s, ModifierType::Circumstance);
}

/// The stacked total is the sum of all untyped modifiers plus, for each
/// typed category, its greatest bonus (or 0) and its most negative penalty
/// (or 0). The greatest bonus of a type is at least every bonus of that
/// type, and the most negative penalty at most every penalty of it, so
/// among modifiers of one type only the extremes count, wherever they
/// stand in the stack.
pub proof fn lemma_total_by_type(s: Seq<Modifier>)
    ensures
        stacked_total(s) == sum_values(untyped_of(s)) + best_bonus(s, ModifierType::Ability)
            + worst_penalty(s, ModifierType::Ability) + best_bonus(s, ModifierType::Proficiency)
            + worst_penalty(s, ModifierType::Proficiency) + best_bonus(s, ModifierType::Item)
            + worst_penalty(s, ModifierType::Item) + best_bonus(s, ModifierType::Status)
            + worst_penalty(s, ModifierType::Status) + best_bonus(s, ModifierType::Circumstance)
            + worst_penalty(s, ModifierType::Circumstance),
        forall|t: ModifierType| best_bonus(s, t) >= 0 && worst_penalty(s, t) <= 0,
        forall|t: ModifierType, j: int|
            0 <= j < s.len() && #[trigger] is_bonus_of(s[j], t) ==> s[j].value <= best_bonus(s, t),
        forall|t: ModifierType, j: int|
            0 <= j < s.len() && #[trigger] is_penalty_of(s[j], t) ==> worst_penalty(s, t) <= s[j].value,
        forall|t: ModifierType|
            #![trigger best_bonus(s, t)]
            best_bonus(s, t) != 0 ==> exists|j: int|
                0 <= j < s.len() && is_bonus_of(#[trigger] s[j], t) && s[j].value == best_bonus(s, t),
        forall|t: ModifierType|
            #![trigger worst_penalty(s, t)]
            worst_penalty(s, t) != 0 ==> exists|j: int|
                0 <= j < s.len() && is_penalty_of(#[trigger] s[j], t) && s[j].value == worst_penalty(s, t),
{
    lemma_total_split(s);
    assert forall|t: ModifierType| best_bonus(s, t) >= 0 && worst_penalty(s, t) <= 0 by {
        lemma_best_index_bounds(s, t);
    }
    assert forall|t: ModifierType, j: int|
        0 <= j < s.len() && #[trigger] is_bonus_of(s[j], t) implies s[j].value <= best_bonus(s, t) by {
        lemma_extremes(s, t);
    }
    assert forall|t: ModifierType, j: int|
        0 <= j < s.len() && #[trigger] is_penalty_of(s[j], t) implies worst_penalty(s, t) <= s[j].value by {
        lemma_extremes(s, t);
    }
    assert forall|t: ModifierType| #![trigger best_bonus(s, t)] best_bonus(s, t) != 0 implies exists|j: int|
        0 <= j < s.len() && is_bonus_of(#[trigger] s[j], t) && s[j].value == best_bonus(s, t) by {
        lemma_best_index_bounds(s, t);
        let k = best_bonus_index(s, t);
        assert(is_bonus_of(s[k], t));
    }
    assert forall|t: ModifierType| #![trigger worst_penalty(s, t)] worst_penalty(s, t) != 0 implies exists|j: int|
        0 <= j < s.len() && is_penalty_of(#[trigger] s[j], t) && s[j].value == worst_penalty(s, t) by {
        lemma_best_index_bounds(s, t);
        let k = worst_penalty_index(s, t);
        assert(is_penalty_of(s[k], t));
    }
}

proof fn lemma_push_other(s: Seq<Modifier>, m: Modifier, t: ModifierType)
    requires
        m.modifier_type != t,
    ensures
        category_applied(s.push(m), t) == category_applied(s, t),
        category_suppressed(s.push(m), t) == category_suppressed(s, t),
        best_bonus(s.push(m), t) == best_bonus(s, t),
        worst_penalty(s.push(m), t) == worst_penalty(s, t),
{
    let w = s.push(m);
    assert(w.drop_last() =~= s);
    lemma_best_index_bounds(s, t);
    let kb = best_bonus_index(s, t);
    let kw = worst_penalty_index(s, t);
    assert(best_bonus_index(w, t) == kb);
    assert(worst_penalty_index(w, t) == kw);
    if kb >= 0 {
        assert(w[kb] == s[kb]);
    }
    if kw >= 0 {
        assert(w[kw] == s[kw]);
    }
    assert(category_applied(w, t) =~= category_applied(s, t));
    assert(others_of(w, t, true, kb) == others_of(s, t, true, kb));
    assert(others_of(w, t, false, kw) == others_of(s, t, false, kw));
}

/// Adding an untyped modifier to a stack puts it after the untyped
/// modifiers that apply, leaves every typed category and everything
/// suppressed as it was, and adds its value to the total.
#[verifier::spinoff_prover]
#[verifier::rlimit(40)]
pub proof fn lemma_add_untyped(s: Seq<Modifier>, u: Modifier)
    requires
        u.modifier_type == ModifierType::Untyped,
    ensures
        untyped_of(s.push(u)) == untyped_of(s).push(u),
        applied_of(s.push(u)).len() == applied_of(s).len() + 1,
        suppressed_of(s.push(u)) == suppressed_of(s),
        stacked_total(s.push(u)) == stacked_total(s) + u.value,
{
    let w = s.push(u);
    assert(w.drop_last() =~= s);
    assert(untyped_of(w) == untyped_of(s).push(u));
    lemma_push_other(s, u, ModifierType::Ability);
    lemma_push_other(s, u, ModifierType::Proficiency);
    lemma_push_other(s, u, ModifierType::Item);
    lemma_push_other(s, u, ModifierType::Status);
    lemma_push_other(s, u, ModifierType::Circumstance);
    let r = category_applied(s, ModifierType::Ability) + category_applied(s, ModifierType::Proficiency)
        + category_applied(s, ModifierType::Item) + category_applied(s, ModifierType::Status)
        + category_applied(s, ModifierType::Circumstance);
    assert(applied_of(s) =~= untyped_of(s) + r);
    assert(applied_of(w) =~= untyped_of(s).push(u) + r);
    lemma_total_split(s);
    lemma_total_split(w);
    lemma_sum_push(untyped_of(s), u);
}

/// A modifier that takes part in resolving a stack: an untyped one, or a
/// typed one that is a bonus or a penalty (a typed 0 is neither).
pub open spec fn takes_part(m: Modifier) -> bool {
    m.modifier_type == ModifierType::Untyped || m.value != 0
}

/// The modifiers of `s` that take part in resolving it, in order.
pub open spec fn taking_part(s: Seq<Modifier>) -> Seq<Modifier>
    decreases s.len(),
{
    if s.len() == 0 {
        seq![]
    } else {
        let r = taking_part(s.drop_last());
        if takes_part(s.last()) {
            r.push(s.last())
        } else {
            r
        }
    }
}

proof fn lemma_others_unskipped(s: Seq<Modifier>, t: ModifierType, b: bool, k: int)
    requires
        k < 0 || k >= s.len(),
    ensures
        others_of(s, t, b, k) == others_of(s, t, b, -1),
    decreases s.len(),
{
    if s.len() > 0 {
        lemma_others_unskipped(s.drop_last(), t, b, k);
    }
}

proof fn lemma_others_of_kind(s: Seq<Modifier>, t: ModifierType, b: bool, k: int)
    ensures
        forall|j: int|
            0 <= j < others_of(s, t, b, k).len() ==> is_kind_of(#[trigger] others_of(s, t, b, k)[j], t, b),
    decreases s.len(),
{
    if s.len() > 0 {
        let p = s.drop_last();
        lemma_others_of_kind(p, t, b, k);
        let r = others_of(p, t, b, k);
        assert forall|j: int| 0 <= j < others_of(s, t, b, k).len() implies is_kind_of(
            #[trigger] others_of(s, t, b, k)[j],
            t,
            b,
        ) by {
            if j < r.len() {
                assert(others_of(s, t, b, k)[j] == r[j]);
            }
        }
    }
}

/// The one that applies and the others of a kind are, together, all the
/// modifiers of that kind.
#[verifier::spinoff_prover]
proof fn lemma_chosen_and_others(s: Seq<Modifier>, t: ModifierType, b: bool, k: int)
    requires
        k == -1 || (0 <= k < s.len() && is_kind_of(s[k], t, b)),
    ensures
        (chosen(s, k) + others_of(s, t, b, k)).to_multiset() =~= others_of(s, t, b, -1).to_multiset(),
    decreases s.len(),
{
    broadcast use vstd::seq_lib::group_to_multiset_ensures, vstd::seq_lib::lemma_multiset_commutative;

    if s.len() == 0 {
        assert(chosen(s, k) + others_of(s, t, b, k) =~= Seq::<Modifier>::empty());
    } else {
        let p = s.drop_last();
        let i = s.len() - 1;
        let x = s.last();
        if k == i {
            lemma_others_unskipped(p, t, b, k);
            lemma_chosen_and_others(p, t, b, -1);
            assert(chosen(p, -1) + others_of(p, t, b, -1) =~= others_of(p, t, b, -1));
            assert(chosen(s, k) =~= seq![x]);
            assert(others_of(s, t, b, -1) == others_of(p, t, b, -1).push(x));
        } else {
            lemma_chosen_and_others(p, t, b, k);
            if k >= 0 {
                assert(s[k] == p[k]);
            }
            assert(chosen(s, k) == chosen(p, k));
            if is_kind_of(x, t, b) {
                assert(chosen(s, k) + others_of(s, t, b, k) =~= (chosen(p, k) + others_of(p, t, b, k)).push(x));
            }
        }
    }
}

/// Every modifier that takes part is untyped or a bonus or penalty of
/// exactly one type.
#[verifier::spinoff_prover]
proof fn lemma_partition(s: Seq<Modifier>)
    ensures
        taking_part(s).to_multiset() =~= untyped_of(s).to_multiset()
            .add(others_of(s, ModifierType::Ability, true, -1).to_multiset())
            .add(others_of(s, ModifierType::Ability, false, -1).to_multiset())
            .add(others_of(s, ModifierType::Proficiency, true, -1).to_multiset())
            .add(others_of(s, ModifierType::Proficiency, false, -1).to_multiset())
            .add(others_of(s, ModifierType::Item, true, -1).to_multiset())
            .add(others_of(s, ModifierType::Item, false, -1).to_multiset())
            .add(others_of(s, ModifierType::Status, true, -1).to_multiset())
            .add(others_of(s, ModifierType::Status, false, -1).to_multiset())
            .add(others_of(s, ModifierType::Circumstance, true, -1).to_multiset())
            .add(others_of(s, ModifierType::Circumstance, false, -1).to_multiset()),
    decreases s.len(),
{
    broadcast use vstd::seq_lib::group_to_multiset_ensures, vstd::multiset::group_multiset_axioms;

    if s.len() > 0 {
        lemma_partition(s.drop_last());
    }
}

/// Resolving keeps every modifier that takes part, each exactly once: what
/// applies and what is suppressed are, together, a rearrangement of the
/// untyped modifiers and the typed bonuses and penalties of the stack, and
/// nothing untyped is ever suppressed.
#[verifier::spinoff_prover]
pub proof fn lemma_resolve_keeps_each(s: Seq<Modifier>)
    ensures
        (applied_of(s) + suppressed_of(s)).to_multiset() =~= taking_part(s).to_multiset(),
        forall|k: int|
            0 <= k < suppressed_of(s).len() ==> (#[trigger] suppressed_of(s)[k]).modifier_type
                != ModifierType::Untyped,
{
    broadcast use vstd::multiset::group_multiset_axioms;

    let u = untyped_of(s);
    let a1 = category_applied(s, ModifierType::Ability);
    let a2 = category_applied(s, ModifierType::Proficiency);
    let a3 = category_applied(s, ModifierType::Item);
    let a4 = category_applied(s, ModifierType::Status);
    let a5 = category_applied(s, ModifierType::Circumstance);
    let s1 = category_suppressed(s, ModifierType::Ability);
    let s2 = category_suppressed(s, ModifierType::Proficiency);
    let s3 = category_suppressed(s, ModifierType::Item);
    let s4 = category_suppressed(s, ModifierType::Status);
    let s5 = category_suppressed(s, ModifierType::Circumstance);
    let ap = applied_of(s);
    let sp = suppressed_of(s);
    assert(ap.to_multiset() =~= u.to_multiset().add(a1.to_multiset()).add(a2.to_multiset()).add(
        a3.to_multiset(),
    ).add(a4.to_multiset()).add(a5.to_multiset())) by {
        vstd::seq_lib::lemma_multiset_commutative(u, a1);
        vstd::seq_lib::lemma_multiset_commutative(u + a1, a2);
        vstd::seq_lib::lemma_multiset_commutative(u + a1 + a2, a3);
        vstd::seq_lib::lemma_multiset_commutative(u + a1 + a2 + a3, a4);
        vstd::seq_lib::lemma_multiset_commutative(u + a1 + a2 + a3 + a4, a5);
    }
    assert(sp.to_multiset() =~= s1.to_multiset().add(s2.to_multiset()).add(s3.to_multiset()).add(
        s4.to_multiset(),
    ).add(s5.to_multiset())) by {
        vstd::seq_lib::lemma_multiset_commutative(s1, s2);
        vstd::seq_lib::lemma_multiset_commutative(s1 + s2, s3);
        vstd::seq_lib::lemma_multiset_commutative(s1 + s2 + s3, s4);
        vstd::seq_lib::lemma_multiset_commutative(s1 + s2 + s3 + s4, s5);
    }
    vstd::seq_lib::lemma_multiset_commutative(ap, sp);
    lemma_partition(s);
    lemma_kinds_regroup(s, ModifierType::Ability);
    lemma_kinds_regroup(s, ModifierType::Proficiency);
    lemma_kinds_regroup(s, ModifierType::Item);
    lemma_kinds_regroup(s, ModifierType::Status);
    lemma_kinds_regroup(s, ModifierType::Circumstance);
    lemma_suppressed_typed(s);
    let b1 = others_of(s, ModifierType::Ability, true, -1).to_multiset();
    let p1 = others_of(s, ModifierType::Ability, false, -1).to_multiset();
    let b2 = others_of(s, ModifierType::Proficiency, true, -1).to_multiset();
    let p2 = others_of(s, ModifierType::Proficiency, false, -1).to_multiset();
    let b3 = others_of(s, ModifierType::Item, true, -1).to_multiset();
    let p3 = others_of(s, ModifierType::Item, false, -1).to_multiset();
    let b4 = others_of(s, ModifierType::Status, true, -1).to_multiset();
    let p4 = others_of(s, ModifierType::Status, false, -1).to_multiset();
    let b5 = others_of(s, ModifierType::Circumstance, true, -1).to_multiset();
    let p5 = others_of(s, ModifierType::Circumstance, false, -1).to_multiset();
    assert forall|x: Modifier| #[trigger] (ap + sp).to_multiset().count(x) == taking_part(s).to_multiset().count(x) by {
        assert(a1.to_multiset().count(x) + s1.to_multiset().count(x) == b1.count(x) + p1.count(x)) by {
            assert(a1.to_multiset().add(s1.to_multiset()).count(x) == b1.add(p1).count(x));
        }
        assert(a2.to_multiset().count(x) + s2.to_multiset().count(x) == b2.count(x) + p2.count(x)) by {
            assert(a2.to_multiset().add(s2.to_multiset()).count(x) == b2.add(p2).count(x));
        }
        assert(a3.to_multiset().count(x) + s3.to_multiset().count(x) == b3.count(x) + p3.count(x)) by {
            assert(a3.to_multiset().add(s3.to_multiset()).count(x) == b3.add(p3).count(x));
        }
        assert(a4.to_multiset().count(x) + s4.to_multiset().count(x) == b4.count(x) + p4.count(x)) by {
            assert(a4.to_multiset().add(s4.to_multiset()).count(x) == b4.add(p4).count(x));
        }
        assert(a5.to_multiset().count(x) + s5.to_multiset().count(x) == b5.count(x) + p5.count(x)) by {
            assert(a5.to_multiset().add(s5.to_multiset()).count(x) == b5.add(p5).count(x));
        }
    }
}

proof fn lemma_kinds_regroup(s: Seq<Modifier>, t: ModifierType)
    ensures
        category_applied(s, t).to_multiset().add(category_suppressed(s, t).to_multiset())
            =~= others_of(s, t, true, -1).to_multiset().add(others_of(s, t, false, -1).to_multiset()),
{
    broadcast use vstd::seq_lib::lemma_multiset_commutative, vstd::multiset::group_multiset_axioms;

    lemma_best_index_bounds(s, t);
    let kb = best_bonus_index(s, t);
    let kw = worst_penalty_index(s, t);
    lemma_chosen_and_others(s, t, true, kb);
    lemma_chosen_and_others(s, t, false, kw);
}

proof fn lemma_suppressed_typed(s: Seq<Modifier>)
    ensures
        forall|k: int|
            0 <= k < suppressed_of(s).len() ==> (#[trigger] suppressed_of(s)[k]).modifier_type
                != ModifierType::Untyped,
{
    assert forall|k: int| 0 <= k < suppressed_of(s).len() implies (#[trigger] suppressed_of(
        s,
    )[k]).modifier_type != ModifierType::Untyped by {
        lemma_others_of_kind(s, ModifierType::Ability, true, best_bonus_index(s, ModifierType::Ability));
        lemma_others_of_kind(s, ModifierType::Ability, false, worst_penalty_index(s, ModifierType::Ability));
        lemma_others_of_kind(s, ModifierType::Proficiency, true, best_bonus_index(s, ModifierType::Proficiency));
        lemma_others_of_kind(s, ModifierType::Proficiency, false, worst_penalty_index(s, ModifierType::Proficiency));
        lemma_others_of_kind(s, ModifierType::Item, true, best_bonus_index(s, ModifierType::Item));
        lemma_others_of_kind(s, ModifierType::Item, false, worst_penalty_index(s, ModifierType::Item));
        lemma_others_of_kind(s, ModifierType::Status, true, best_bonus_index(s, ModifierType::Status));
        lemma_others_of_kind(s, ModifierType::Status, false, worst_penalty_index(s, ModifierType::Status));
        lemma_others_of_kind(s, ModifierType::Circumstance, true, best_bonus_index(s, ModifierType::Circumstance));
        lemma_others_of_kind(s, ModifierType::Circumstance, false, worst_penalty_index(s, ModifierType::Circumstance));
    }
}

/// Adding a modifier to a stack adds one to the number of modifiers that
/// resolving applies or suppresses when the modifier takes part, and none
/// when it is a typed 0.
#[verifier::spinoff_prover]
pub proof fn lemma_add_counts(s: Seq<Modifier>, m: Modifier)
    ensures
        applied_of(s.push(m)).len() + suppressed_of(s.push(m)).len() == applied_of(s).len()
            + suppressed_of(s).len() + if takes_part(m) {
            1int
        } else {
            0int
        },
{
    broadcast use vstd::seq_lib::group_to_multiset_ensures;

    let w = s.push(m);
    assert(w.drop_last() =~= s);
    lemma_resolve_keeps_each(s);
    lemma_resolve_keeps_each(w);
    assert((applied_of(s) + suppressed_of(s)).to_multiset().len() == taking_part(s).to_multiset().len());
    assert((applied_of(s) + suppressed_of(s)).len() == taking_part(s).len());
    assert((applied_of(w) + suppressed_of(w)).to_multiset().len() == taking_part(w).to_multiset().len());
    assert((applied_of(w) + suppressed_of(w)).len() == taking_part(w).len());
}


/// Number of bonuses (when `b`) or penalties of type `t` in `q`.
pub open spec fn count_kind(q: Seq<Modifier>, t: ModifierType, b: bool) -> int
    decreases q.len(),
{
    if q.len() == 0 {
        0
    } else {
        count_kind(q.drop_last(), t, b) + if is_kind_of(q.last(), t, b) {
            1int
        } else {
            0int
        }
    }
}

/// Every bonus (when `b`) or penalty of type `t` in `q` has the value `v`.
pub open spec fn kind_values(q: Seq<Modifier>, t: ModifierType, b: bool, v: int) -> bool {
    forall|i: int| 0 <= i < q.len() && #[trigger] is_kind_of(q[i], t, b) ==> q[i].value == v
}

/// Every entry of `q` is an entry of `s`.
pub open spec fn all_in(q: Seq<Modifier>, s: Seq<Modifier>) -> bool {
    forall|k: int| 0 <= k < q.len() ==> s.contains(#[trigger] q[k])
}

/// The index of the modifier of type `t` that applies: the best bonus
/// (when `b`) or the worst penalty; `-1` when there is none.
pub open spec fn extreme_index(s: Seq<Modifier>, t: ModifierType, b: bool) -> int {
    if b {
        best_bonus_index(s, t)
    } else {
        worst_penalty_index(s, t)
    }
}

/// The value the bonuses (when `b`) or penalties of type `t` add.
pub open spec fn extreme(s: Seq<Modifier>, t: ModifierType, b: bool) -> int {
    if b {
        best_bonus(s, t)
    } else {
        worst_penalty(s, t)
    }
}

proof fn lemma_count_concat(p: Seq<Modifier>, q: Seq<Modifier>, t: ModifierType, b: bool)
    ensures
        count_kind(p + q, t, b) == count_kind(p, t, b) + count_kind(q, t, b),
    decreases q.len(),
{
    if q.len() == 0 {
        assert(p + q =~= p);
    } else {
        lemma_count_concat(p, q.drop_last(), t, b);
        assert((p + q).drop_last() =~= p + q.drop_last());
        assert((p + q).last() == q.last());
    }
}

proof fn lemma_count_none(q: Seq<Modifier>, t: ModifierType, b: bool)
    requires
        forall|i: int| 0 <= i < q.len() ==> !is_kind_of(#[trigger] q[i], t, b),
    ensures
        count_kind(q, t, b) == 0,
    decreases q.len(),
{
    if q.len() > 0 {
        let p = q.drop_last();
        assert forall|i: int| 0 <= i < p.len() implies !is_kind_of(#[trigger] p[i], t, b) by {
            assert(p[i] == q[i]);
        }
        lemma_count_none(p, t, b);
        assert(!is_kind_of(q[q.len() - 1], t, b));
    }
}

proof fn lemma_count_two(q: Seq<Modifier>, t: ModifierType, b: bool, i: int, j: int)
    requires
        0 <= i < j < q.len(),
        is_kind_of(q[i], t, b),
        is_kind_of(q[j], t, b),
    ensures
        count_kind(q, t, b) >= 2,
    decreases q.len(),
{
    let p = q.drop_last();
    assert(p[i] == q[i]);
    if j == q.len() - 1 {
        lemma_count_one(p, t, b, i);
    } else {
        assert(p[j] == q[j]);
        lemma_count_two(p, t, b, i, j);
    }
    lemma_count_nonneg(p, t, b);
}

proof fn lemma_count_nonneg(q: Seq<Modifier>, t: ModifierType, b: bool)
    ensures
        count_kind(q, t, b) >= 0,
    decreases q.len(),
{
    if q.len() > 0 {
        lemma_count_nonneg(q.drop_last(), t, b);
    }
}

proof fn lemma_count_one(q: Seq<Modifier>, t: ModifierType, b: bool, i: int)
    requires
        0 <= i < q.len(),
        is_kind_of(q[i], t, b),
    ensures
        count_kind(q, t, b) >= 1,
    decreases q.len(),
{
    let p = q.drop_last();
    lemma_count_nonneg(p, t, b);
    if i < q.len() - 1 {
        assert(p[i] == q[i]);
        lemma_count_one(p, t, b, i);
    }
}

proof fn lemma_kind_values_concat(p: Seq<Modifier>, q: Seq<Modifier>, t: ModifierType, b: bool, v: int)
    requires
        kind_values(p, t, b, v),
        kind_values(q, t, b, v),
    ensures
        kind_values(p + q, t, b, v),
{
    assert forall|i: int| 0 <= i < (p + q).len() && #[trigger] is_kind_of((p + q)[i], t, b) implies (p
        + q)[i].value == v by {
        if i < p.len() {
            assert((p + q)[i] == p[i]);
        } else {
            assert((p + q)[i] == q[i - p.len()]);
        }
    }
}

proof fn lemma_all_in_concat(p: Seq<Modifier>, q: Seq<Modifier>, s: Seq<Modifier>)
    requires
        all_in(p, s),
        all_in(q, s),
    ensures
        all_in(p + q, s),
{
    assert forall|k: int| 0 <= k < (p + q).len() implies s.contains(#[trigger] (p + q)[k]) by {
        if k < p.len() {
            assert((p + q)[k] == p[k]);
        } else {
            assert((p + q)[k] == q[k - p.len()]);
        }
    }
}

proof fn lemma_untyped_of_untyped(s: Seq<Modifier>)
    ensures
        forall|i: int| 0 <= i < untyped_of(s).len() ==> (#[trigger] untyped_of(s)[i]).modifier_type
            == ModifierType::Untyped,
    decreases s.len(),
{
    if s.len() > 0 {
        let p = s.drop_last();
        lemma_untyped_of_untyped(p);
        let r = untyped_of(p);
        assert forall|i: int| 0 <= i < untyped_of(s).len() implies (#[trigger] untyped_of(
            s,
        )[i]).modifier_type == ModifierType::Untyped by {
            if i < r.len() {
                assert(untyped_of(s)[i] == r[i]);
            }
        }
    }
}

proof fn lemma_others_in(s: Seq<Modifier>, t: ModifierType, b: bool, k: int)
    ensures
        all_in(others_of(s, t, b, k), s),
    decreases s.len(),
{
    if s.len() > 0 {
        let p = s.drop_last();
        lemma_others_in(p, t, b, k);
        let r = others_of(p, t, b, k);
        assert forall|m: int| 0 <= m < others_of(s, t, b, k).len() implies s.contains(
            #[trigger] others_of(s, t, b, k)[m],
        ) by {
            if m < r.len() {
                assert(others_of(s, t, b, k)[m] == r[m]);
                assert(p.contains(r[m]));
                let j = choose|j: int| 0 <= j < p.len() && p[j] == r[m];
                assert(s[j] == p[j]);
            } else {
                assert(s[s.len() - 1] == s.last());
            }
        }
    }
}

proof fn lemma_chosen_kind(s: Seq<Modifier>, idx: int, t: ModifierType, b: bool)
    requires
        -1 <= idx < s.len(),
    ensures
        count_kind(chosen(s, idx), t, b) == if idx >= 0 && is_kind_of(s[idx], t, b) {
            1int
        } else {
            0int
        },
        idx >= 0 ==> chosen(s, idx) == seq![s[idx]],
{
    let c = chosen(s, idx);
    let e = Seq::<Modifier>::empty();
    assert(count_kind(e, t, b) == 0);
    if idx >= 0 {
        assert(c.drop_last() =~= e);
        assert(c.last() == s[idx]);
        assert(count_kind(c, t, b) == count_kind(c.drop_last(), t, b) + if is_kind_of(s[idx], t, b) {
            1int
        } else {
            0int
        });
    } else {
        assert(c =~= e);
    }
}

/// What a typed category `u` applies holds the bonus (or penalty) of type
/// `t` that applies, when `u` is `t` and there is one, and no other.
proof fn lemma_category_kind(s: Seq<Modifier>, u: ModifierType, t: ModifierType, b: bool)
    ensures
        count_kind(category_applied(s, u), t, b) == if u == t && extreme_index(s, t, b) >= 0 {
            1int
        } else {
            0int
        },
        kind_values(category_applied(s, u), t, b, extreme(s, t, b)),
{
    lemma_best_index_bounds(s, u);
    lemma_best_index_bounds(s, t);
    let kb = best_bonus_index(s, u);
    let kw = worst_penalty_index(s, u);
    lemma_chosen_kind(s, kb, t, b);
    lemma_chosen_kind(s, kw, t, b);
    lemma_count_concat(chosen(s, kb), chosen(s, kw), t, b);
    let c = category_applied(s, u);
    assert forall|i: int| 0 <= i < c.len() && #[trigger] is_kind_of(c[i], t, b) implies c[i].value
        == extreme(s, t, b) by {
        if kb >= 0 && i == 0 {
            assert(c[i] == s[kb]);
        } else if kb >= 0 {
            assert(c[i] == s[kw]);
        } else {
            assert(c[i] == s[kw]);
        }
    }
}

proof fn lemma_applied_kind(s: Seq<Modifier>, t: ModifierType, b: bool)
    requires
        t != ModifierType::Untyped,
    ensures
        count_kind(applied_of(s), t, b) == if extreme_index(s, t, b) >= 0 {
            1int
        } else {
            0int
        },
        kind_values(applied_of(s), t, b, extreme(s, t, b)),
{
    let u = untyped_of(s);
    let a1 = category_applied(s, ModifierType::Ability);
    let a2 = category_applied(s, ModifierType::Proficiency);
    let a3 = category_applied(s, ModifierType::Item);
    let a4 = category_applied(s, ModifierType::Status);
    let a5 = category_applied(s, ModifierType::Circumstance);
    lemma_untyped_of_untyped(s);
    lemma_count_none(u, t, b);
    assert(kind_values(u, t, b, extreme(s, t, b)));
    lemma_category_kind(s, ModifierType::Ability, t, b);
    lemma_category_kind(s, ModifierType::Proficiency, t, b);
    lemma_category_kind(s, ModifierType::Item, t, b);
    lemma_category_kind(s, ModifierType::Status, t, b);
    lemma_category_kind(s, ModifierType::Circumstance, t, b);
    let v = extreme(s, t, b);
    lemma_count_concat(u, a1, t, b);
    lemma_kind_values_concat(u, a1, t, b, v);
    lemma_count_concat(u + a1, a2, t, b);
    lemma_kind_values_concat(u + a1, a2, t, b, v);
    lemma_count_concat(u + a1 + a2, a3, t, b);
    lemma_kind_values_concat(u + a1 + a2, a3, t, b, v);
    lemma_count_concat(u + a1 + a2 + a3, a4, t, b);
    lemma_kind_values_concat(u + a1 + a2 + a3, a4, t, b, v);
    lemma_count_concat(u + a1 + a2 + a3 + a4, a5, t, b);
    lemma_kind_values_concat(u + a1 + a2 + a3 + a4, a5, t, b, v);
}

proof fn lemma_suppressed_in(s: Seq<Modifier>)
    ensures
        all_in(suppressed_of(s), s),
{
    let ts = seq![
        ModifierType::Ability,
        ModifierType::Proficiency,
        ModifierType::Item,
        ModifierType::Status,
        ModifierType::Circumstance,
    ];
    assert forall|n: int| 0 <= n < 5 implies all_in(#[trigger] category_suppressed(s, ts[n]), s) by {
        let t = ts[n];
        lemma_others_in(s, t, true, best_bonus_index(s, t));
        lemma_others_in(s, t, false, worst_penalty_index(s, t));
        lemma_all_in_concat(
            others_of(s, t, true, best_bonus_index(s, t)),
            others_of(s, t, false, worst_penalty_index(s, t)),
            s,
        );
    }
    let c1 = category_suppressed(s, ts[0]);
    let c2 = category_suppressed(s, ts[1]);
    let c3 = category_suppressed(s, ts[2]);
    let c4 = category_suppressed(s, ts[3]);
    let c5 = category_suppressed(s, ts[4]);
    lemma_all_in_concat(c1, c2, s);
    lemma_all_in_concat(c1 + c2, c3, s);
    lemma_all_in_concat(c1 + c2 + c3, c4, s);
    lemma_all_in_concat(c1 + c2 + c3 + c4, c5, s);
}

/// Of each type, what applies is at most one bonus and at most one
/// penalty: exactly one of each sign when the stack has one, and it is the
/// greatest bonus or the most negative penalty of that type. Every
/// suppressed bonus of a type is no greater than the one that applies, and
/// every suppressed penalty no more negative. The total is the sum of what
/// applies.
pub proof fn lemma_one_applied_per_type(s: Seq<Modifier>)
    ensures
        stacked_total(s) == sum_values(applied_of(s)),
        forall|t: ModifierType, b: bool|
            #![trigger count_kind(applied_of(s), t, b)]
            t != ModifierType::Untyped ==> count_kind(applied_of(s), t, b) == if extreme_index(s, t, b)
                >= 0 {
                1int
            } else {
                0int
            },
        forall|t: ModifierType, b: bool, i: int, j: int|
            t != ModifierType::Untyped && 0 <= i < applied_of(s).len() && 0 <= j < applied_of(s).len()
                && #[trigger] is_kind_of(applied_of(s)[i], t, b) && #[trigger] is_kind_of(
                applied_of(s)[j],
                t,
                b,
            ) ==> i == j,
        forall|t: ModifierType, b: bool, i: int|
            t != ModifierType::Untyped && 0 <= i < applied_of(s).len() && #[trigger] is_kind_of(
                applied_of(s)[i],
                t,
                b,
            ) ==> applied_of(s)[i].value == extreme(s, t, b),
        forall|t: ModifierType, k: int|
            0 <= k < suppressed_of(s).len() && #[trigger] is_bonus_of(suppressed_of(s)[k], t) ==> 0 < suppressed_of(
                s,
            )[k].value <= best_bonus(s, t),
        forall|t: ModifierType, k: int|
            0 <= k < suppressed_of(s).len() && #[trigger] is_penalty_of(suppressed_of(s)[k], t) ==> worst_penalty(
                s,
                t,
            ) <= suppressed_of(s)[k].value < 0,
{
    let a = applied_of(s);
    assert forall|t: ModifierType, b: bool| #![trigger count_kind(applied_of(s), t, b)]
        t != ModifierType::Untyped implies count_kind(applied_of(s), t, b) == if extreme_index(s, t, b)
        >= 0 {
        1int
    } else {
        0int
    } by {
        lemma_applied_kind(s, t, b);
    }
    assert forall|t: ModifierType, b: bool, i: int, j: int|
        t != ModifierType::Untyped && 0 <= i < a.len() && 0 <= j < a.len() && #[trigger] is_kind_of(
            a[i],
            t,
            b,
        ) && #[trigger] is_kind_of(a[j], t, b) implies i == j by {
        lemma_applied_kind(s, t, b);
        if i < j {
            lemma_count_two(a, t, b, i, j);
        } else if j < i {
            lemma_count_two(a, t, b, j, i);
        }
    }
    assert forall|t: ModifierType, b: bool, i: int|
        t != ModifierType::Untyped && 0 <= i < a.len() && #[trigger] is_kind_of(a[i], t, b) implies a[i].value
        == extreme(s, t, b) by {
        lemma_applied_kind(s, t, b);
    }
    let sp = suppressed_of(s);
    lemma_suppressed_in(s);
    assert forall|t: ModifierType, k: int|
        0 <= k < sp.len() && #[trigger] is_bonus_of(sp[k], t) implies 0 < sp[k].value <= best_bonus(s, t) by {
        assert(s.contains(sp[k]));
        let j = choose|j: int| 0 <= j < s.len() && s[j] == sp[k];
        lemma_extremes(s, t);
        assert(is_bonus_of(s[j], t));
    }
    assert forall|t: ModifierType, k: int|
        0 <= k < sp.len() && #[trigger] is_penalty_of(sp[k], t) implies worst_penalty(s, t) <= sp[k].value < 0 by {
        assert(s.contains(sp[k]));
        let j = choose|j: int| 0 <= j < s.len() && s[j] == sp[k];
        lemma_extremes(s, t);
        assert(is_penalty_of(s[j], t));
    }
}

} // verus!
