//! Initiative order and encounter turn tracking.

use vstd::prelude::*;

verus! {

/// A single entry in the initiative order.
#[derive(Debug, Clone, Copy, PartialEq, Eq, Structural)]
pub struct InitiativeEntry {
    pub entity: u64,
    pub initiative: i32,
}

/// Entries ordered by initiative, highest first.
pub open spec fn sorted_desc(s: Seq<InitiativeEntry>) -> bool {
    forall|i: int, j: int| 0 <= i <= j < s.len() ==> s[i].initiative >= s[j].initiative
}

/// How many entries have an initiative of at least `x`.
pub open spec fn count_at_least(s: Seq<InitiativeEntry>, x: int) -> int
    decreases s.len(),
{
    if s.len() == 0 {
        0
    } else {
        count_at_least(s.drop_last(), x) + if s.last().initiative >= x {
            1int
        } else {
            0int
        }
    }
}

/// `s` with `e` placed after every entry whose initiative is at least
/// `e`'s and before every entry whose initiative is lower.
pub open spec fn inserted(s: Seq<InitiativeEntry>, e: InitiativeEntry) -> Seq<InitiativeEntry> {
    s.insert(count_at_least(s, e.initiative as int), e)
}

/// The entries of `s` that do not belong to `entity`, in their order.
pub open spec fn without_entity(s: Seq<InitiativeEntry>, entity: u64) -> Seq<InitiativeEntry>
    decreases s.len(),
{
    if s.len() == 0 {
        seq![]
    } else {
        let r = without_entity(s.drop_last(), entity);
        if s.last().entity != entity {
            r.push(s.last())
        } else {
            r
        }
    }
}

/// The initiative order of an encounter, highest initiative first; among
/// equal initiatives, whoever was added first acts first.
#[derive(Debug)]
pub struct InitiativeOrder {
    entries: Vec<InitiativeEntry>,
}

impl View for InitiativeOrder {
    type V = Seq<InitiativeEntry>;

    closed spec fn view(&self) -> Seq<InitiativeEntry> {
        self.entries@
    }
}

impl Clone for InitiativeOrder {
    fn clone(&self) -> (r: Self)
        ensures
            r@ == self@,
    {
        proof {
            use_type_invariant(self);
        }
        let n = self.entries.len();
        let mut entries: Vec<InitiativeEntry> = Vec::new();
        for i in 0..n
            invariant
                n == self.entries@.len(),
                entries@ == self.entries@.take(i as int),
        {
            proof {
                assert(self.entries@.take(i + 1) =~= self.entries@.take(i as int).push(self.entries@[i as int]));
            }
            entries.push(self.entries[i]);
        }
        proof {
            assert(self.entries@.take(n as int) =~= self.entries@);
        }
        InitiativeOrder { entries }
    }
}

impl Default for InitiativeOrder {
    fn default() -> (r: Self)
        ensures
            r@ == Seq::<InitiativeEntry>::empty(),
    {
        InitiativeOrder { entries: Vec::new() }
    }
}

impl InitiativeOrder {
    /// The entries are always sorted, highest initiative first.
    #[verifier::type_invariant]
    spec fn entries_sorted(self) -> bool {
        sorted_desc(self.entries@)
    }

    /// The order is sorted, highest initiative first.
    pub open spec fn wf(&self) -> bool {
        sorted_desc(self@)
    }

    pub fn new() -> (r: Self)
        ensures
            r@ == Seq::<InitiativeEntry>::empty(),
            r.wf(),
    {
        InitiativeOrder { entries: Vec::new() }
    }

    /// Add a creature: it goes after everyone with an initiative at least
    /// as high and before everyone with a lower one.
    pub fn add(&mut self, entity: u64, initiative: i32)
        ensures
            final(self).wf(),
            final(self)@ == inserted(old(self)@, InitiativeEntry { entity, initiative }),
    {
        proof {
            use_type_invariant(&*self);
        }
        let ghost s = self.entries@;
        let e = InitiativeEntry { entity, initiative };
        let n = self.entries.len();
        let mut i: usize = 0;
        loop
            invariant
                i <= n,
                n == s.len(),
                s == self.entries@,
                sorted_desc(s),
                forall|j: int| 0 <= j < i ==> s[j].initiative >= initiative,
            ensures
                i <= n,
                forall|j: int| 0 <= j < i ==> s[j].initiative >= initiative,
                forall|j: int| i <= j < n ==> s[j].initiative < initiative,
            decreases n - i,
        {
            if i >= n {
                break;
            }
            if self.entries[i].initiative < initiative {
                break;
            }
            i = i + 1;
        }
        proof {
            lemma_count_boundary(s, initiative as int, i as int);
            lemma_insert_position(s, e);
        }
        let mut entries: Vec<InitiativeEntry> = Vec::new();
        std::mem::swap(&mut entries, &mut self.entries);
        entries.insert(i, e);
        self.entries = entries;
    }

    /// The entries in turn order.
    pub fn order(&self) -> (r: &[InitiativeEntry])
        ensures
            r@ == self@,
    {
        self.entries.as_slice()
    }

    /// Drop every entry of `entity`.
    pub fn remove(&mut self, entity: u64)
        ensures
            final(self).wf(),
            final(self)@ == without_entity(old(self)@, entity),
    {
        proof {
            use_type_invariant(&*self);
        }
        let ghost s = self.entries@;
        let n = self.entries.len();
        let mut kept: Vec<InitiativeEntry> = Vec::new();
        for i in 0..n
            invariant
                n == s.len(),
                s == self.entries@,
                kept@ == without_entity(s.take(i as int), entity),
        {
            proof {
                assert(s.take(i + 1).drop_last() =~= s.take(i as int));
            }
            let e = self.entries[i];
            if e.entity != entity {
                kept.push(e);
            }
        }
        proof {
            assert(s.take(n as int) =~= s);
            lemma_without_sorted(s, entity);
        }
        self.entries = kept;
    }

    pub fn count(&self) -> (r: usize)
        ensures
            r == self@.len(),
    {
        self.entries.len()
    }

    /// The entity at position `index` of the order (0-indexed).
    pub fn at(&self, index: usize) -> (r: Option<u64>)
        ensures
            r == (if index < self@.len() {
                Some(self@[index as int].entity)
            } else {
                None
            }),
    {
        if index < self.entries.len() {
            Some(self.entries[index].entity)
        } else {
            None
        }
    }
}

/// Given a boundary `k` with every entry before it at least `x` and every
/// entry from it on below `x`, exactly `k` entries are at least `x`.
proof fn lemma_count_boundary(s: Seq<InitiativeEntry>, x: int, k: int)
    requires
        0 <= k <= s.len(),
        forall|j: int| 0 <= j < k ==> s[j].initiative >= x,
        forall|j: int| k <= j < s.len() ==> s[j].initiative < x,
    ensures
        count_at_least(s, x) == k,
    decreases s.len(),
{
    if s.len() > 0 {
        let p = s.drop_last();
        if k == s.len() {
            assert(s.last().initiative >= x);
            lemma_count_boundary(p, x, k - 1);
        } else {
            assert(s[s.len() - 1].initiative < x);
            lemma_count_boundary(p, x, k);
        }
    }
}

/// Where a new entry lands in a sorted order: every entry before it has at
/// least its initiative, every entry after it less; the order stays sorted.
pub proof fn lemma_insert_position(s: Seq<InitiativeEntry>, e: InitiativeEntry)
    requires
        sorted_desc(s),
    ensures
        ({
            let k = count_at_least(s, e.initiative as int);
            let t = inserted(s, e);
            &&& 0 <= k <= s.len()
            &&& t.len() == s.len() + 1
            &&& t[k] == e
            &&& forall|j: int| 0 <= j < k ==> #[trigger] t[j] == s[j] && s[j].initiative >= e.initiative
            &&& forall|j: int| k < j < t.len() ==> #[trigger] t[j] == s[j - 1] && s[j - 1].initiative
                < e.initiative
            &&& sorted_desc(t)
        }),
    decreases s.len(),
{
    let x = e.initiative as int;
    lemma_count_range(s, x);
    let k = count_at_least(s, x);
    lemma_sorted_prefix(s, x);
    let t = inserted(s, e);
    assert forall|i: int, j: int| 0 <= i <= j < t.len() implies t[i].initiative >= t[j].initiative by {
        if i < k {
            assert(t[i] == s[i]);
        } else if i > k {
            assert(t[i] == s[i - 1]);
            assert(t[j] == s[j - 1]);
        }
    }
}

proof fn lemma_count_range(s: Seq<InitiativeEntry>, x: int)
    ensures
        0 <= count_at_least(s, x) <= s.len(),
    decreases s.len(),
{
    if s.len() > 0 {
        lemma_count_range(s.drop_last(), x);
    }
}

/// In a sorted order, the entries at least `x` are exactly the first
/// `count_at_least(s, x)`.
proof fn lemma_sorted_prefix(s: Seq<InitiativeEntry>, x: int)
    requires
        sorted_desc(s),
    ensures
        forall|j: int| 0 <= j < count_at_least(s, x) ==> #[trigger] s[j].initiative >= x,
        forall|j: int| count_at_least(s, x) <= j < s.len() ==> #[trigger] s[j].initiative < x,
    decreases s.len(),
{
    if s.len() > 0 {
        let p = s.drop_last();
        assert(sorted_desc(p)) by {
            assert forall|i: int, j: int| 0 <= i <= j < p.len() implies p[i].initiative
                >= p[j].initiative by {
                assert(p[i] == s[i]);
                assert(p[j] == s[j]);
            }
        }
        lemma_sorted_prefix(p, x);
        lemma_count_range(p, x);
        let c = count_at_least(p, x);
        if s.last().initiative >= x {
            assert forall|j: int| 0 <= j < s.len() implies #[trigger] s[j].initiative >= x by {
                assert(s[j].initiative >= s[s.len() - 1].initiative);
            }
            if c < p.len() {
                assert(p[c] == s[c]);
                assert(false);
            }
        } else {
            assert forall|j: int| 0 <= j < c implies #[trigger] s[j].initiative >= x by {
                assert(p[j] == s[j]);
            }
            assert forall|j: int| c <= j < s.len() implies #[trigger] s[j].initiative < x by {
                if j < p.len() {
                    assert(p[j] == s[j]);
                }
            }
        }
    }
}

/// Removing an entity keeps the order sorted and adds nothing.
pub proof fn lemma_without_sorted(s: Seq<InitiativeEntry>, entity: u64)
    requires
        sorted_desc(s),
    ensures
        sorted_desc(without_entity(s, entity)),
        forall|e: InitiativeEntry| #[trigger] without_entity(s, entity).contains(e) ==> s.contains(e)
            && e.entity != entity,
    decreases s.len(),
{
    if s.len() > 0 {
        let p = s.drop_last();
        assert(sorted_desc(p));
        lemma_without_sorted(p, entity);
        let r = without_entity(p, entity);
        assert forall|e: InitiativeEntry| #[trigger] p.contains(e) implies s.contains(e) by {
            let j = choose|j: int| 0 <= j < p.len() && p[j] == e;
            assert(s[j] == e);
        }
        if s.last().entity != entity {
            let l = s.last();
            assert forall|i: int| 0 <= i < r.len() implies #[trigger] r[i].initiative >= l.initiative by {
                assert(r.contains(r[i]));
                let j = choose|j: int| 0 <= j < p.len() && p[j] == r[i];
                assert(s[j] == p[j]);
            }
            assert forall|e: InitiativeEntry| #[trigger] r.push(l).contains(e) implies s.contains(e)
                && e.entity != entity by {
                let j = choose|j: int| 0 <= j < r.push(l).len() && r.push(l)[j] == e;
                if j < r.len() {
                    assert(r.contains(e));
                } else {
                    assert(s[s.len() - 1] == e);
                }
            }
        }
    }
}

/// The phase of the encounter.
#[derive(Debug, Clone, Copy, PartialEq, Eq, Hash, Default, Structural)]
pub enum EncounterPhase {
    #[default]
    NotStarted,
    RollingInitiative,
    InProgress,
    Ended,
}

/// The overall encounter state.
#[derive(Debug, Clone, Copy, PartialEq, Eq, Structural)]
pub struct EncounterState {
    pub phase: EncounterPhase,
    pub round: u32,
    pub current_turn_index: usize,
}

/// The state after one turn passes in an order of `count` creatures: the
/// next creature acts, or, past the last one, a new round begins.
pub open spec fn advanced(s: EncounterState, count: int) -> EncounterState {
    if s.current_turn_index + 1 >= count {
        EncounterState { current_turn_index: 0, round: (s.round + 1) as u32, ..s }
    } else {
        EncounterState { current_turn_index: (s.current_turn_index + 1) as usize, ..s }
    }
}

/// The state after `n` turns pass.
pub open spec fn advanced_n(s: EncounterState, count: int, n: nat) -> EncounterState
    decreases n,
{
    if n == 0 {
        s
    } else {
        advanced(advanced_n(s, count, (n - 1) as nat), count)
    }
}

impl Default for EncounterState {
    fn default() -> (r: Self)
        ensures
            r == (EncounterState {
                phase: EncounterPhase::NotStarted,
                round: 0,
                current_turn_index: 0,
            }),
    {
        EncounterState { phase: EncounterPhase::NotStarted, round: 0, current_turn_index: 0 }
    }
}

impl EncounterState {
    /// Begin the encounter: round 1, first creature in the order.
    pub fn start(&mut self)
        ensures
            *final(self) == (EncounterState {
                phase: EncounterPhase::InProgress,
                round: 1,
                current_turn_index: 0,
            }),
    {
        self.phase = EncounterPhase::InProgress;
        self.round = 1;
        self.current_turn_index = 0;
    }

    /// Advance to the next turn. Returns true if a new round started.
    pub fn advance_turn(&mut self, initiative_count: usize) -> (r: bool)
        requires
            old(self).current_turn_index < usize::MAX,
            old(self).current_turn_index + 1 >= initiative_count ==> old(self).round < u32::MAX,
        ensures
            r == (old(self).current_turn_index + 1 >= initiative_count),
            *final(self) == advanced(*old(self), initiative_count as int),
    {
        self.current_turn_index = self.current_turn_index + 1;
        if self.current_turn_index >= initiative_count {
            self.current_turn_index = 0;
            self.round = self.round + 1;
            true
        } else {
            false
        }
    }

    pub fn end(&mut self)
        ensures
            *final(self) == (EncounterState { phase: EncounterPhase::Ended, ..*old(self) }),
    {
        self.phase = EncounterPhase::Ended;
    }
}

/// The turn index always names a creature of the order: advancing from a
/// valid index gives a valid index.
pub proof fn lemma_turn_index_in_order(s: EncounterState, count: int)
    requires
        0 <= s.current_turn_index < count,
    ensures
        0 <= advanced(s, count).current_turn_index < count,
        advanced(s, count).phase == s.phase,
{
}

/// Starting from the first creature, `count` turns make exactly one full
/// round: the first creature is up again and the round number grew by one.
pub proof fn lemma_full_cycle(s: EncounterState, count: nat)
    requires
        s.current_turn_index == 0,
        0 < count <= usize::MAX,
        s.round < u32::MAX,
    ensures
        advanced_n(s, count as int, count) == (EncounterState {
            round: (s.round + 1) as u32,
            ..s
        }),
{
    lemma_partial_cycle(s, count, (count - 1) as nat);
    let last = advanced_n(s, count as int, (count - 1) as nat);
    assert(advanced_n(s, count as int, count) == advanced(last, count as int));
}

proof fn lemma_partial_cycle(s: EncounterState, count: nat, k: nat)
    requires
        s.current_turn_index == 0,
        k < count <= usize::MAX,
    ensures
        advanced_n(s, count as int, k) == (EncounterState { current_turn_index: k as usize, ..s }),
    decreases k,
{
    if k > 0 {
        lemma_partial_cycle(s, count, (k - 1) as nat);
        let prev = advanced_n(s, count as int, (k - 1) as nat);
        assert(advanced_n(s, count as int, k) == advanced(prev, count as int));
    }
}

} // verus!
