//! The compile-time game-adapter registry.
//!
//! Adapters are Rust types linked at build time, not binaries dropped into a
//! directory. A third-party game therefore arrives as a pull request that a
//! per-game owner reviews.
//!
//! The registry is a map from game id to adapter. It keeps its adapters in a
//! vector ordered by game id (code point order, as `String` orders), with no
//! id twice, and every adapter filed under the id its own manifest reports.

use vstd::prelude::*;

use crate::battlegrounds::{BattlegroundsAdapter, GAME_ID};
use crate::game_api::{GameAdapter, SupportStatus};
use crate::ids::GameId;
use crate::text::{
    lemma_text_less_irreflexive, lemma_text_less_total, lemma_text_less_transitive, text_less,
    text_lt,
};

verus! {

broadcast use vstd::string::group_string_axioms;

/// Why a registry lookup failed.
#[derive(Debug, Clone, PartialEq, Eq)]
pub enum RegistryError {
    /// No adapter is registered for the requested game.
    UnknownGame(GameId),
}

impl RegistryError {
    /// The human-readable description of this error.
    pub fn message(&self) -> (r: String)
        ensures
            r@ == match self {
                RegistryError::UnknownGame(id) => "no adapter registered for game "@ + id@,
            },
    {
        let mut out = String::new();
        match self {
            RegistryError::UnknownGame(id) => {
                out.append("no adapter registered for game ");
                out.append(id.as_str());
            },
        }
        out
    }
}

/// An adapter as the registry holds it.
pub struct AdapterSlot<A: ?Sized> {
    /// The registered adapter.
    pub adapter: Box<A>,
}

/// The id a slot is filed under: the one its adapter's manifest reports.
pub open spec fn adapter_key<A: GameAdapter + ?Sized>(slot: AdapterSlot<A>) -> Seq<char> {
    slot.adapter.spec_manifest().game_id@
}

/// Every game Augur can coach.
pub struct AdapterRegistry {
    adapters: Vec<AdapterSlot<dyn GameAdapter>>,
    by_id: Ghost<Map<Seq<char>, AdapterSlot<dyn GameAdapter>>>,
}

impl View for AdapterRegistry {
    type V = Map<Seq<char>, AdapterSlot<dyn GameAdapter>>;

    closed spec fn view(&self) -> Map<Seq<char>, AdapterSlot<dyn GameAdapter>> {
        self.by_id@
    }
}

/// The ids of `adapters`, in order.
spec fn keys_of(adapters: Seq<AdapterSlot<dyn GameAdapter>>) -> Seq<Seq<char>> {
    adapters.map_values(|a: AdapterSlot<dyn GameAdapter>| adapter_key(a))
}

/// Ids strictly increase along the vector.
spec fn strictly_ordered(adapters: Seq<AdapterSlot<dyn GameAdapter>>) -> bool {
    forall|i: int, j: int|
        0 <= i < j < adapters.len() ==> text_less(
            #[trigger] adapter_key(adapters[i]),
            #[trigger] adapter_key(adapters[j]),
        )
}

/// The vector and the map hold the same adapters under the same ids.
spec fn indexes(adapters: Seq<AdapterSlot<dyn GameAdapter>>, by_id: Map<Seq<char>, AdapterSlot<dyn GameAdapter>>) -> bool {
    &&& forall|i: int|
        0 <= i < adapters.len() ==> by_id.contains_key(#[trigger] adapter_key(adapters[i]))
            && by_id[adapter_key(adapters[i])] == adapters[i]
    &&& forall|k: Seq<char>|
        #[trigger] by_id.contains_key(k) ==> exists|i: int|
            0 <= i < adapters.len() && #[trigger] adapter_key(adapters[i]) == k
}


/// Replacing the adapter filed under an id with another adapter for the same
/// id keeps the vector ordered and indexed by the updated map.
proof fn lemma_replace_keeps_index(
    adapters: Seq<AdapterSlot<dyn GameAdapter>>,
    by_id: Map<Seq<char>, AdapterSlot<dyn GameAdapter>>,
    i: int,
    adapter: AdapterSlot<dyn GameAdapter>,
)
    requires
        strictly_ordered(adapters),
        indexes(adapters, by_id),
        0 <= i < adapters.len(),
        adapter_key(adapters[i]) == adapter_key(adapter),
    ensures
        strictly_ordered(adapters.update(i, adapter)),
        indexes(adapters.update(i, adapter), by_id.insert(adapter_key(adapter), adapter)),
{
    let k = adapter_key(adapter);
    let next = adapters.update(i, adapter);
    let next_by_id = by_id.insert(k, adapter);
    assert forall|a: int, b: int| 0 <= a < b < next.len() implies text_less(
        #[trigger] adapter_key(next[a]),
        #[trigger] adapter_key(next[b]),
    ) by {
        assert(text_less(adapter_key(adapters[a]), adapter_key(adapters[b])));
    }
    assert forall|j: int| 0 <= j < next.len() implies next_by_id.contains_key(
        #[trigger] adapter_key(next[j]),
    ) && next_by_id[adapter_key(next[j])] == next[j] by {
        if j != i {
            assert(next[j] == adapters[j]);
            if j < i {
                assert(text_less(adapter_key(adapters[j]), adapter_key(adapters[i])));
            } else {
                assert(text_less(adapter_key(adapters[i]), adapter_key(adapters[j])));
            }
            lemma_text_less_irreflexive(k);
            assert(by_id.contains_key(adapter_key(adapters[j])));
        }
    }
    assert forall|key: Seq<char>| #[trigger] next_by_id.contains_key(key) implies exists|j: int|
        0 <= j < next.len() && #[trigger] adapter_key(next[j]) == key by {
        if key == k {
            assert(adapter_key(next[i]) == key);
        } else {
            let j = choose|j: int| 0 <= j < adapters.len() && #[trigger] adapter_key(adapters[j]) == key;
            assert(adapter_key(next[j]) == key);
        }
    }
}

/// Inserting an adapter for a new id at the position where every id before it
/// is smaller and the id after it is larger keeps the vector ordered and
/// indexed by the updated map.
proof fn lemma_insert_keeps_index(
    adapters: Seq<AdapterSlot<dyn GameAdapter>>,
    by_id: Map<Seq<char>, AdapterSlot<dyn GameAdapter>>,
    i: int,
    adapter: AdapterSlot<dyn GameAdapter>,
)
    requires
        strictly_ordered(adapters),
        indexes(adapters, by_id),
        0 <= i <= adapters.len(),
        forall|j: int| 0 <= j < i ==> text_less(#[trigger] adapter_key(adapters[j]), adapter_key(adapter)),
        i < adapters.len() ==> text_less(adapter_key(adapter), adapter_key(adapters[i])),
    ensures
        strictly_ordered(adapters.insert(i, adapter)),
        indexes(adapters.insert(i, adapter), by_id.insert(adapter_key(adapter), adapter)),
{
    let k = adapter_key(adapter);
    let next = adapters.insert(i, adapter);
    let next_by_id = by_id.insert(k, adapter);
    assert forall|j: int| i <= j < adapters.len() implies text_less(k, #[trigger] adapter_key(adapters[j])) by {
        if j > i {
            assert(text_less(adapter_key(adapters[i]), adapter_key(adapters[j])));
            lemma_text_less_transitive(k, adapter_key(adapters[i]), adapter_key(adapters[j]));
        }
    }
    assert forall|a: int, b: int| 0 <= a < b < next.len() implies text_less(
        #[trigger] adapter_key(next[a]),
        #[trigger] adapter_key(next[b]),
    ) by {
        if b < i {
            assert(text_less(adapter_key(adapters[a]), adapter_key(adapters[b])));
        } else if b == i {
            assert(next[a] == adapters[a]);
        } else if a < i {
            assert(next[a] == adapters[a]);
            assert(next[b] == adapters[b - 1]);
            lemma_text_less_transitive(adapter_key(adapters[a]), k, adapter_key(adapters[b - 1]));
        } else if a == i {
            assert(next[b] == adapters[b - 1]);
        } else {
            assert(next[a] == adapters[a - 1]);
            assert(next[b] == adapters[b - 1]);
            assert(text_less(adapter_key(adapters[a - 1]), adapter_key(adapters[b - 1])));
        }
    }
    assert forall|j: int| 0 <= j < next.len() implies next_by_id.contains_key(
        #[trigger] adapter_key(next[j]),
    ) && next_by_id[adapter_key(next[j])] == next[j] by {
        if j != i {
            let oj = if j < i { j } else { j - 1 };
            assert(next[j] == adapters[oj]);
            assert(by_id.contains_key(adapter_key(adapters[oj])));
            if j < i {
                assert(text_less(adapter_key(adapters[oj]), k));
            } else {
                assert(text_less(k, adapter_key(adapters[oj])));
            }
            lemma_text_less_irreflexive(k);
        }
    }
    assert forall|key: Seq<char>| #[trigger] next_by_id.contains_key(key) implies exists|j: int|
        0 <= j < next.len() && #[trigger] adapter_key(next[j]) == key by {
        if key == k {
            assert(adapter_key(next[i]) == key);
        } else {
            let j = choose|j: int| 0 <= j < adapters.len() && #[trigger] adapter_key(adapters[j]) == key;
            if j < i {
                assert(next[j] == adapters[j]);
                assert(adapter_key(next[j]) == key);
            } else {
                assert(next[j + 1] == adapters[j]);
                assert(adapter_key(next[j + 1]) == key);
            }
        }
    }
}

/// Filing a value under a key grows a finite map by one entry, unless the key
/// was already there.
proof fn lemma_insert_len(
    m: Map<Seq<char>, AdapterSlot<dyn GameAdapter>>,
    k: Seq<char>,
    v: AdapterSlot<dyn GameAdapter>,
)
    requires
        m.dom().finite(),
    ensures
        m.insert(k, v).len() == m.len() + if m.contains_key(k) {
            0int
        } else {
            1int
        },
{
    assert(m.insert(k, v).dom() =~= m.dom().insert(k));
}

impl AdapterRegistry {
    #[verifier::type_invariant]
    spec fn well_formed(self) -> bool {
        &&& strictly_ordered(self.adapters@)
        &&& indexes(self.adapters@, self.by_id@)
    }

    fn empty() -> (r: Self)
        ensures
            r@.dom() == Set::<Seq<char>>::empty(),
    {
        AdapterRegistry { adapters: Vec::new(), by_id: Ghost(Map::empty()) }
    }

    /// Build the registry with every compiled-in adapter.
    ///
    /// **This is the single registration point.** Adding a game means adding
    /// one line here; if a future change requires editing a match arm
    /// somewhere else as well, the seam has regressed.
    pub fn with_builtin_adapters() -> (r: Self)
        ensures
            r@.dom() == set![GAME_ID@],
            r@[GAME_ID@].adapter.spec_manifest().game_id@ == GAME_ID@,
            r@[GAME_ID@].adapter.spec_manifest().display_name@ == "Hearthstone Battlegrounds"@,
            r@[GAME_ID@].adapter.spec_manifest().adapter_version@ == "0.1.0"@,
            r@[GAME_ID@].adapter.spec_manifest().support_status == SupportStatus::Experimental,
    {
        let mut registry = Self::empty();
        registry.register(Box::new(BattlegroundsAdapter::new()));
        assert(registry@.dom() =~= set![GAME_ID@]);
        registry
    }

    /// Register one adapter, replacing any adapter already under its id.
    pub fn register(&mut self, adapter: Box<dyn GameAdapter>)
        ensures
            final(self)@.dom() == old(self)@.dom().insert(adapter.spec_manifest().game_id@),
            final(self)@[adapter.spec_manifest().game_id@].adapter == adapter,
            forall|k: Seq<char>|
                k != adapter.spec_manifest().game_id@ && #[trigger] old(self)@.contains_key(k)
                    ==> final(self)@[k] == old(self)@[k],
            final(self)@.len() == old(self)@.len() + if old(self)@.contains_key(
                adapter.spec_manifest().game_id@,
            ) {
                0int
            } else {
                1int
            },
    {
        let ghost given = adapter;
        let slot = AdapterSlot { adapter };
        assert(slot.adapter == given);
        assert(adapter_key(slot) == given.spec_manifest().game_id@);
        self.file(slot);
    }

    /// File a slot under the id its adapter's manifest reports, replacing
    /// any slot already under that id.
    fn file(&mut self, slot: AdapterSlot<dyn GameAdapter>)
        ensures
            final(self)@ == old(self)@.insert(adapter_key(slot), slot),
            final(self)@.len() == old(self)@.len() + if old(self)@.contains_key(adapter_key(slot)) {
                0int
            } else {
                1int
            },
    {
        let ghost before = self@;
        let ghost new_adapter = slot;
        let ghost k = adapter_key(new_adapter);
        let manifest = slot.adapter.manifest();
        let id = manifest.game_id.clone();
        assert(id == manifest.game_id);
        assert(*manifest == new_adapter.adapter.spec_manifest());
        assert(id@ == k);
        let mut current = Self::empty();
        std::mem::swap(self, &mut current);
        proof {
            use_type_invariant(&current);
            current.lemma_len();
        }
        let AdapterRegistry { adapters: mut adapters, by_id: Ghost(by_id) } = current;
        assert(by_id == before);
        let ghost old_adapters = adapters@;
        let n = adapters.len();
        let mut i: usize = 0;
        let mut replace = false;
        while i < n
            invariant_except_break
                n == adapters@.len(),
                adapters@ == old_adapters,
                i <= n,
                id@ == k,
                !replace,
                forall|j: int| 0 <= j < i ==> text_less(#[trigger] adapter_key(adapters@[j]), k),
            ensures
                n == adapters@.len(),
                adapters@ == old_adapters,
                i <= n,
                id@ == k,
                forall|j: int| 0 <= j < i ==> text_less(#[trigger] adapter_key(adapters@[j]), k),
                replace ==> i < n && adapter_key(adapters@[i as int]) == k,
                !replace && i < n ==> text_less(k, adapter_key(adapters@[i as int])),
            decreases n - i,
        {
            let here = &adapters[i].adapter.manifest().game_id;
            assert(here@ == adapter_key(adapters@[i as int]));
            if text_lt(here.as_str(), id.as_str()) {
                i = i + 1;
            } else {
                proof {
                    lemma_text_less_total(here@, id@);
                }
                replace = *here == id;
                break;
            }
        }
        let ghost new_adapters;
        if replace {
            adapters.set(i, slot);
            proof {
                new_adapters = old_adapters.update(i as int, new_adapter);
            }
        } else {
            adapters.insert(i, slot);
            proof {
                new_adapters = old_adapters.insert(i as int, new_adapter);
            }
        }
        let ghost new_by_id = by_id.insert(k, new_adapter);
        proof {
            lemma_insert_len(by_id, k, new_adapter);
            assert(adapters@ =~= new_adapters);
            if replace {
                lemma_replace_keeps_index(old_adapters, by_id, i as int, new_adapter);
            } else {
                lemma_insert_keeps_index(old_adapters, by_id, i as int, new_adapter);
            }
        }
        *self = AdapterRegistry { adapters, by_id: Ghost(new_by_id) };
    }

    /// Look up an adapter. An unknown game is an error, never a default.
    pub fn get(&self, id: &GameId) -> (r: Result<&Box<dyn GameAdapter>, RegistryError>)
        ensures
            r is Ok <==> self@.contains_key(id@),
            r matches Ok(a) ==> *a == self@[id@].adapter,
            r matches Ok(a) ==> a.spec_manifest().game_id@ == id@,
            r matches Err(e) ==> e == RegistryError::UnknownGame(*id),
    {
        proof {
            use_type_invariant(self);
        }
        let n = self.adapters.len();
        let mut i: usize = 0;
        while i < n
            invariant
                n == self.adapters@.len(),
                i <= n,
                strictly_ordered(self.adapters@),
                indexes(self.adapters@, self.by_id@),
                forall|j: int| 0 <= j < i ==> #[trigger] adapter_key(self.adapters@[j]) != id@,
            decreases n - i,
        {
            let entry = &self.adapters[i].adapter;
            let manifest = entry.manifest();
            assert(*manifest == self.adapters@[i as int].adapter.spec_manifest());
            if manifest.game_id == *id {
                assert(adapter_key(self.adapters@[i as int]) == id@);
                assert(self.by_id@[adapter_key(self.adapters@[i as int])] == self.adapters@[i as int]);
                assert(entry.spec_manifest().game_id@ == id@);
                return Ok(entry);
            }
            i = i + 1;
        }
        Err(RegistryError::UnknownGame(id.clone()))
    }

    /// Every registered game id, in stable (ascending) order.
    pub fn game_ids(&self) -> (r: Vec<GameId>)
        ensures
            forall|i: int, j: int| 0 <= i < j < r@.len() ==> text_less(#[trigger] r@[i]@, #[trigger] r@[j]@),
            forall|k: Seq<char>| self@.contains_key(k) <==> exists|i: int| 0 <= i < r@.len() && #[trigger] r@[i]@ == k,
    {
        proof {
            use_type_invariant(self);
        }
        let n = self.adapters.len();
        let mut out: Vec<GameId> = Vec::new();
        let mut i: usize = 0;
        while i < n
            invariant
                n == self.adapters@.len(),
                i <= n,
                out@.len() == i,
                forall|j: int| 0 <= j < i ==> #[trigger] out@[j]@ == adapter_key(self.adapters@[j]),
            decreases n - i,
        {
            let manifest = self.adapters[i].adapter.manifest();
            let id = manifest.game_id.clone();
            assert(id == manifest.game_id);
            out.push(id);
            i = i + 1;
        }
        proof {
            assert forall|a: int, b: int| 0 <= a < b < out@.len() implies text_less(#[trigger] out@[a]@, #[trigger] out@[b]@) by {
                assert(text_less(adapter_key(self.adapters@[a]), adapter_key(self.adapters@[b])));
            }
            assert forall|k: Seq<char>| self@.contains_key(k) <==> exists|i: int| 0 <= i < out@.len() && #[trigger] out@[i]@ == k by {
                if self@.contains_key(k) {
                    let j = choose|j: int| 0 <= j < self.adapters@.len() && #[trigger] adapter_key(self.adapters@[j]) == k;
                    assert(out@[j]@ == k);
                }
                if exists|i: int| 0 <= i < out@.len() && #[trigger] out@[i]@ == k {
                    let j = choose|j: int| 0 <= j < out@.len() && #[trigger] out@[j]@ == k;
                    assert(self.by_id@.contains_key(adapter_key(self.adapters@[j])));
                }
            }
        }
        out
    }

    /// The registered ids, as a set, are the ids of the vector, with no id
    /// twice: so the registry holds as many adapters as its vector.
    proof fn lemma_len(&self)
        requires
            strictly_ordered(self.adapters@),
            indexes(self.adapters@, self.by_id@),
        ensures
            self@.dom().finite(),
            self@.dom().len() == self.adapters@.len(),
    {
        let ks = keys_of(self.adapters@);
        assert forall|a: int, b: int| 0 <= a < ks.len() && 0 <= b < ks.len() && a != b implies ks[a] != ks[b] by {
            if a < b {
                assert(text_less(adapter_key(self.adapters@[a]), adapter_key(self.adapters@[b])));
                lemma_text_less_irreflexive(ks[a]);
            } else {
                assert(text_less(adapter_key(self.adapters@[b]), adapter_key(self.adapters@[a])));
                lemma_text_less_irreflexive(ks[a]);
            }
        }
        ks.unique_seq_to_set();
        assert forall|k: Seq<char>| self@.dom().contains(k) <==> ks.to_set().contains(k) by {
            if self@.dom().contains(k) {
                let j = choose|j: int| 0 <= j < self.adapters@.len() && #[trigger] adapter_key(self.adapters@[j]) == k;
                assert(ks[j] == k);
            }
            if ks.to_set().contains(k) {
                let j = choose|j: int| 0 <= j < ks.len() && ks[j] == k;
                assert(self.by_id@.contains_key(adapter_key(self.adapters@[j])));
            }
        }
        assert(self@.dom() =~= ks.to_set());
    }

    /// How many adapters are registered.
    pub fn len(&self) -> (r: usize)
        ensures
            r == self@.len(),
    {
        proof {
            use_type_invariant(self);
            self.lemma_len();
        }
        self.adapters.len()
    }

    /// Whether no adapters are registered.
    pub fn is_empty(&self) -> (r: bool)
        ensures
            r == (self@.len() == 0),
    {
        proof {
            use_type_invariant(self);
            self.lemma_len();
        }
        self.adapters.len() == 0
    }
}

/// What a lookup gives back of a registration: once `register` has filed
/// `adapter`, the registry is the one before with exactly one entry set, the
/// one under the adapter's own game id, which holds that adapter; every other
/// id is registered, or not, exactly as before, to the same adapter.
pub proof fn lemma_lookup_after_register(
    before: Map<Seq<char>, AdapterSlot<dyn GameAdapter>>,
    after: Map<Seq<char>, AdapterSlot<dyn GameAdapter>>,
    adapter: Box<dyn GameAdapter>,
    other: Seq<char>,
)
    requires
        after.dom() == before.dom().insert(adapter.spec_manifest().game_id@),
        after[adapter.spec_manifest().game_id@].adapter == adapter,
        forall|k: Seq<char>|
            k != adapter.spec_manifest().game_id@ && #[trigger] before.contains_key(k) ==> after[k]
                == before[k],
    ensures
        after == before.insert(
            adapter.spec_manifest().game_id@,
            after[adapter.spec_manifest().game_id@],
        ),
        after.contains_key(adapter.spec_manifest().game_id@),
        after[adapter.spec_manifest().game_id@].adapter == adapter,
        other != adapter.spec_manifest().game_id@ ==> (after.contains_key(other)
            <==> before.contains_key(other)),
        other != adapter.spec_manifest().game_id@ && before.contains_key(other) ==> after[other]
            == before[other],
{
    let key = adapter.spec_manifest().game_id@;
    assert(after =~= before.insert(key, after[key]));
}

impl Default for AdapterRegistry {
    fn default() -> (r: Self)
        ensures
            r@.dom() == set![GAME_ID@],
            r@[GAME_ID@].adapter.spec_manifest().game_id@ == GAME_ID@,
            r@[GAME_ID@].adapter.spec_manifest().display_name@ == "Hearthstone Battlegrounds"@,
            r@[GAME_ID@].adapter.spec_manifest().adapter_version@ == "0.1.0"@,
            r@[GAME_ID@].adapter.spec_manifest().support_status == SupportStatus::Experimental,
    {
        Self::with_builtin_adapters()
    }
}

} // verus!
