//! Contract validation.
//!
//! The wire format does most of the work: unknown fields are rejected, absent
//! fields are a parse error unless the type says `Option`, and a confidence
//! outside `0.0..=1.0` cannot be constructed. What is left over is the set of
//! rules a type system cannot state, and they live here.
//!
//! The design rule behind all of them: **a contract violation is an error, not
//! a warning.** A coaching pipeline that accepts a malformed envelope and
//! carries on produces advice about a state nobody can reconstruct afterwards.

use vstd::prelude::*;

use crate::ids::{SchemaVersion, CURRENT_SCHEMA_VERSION};
use crate::observation::GameStateEnvelope;
use crate::recommendation::{Recommendation, RecommendedAction};
use crate::text::{debug_list, decimal, is_blank, is_blank_text, push_debug_list, push_decimal};

verus! {

/// Why a contract instance is not acceptable.
#[derive(Debug, Clone, PartialEq, Eq)]
pub enum ContractError {
    /// The payload declares a schema version this build does not understand.
    ///
    /// Deliberately not "ignore and hope": a future envelope may give an
    /// existing field a new meaning, and silently reading it with old rules is
    /// how a coach ends up describing a state that never existed.
    UnsupportedSchemaVersion {
        /// What the payload declared.
        found: SchemaVersion,
        /// What this build understands.
        supported: SchemaVersion,
    },
    /// A field that must not be empty was empty.
    Empty {
        /// Dotted path of the offending field.
        field: &'static str,
    },
    /// Action priorities must be unique and start at 1.
    MalformedPriorities {
        /// What was found, in order.
        found: Vec<u8>,
    },
}

/// The description of a contract error, as a player-facing log line.
pub open spec fn contract_error_text(e: ContractError) -> Seq<char> {
    match e {
        ContractError::UnsupportedSchemaVersion { found, supported } => "schema_version "@
            + decimal(found as nat) + " is not supported by this build (supports "@ + decimal(
            supported as nat,
        ) + ")"@,
        ContractError::Empty { field } => field@ + " must not be empty"@,
        ContractError::MalformedPriorities { found } =>
            "action priorities must be unique and start at 1; found "@ + debug_list(found@),
    }
}

impl ContractError {
    /// The human-readable description of this error.
    pub fn message(&self) -> (r: String)
        ensures
            r@ == contract_error_text(*self),
    {
        let mut out = String::new();
        match self {
            ContractError::UnsupportedSchemaVersion { found, supported } => {
                out.append("schema_version ");
                push_decimal(&mut out, *found);
                out.append(" is not supported by this build (supports ");
                push_decimal(&mut out, *supported);
                out.append(")");
            },
            ContractError::Empty { field } => {
                out.append(field);
                out.append(" must not be empty");
            },
            ContractError::MalformedPriorities { found } => {
                out.append("action priorities must be unique and start at 1; found ");
                push_debug_list(&mut out, found);
            },
        }
        assert(out@ =~= contract_error_text(*self));
        out
    }
}

/// The verdict on a declared schema version.
pub open spec fn schema_version_verdict(found: SchemaVersion) -> Result<(), ContractError> {
    if found == CURRENT_SCHEMA_VERSION {
        Ok(())
    } else {
        Err(ContractError::UnsupportedSchemaVersion { found, supported: CURRENT_SCHEMA_VERSION })
    }
}

/// Only the schema version this build understands is accepted; any other is
/// refused, naming the version found and the one supported.
pub proof fn lemma_only_the_current_schema_version_is_accepted(found: SchemaVersion)
    ensures
        schema_version_verdict(found) is Ok <==> found == CURRENT_SCHEMA_VERSION,
        found != CURRENT_SCHEMA_VERSION ==> schema_version_verdict(found) == Err::<
            (),
            ContractError,
        >(ContractError::UnsupportedSchemaVersion { found, supported: CURRENT_SCHEMA_VERSION }),
{
}

/// Accepts exactly the schema version this build understands.
pub fn check_schema_version(found: SchemaVersion) -> (r: Result<(), ContractError>)
    ensures
        r == schema_version_verdict(found),
        r is Ok <==> found == CURRENT_SCHEMA_VERSION,
        found != CURRENT_SCHEMA_VERSION ==> r == Err::<(), ContractError>(
            ContractError::UnsupportedSchemaVersion { found, supported: CURRENT_SCHEMA_VERSION },
        ),
{
    proof {
        lemma_only_the_current_schema_version_is_accepted(found);
    }
    if found == CURRENT_SCHEMA_VERSION {
        Ok(())
    } else {
        Err(ContractError::UnsupportedSchemaVersion { found, supported: CURRENT_SCHEMA_VERSION })
    }
}

/// The verdict on an observation envelope: the schema version first, then a
/// non-empty game id, then a non-empty frame hash.
pub open spec fn envelope_verdict(e: GameStateEnvelope) -> Result<(), ContractError> {
    if e.schema_version != CURRENT_SCHEMA_VERSION {
        schema_version_verdict(e.schema_version)
    } else if e.game_id@.len() == 0 {
        Err(ContractError::Empty { field: "game_id" })
    } else if e.source.frame_hash@.len() == 0 {
        Err(ContractError::Empty { field: "source.frame_hash" })
    } else {
        Ok(())
    }
}

/// An envelope is accepted exactly when it declares the current schema
/// version, names its game and carries a frame hash. A foreign schema version
/// is refused as such, whatever else the envelope holds; with the version
/// right, an empty game id is refused before an empty frame hash.
pub proof fn lemma_envelope_acceptance(e: GameStateEnvelope)
    ensures
        envelope_verdict(e) is Ok <==> (e.schema_version == CURRENT_SCHEMA_VERSION
            && e.game_id@.len() > 0 && e.source.frame_hash@.len() > 0),
        e.schema_version != CURRENT_SCHEMA_VERSION ==> envelope_verdict(e) == Err::<
            (),
            ContractError,
        >(
            ContractError::UnsupportedSchemaVersion {
                found: e.schema_version,
                supported: CURRENT_SCHEMA_VERSION,
            },
        ),
        e.schema_version == CURRENT_SCHEMA_VERSION && e.game_id@.len() == 0 ==> envelope_verdict(e)
            == Err::<(), ContractError>(ContractError::Empty { field: "game_id" }),
        e.schema_version == CURRENT_SCHEMA_VERSION && e.game_id@.len() > 0
            && e.source.frame_hash@.len() == 0 ==> envelope_verdict(e) == Err::<(), ContractError>(
            ContractError::Empty { field: "source.frame_hash" },
        ),
{
}

/// The priorities that are checked are those of every action, in order: one
/// per action, the `i`-th being the `i`-th action's.
pub proof fn lemma_priorities_are_every_action(actions: Seq<RecommendedAction>)
    ensures
        priorities_of(actions).len() == actions.len(),
        forall|i: int| 0 <= i < actions.len() ==> #[trigger] priorities_of(actions)[i] == actions[i].priority,
{
}

/// The priorities of a list of actions, in order.
pub open spec fn priorities_of(actions: Seq<RecommendedAction>) -> Seq<u8> {
    actions.map_values(|a: RecommendedAction| a.priority)
}

/// The priorities, taken as a set, are exactly `1..=n` for a list of `n`
/// priorities. No priorities at all is a valid ranking; more than 255 never
/// is, since a `u8` priority has no rank beyond 255 to give.
pub open spec fn is_dense_ranking(p: Seq<u8>) -> bool {
    p.len() == 0 || (p.len() <= 255 && p.to_set() == Set::new(|k: u8| 1 <= k && k <= p.len()))
}

impl GameStateEnvelope {
    /// Check the rules the wire format cannot express.
    pub fn validate(&self) -> (r: Result<(), ContractError>)
        ensures
            r == envelope_verdict(*self),
            r is Ok ==> self.schema_version == CURRENT_SCHEMA_VERSION && self.game_id@.len() > 0
                && self.source.frame_hash@.len() > 0,
            self.schema_version != CURRENT_SCHEMA_VERSION ==> r == Err::<(), ContractError>(
                ContractError::UnsupportedSchemaVersion {
                    found: self.schema_version,
                    supported: CURRENT_SCHEMA_VERSION,
                },
            ),
    {
        proof {
            lemma_envelope_acceptance(*self);
        }
        if self.schema_version != CURRENT_SCHEMA_VERSION {
            return check_schema_version(self.schema_version);
        }
        if self.game_id.as_str().is_empty() {
            return Err(ContractError::Empty { field: "game_id" });
        }
        if self.source.frame_hash.as_str().is_empty() {
            return Err(ContractError::Empty { field: "source.frame_hash" });
        }
        Ok(())
    }
}

/// Collects the priorities of the actions, in order.
fn collect_priorities(actions: &Vec<RecommendedAction>) -> (r: Vec<u8>)
    ensures
        r@ == priorities_of(actions@),
        r@.len() == actions@.len(),
        forall|i: int| 0 <= i < actions@.len() ==> #[trigger] r@[i] == actions@[i].priority,
{
    proof {
        lemma_priorities_are_every_action(actions@);
    }
    let mut out: Vec<u8> = Vec::new();
    let n = actions.len();
    let mut i: usize = 0;
    while i < n
        invariant
            n == actions@.len(),
            i <= n,
            out@ =~= priorities_of(actions@.take(i as int)),
        decreases n - i,
    {
        out.push(actions[i].priority);
        assert(priorities_of(actions@.take(i + 1)) =~= priorities_of(actions@.take(i as int)).push(
            actions@[i as int].priority,
        ));
        i = i + 1;
    }
    assert(actions@.take(n as int) =~= actions@);
    out
}

/// Whether the priorities form a dense ranking from one.
pub fn is_dense_priority_ranking(p: &Vec<u8>) -> (r: bool)
    ensures
        r == is_dense_ranking(p@),
{
    let n = p.len();
    if n == 0 {
        return true;
    }
    if n > 255 {
        return false;
    }
    let top: u8 = n as u8;
    let ghost target = Set::new(|k: u8| 1 <= k && k <= p@.len());
    let mut seen: Vec<bool> = Vec::new();
    let mut k: usize = 0;
    while k < 256
        invariant
            k <= 256,
            seen@.len() == k,
            forall|j: int| 0 <= j < k ==> !seen@[j],
        decreases 256 - k,
    {
        seen.push(false);
        k = k + 1;
    }
    let mut i: usize = 0;
    while i < n
        invariant
            n == p@.len(),
            n > 0,
            top as nat == n,
            target == Set::new(|k: u8| 1 <= k && k <= p@.len()),
            i <= n,
            seen@.len() == 256,
            forall|j: int| 0 <= j < i ==> 1 <= #[trigger] p@[j] && p@[j] <= top,
            forall|v: int|
                0 <= v < 256 ==> (#[trigger] seen@[v] <==> exists|j: int|
                    0 <= j < i && p@[j] as int == v),
        decreases n - i,
    {
        let v = p[i];
        if v == 0 || v > top {
            assert(p@.to_set().contains(v));
            assert(!target.contains(v));
            return false;
        }
        seen.set(v as usize, true);
        assert forall|w: int| 0 <= w < 256 implies (#[trigger] seen@[w] <==> exists|j: int|
            0 <= j < i + 1 && p@[j] as int == w) by {
            if w == v as int {
                assert(p@[i as int] as int == w);
            }
        }
        i = i + 1;
    }
    let mut r: usize = 1;
    while r <= top as usize
        invariant
            n == p@.len(),
            top as nat == n,
            target == Set::new(|k: u8| 1 <= k && k <= p@.len()),
            1 <= r <= top as usize + 1,
            seen@.len() == 256,
            forall|v: int|
                0 <= v < 256 ==> (#[trigger] seen@[v] <==> exists|j: int|
                    0 <= j < n && p@[j] as int == v),
            forall|w: int| 1 <= w < r ==> #[trigger] seen@[w],
        decreases top as int + 1 - r as int,
    {
        if !seen[r] {
            let ghost x = r as u8;
            assert(target.contains(x));
            assert(!p@.to_set().contains(x)) by {
                if p@.to_set().contains(x) {
                    let j = choose|j: int| 0 <= j < p@.len() && p@[j] == x;
                    assert(seen@[r as int]);
                }
            }
            return false;
        }
        r = r + 1;
    }
    assert(forall|w: int| 1 <= w <= top ==> #[trigger] seen@[w]);
    assert forall|x: u8| #[trigger] p@.to_set().contains(x) <==> target.contains(x) by {
        if p@.to_set().contains(x) {
            let j = choose|j: int| 0 <= j < p@.len() && p@[j] == x;
            assert(1 <= p@[j] <= top);
        }
        if target.contains(x) {
            assert(seen@[x as int]);
            let j = choose|j: int| 0 <= j < n && p@[j] as int == x as int;
            assert(p@.to_set().contains(p@[j]));
        }
    }
    assert(p@.to_set() =~= target);
    true
}

/// `{k | 1 <= k <= n}` over `u8` has exactly `n` elements.
proof fn lemma_rank_set_len(n: nat)
    requires
        n <= 255,
    ensures
        Set::new(|k: u8| 1 <= k && k <= n).finite(),
        Set::new(|k: u8| 1 <= k && k <= n).len() == n,
    decreases n,
{
    if n == 0 {
        assert(Set::new(|k: u8| 1 <= k && k <= n) =~= Set::<u8>::empty());
    } else {
        lemma_rank_set_len((n - 1) as nat);
        let smaller = Set::new(|k: u8| 1 <= k && k <= (n - 1) as nat);
        let top = n as u8;
        assert(smaller.insert(top) =~= Set::new(|k: u8| 1 <= k && k <= n));
        assert(!smaller.contains(top));
    }
}

/// The priorities form a dense ranking from one exactly when they are
/// pairwise distinct and each lies in `1..=n`: the actions are ranked
/// `1, 2, ..., n` in some order, each rank used once.
pub proof fn lemma_dense_ranking_is_a_permutation(p: Seq<u8>)
    ensures
        is_dense_ranking(p) <==> (p.no_duplicates() && forall|i: int|
            0 <= i < p.len() ==> 1 <= #[trigger] p[i] && p[i] <= p.len()),
{
    let n = p.len();
    if n == 0 {
        return;
    }
    if n > 255 {
        if p.no_duplicates() && forall|i: int| 0 <= i < p.len() ==> 1 <= #[trigger] p[i] && p[i] <= p.len() {
            let ranks = Set::new(|k: u8| 1 <= k && k <= 255);
            lemma_rank_set_len(255);
            assert(p.to_set().subset_of(ranks)) by {
                assert forall|x: u8| p.to_set().contains(x) implies ranks.contains(x) by {
                    let j = choose|j: int| 0 <= j < p.len() && p[j] == x;
                    assert(1 <= p[j]);
                }
            }
            p.unique_seq_to_set();
            vstd::set_lib::lemma_len_subset(p.to_set(), ranks);
        }
        return;
    }
    let target = Set::new(|k: u8| 1 <= k && k <= n);
    lemma_rank_set_len(n);
    if is_dense_ranking(p) {
        assert(p.to_set() == target);
        assert forall|i: int| 0 <= i < p.len() implies 1 <= #[trigger] p[i] && p[i] <= p.len() by {
            assert(p.to_set().contains(p[i]));
        }
        p.lemma_no_dup_set_cardinality();
    }
    if p.no_duplicates() && (forall|i: int| 0 <= i < p.len() ==> 1 <= #[trigger] p[i] && p[i] <= p.len()) {
        assert(p.to_set().subset_of(target)) by {
            assert forall|x: u8| p.to_set().contains(x) implies target.contains(x) by {
                let j = choose|j: int| 0 <= j < p.len() && p[j] == x;
                assert(1 <= p[j] && p[j] <= n);
            }
        }
        p.unique_seq_to_set();
        vstd::set_lib::lemma_subset_equality(p.to_set(), target);
    }
}

/// The verdict on a recommendation: the schema version first, then a summary
/// that is not blank, then priorities that form a dense ranking from one.
pub open spec fn recommendation_verdict(r: Recommendation) -> Result<(), ContractError> {
    if r.schema_version != CURRENT_SCHEMA_VERSION {
        schema_version_verdict(r.schema_version)
    } else if is_blank_text(r.summary@) {
        Err(ContractError::Empty { field: "summary" })
    } else {
        Ok(())
    }
}

impl Recommendation {
    /// Check the rules the wire format cannot express.
    ///
    /// Citation verification is **not** here: it needs the set of documents
    /// retrieval actually returned this turn, which this contract has no way
    /// to know.
    pub fn validate(&self) -> (r: Result<(), ContractError>)
        ensures
            recommendation_verdict(*self) is Err ==> r == recommendation_verdict(*self),
            recommendation_verdict(*self) is Ok ==> {
                let p = priorities_of(self.actions@);
                if is_dense_ranking(p) {
                    r is Ok
                } else {
                    r matches Err(ContractError::MalformedPriorities { found }) && found@ == p
                }
            },
            self.schema_version != CURRENT_SCHEMA_VERSION ==> r == Err::<(), ContractError>(
                ContractError::UnsupportedSchemaVersion {
                    found: self.schema_version,
                    supported: CURRENT_SCHEMA_VERSION,
                },
            ),
            r is Ok ==> self.schema_version == CURRENT_SCHEMA_VERSION && !is_blank_text(
                self.summary@,
            ) && (forall|i: int, j: int|
                0 <= i < j < self.actions@.len() ==> #[trigger] self.actions@[i].priority
                    != #[trigger] self.actions@[j].priority) && (forall|i: int|
                0 <= i < self.actions@.len() ==> 1 <= #[trigger] self.actions@[i].priority
                    && self.actions@[i].priority <= self.actions@.len()),
            self.schema_version == CURRENT_SCHEMA_VERSION && !is_blank_text(self.summary@) && (exists|
                i: int,
                j: int,
            |
                0 <= i < j < self.actions@.len() && #[trigger] self.actions@[i].priority
                    == #[trigger] self.actions@[j].priority) ==> r matches Err(
                ContractError::MalformedPriorities { .. },
            ),
            r matches Err(ContractError::MalformedPriorities { found }) ==> found@.len()
                == self.actions@.len() && forall|i: int|
                0 <= i < self.actions@.len() ==> #[trigger] found@[i] == self.actions@[i].priority,
    {
        proof {
            let p = priorities_of(self.actions@);
            lemma_priorities_are_every_action(self.actions@);
            lemma_dense_ranking_is_a_permutation(p);
            if is_dense_ranking(p) {
                assert forall|i: int, j: int| 0 <= i < j < self.actions@.len() implies #[trigger] self.actions@[i].priority
                    != #[trigger] self.actions@[j].priority by {
                    assert(p[i] == self.actions@[i].priority && p[j] == self.actions@[j].priority);
                }
                assert forall|i: int| 0 <= i < self.actions@.len() implies 1 <= #[trigger] self.actions@[i].priority
                    && self.actions@[i].priority <= self.actions@.len() by {
                    assert(p[i] == self.actions@[i].priority);
                }
            }
            if exists|i: int, j: int| 0 <= i < j < self.actions@.len() && #[trigger] self.actions@[i].priority
                    == #[trigger] self.actions@[j].priority {
                let (i, j) = choose|i: int, j: int| 0 <= i < j < self.actions@.len() && #[trigger] self.actions@[i].priority
                    == #[trigger] self.actions@[j].priority;
                assert(p[i] == p[j]);
                assert(!p.no_duplicates());
            }
        }
        if self.schema_version != CURRENT_SCHEMA_VERSION {
            return check_schema_version(self.schema_version);
        }
        if is_blank(self.summary.as_str()) {
            return Err(ContractError::Empty { field: "summary" });
        }
        let priorities = collect_priorities(&self.actions);
        if !is_dense_priority_ranking(&priorities) {
            return Err(ContractError::MalformedPriorities { found: priorities });
        }
        Ok(())
    }
}

} // verus!
