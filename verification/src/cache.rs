//! The load-once model cache: one entry per identifier, moving from absent
//! through `Loading` to `Ready` or `Failed`, so that any number of
//! concurrent requesters trigger at most one load and all observe one
//! shared outcome.
//!
//! The cache itself is a sequential state machine; the surrounding
//! application guards it with a lock held only across these transitions,
//! never across the load operation itself, and performs the load whenever
//! `begin_resolve` answers `StartLoad`. The laws at the bottom of the
//! module state the guarantees: one load per identifier however many
//! requesters race (also after a retriable failure), stable answers once
//! an outcome is published, and independence of distinct identifiers.
use vstd::prelude::*;
use vstd::string::*;

use crate::model::ModelError;

verus! {

/// The lifecycle state of one cache entry.
#[derive(Debug)]
pub enum EntryState {
    /// A load is in flight; requesters wait for its outcome.
    Loading,
    /// The engine produced a handle, recorded here by its token.
    Ready(u64),
    /// The load failed. A later request retries unless the failure is
    /// permanent.
    Failed { error: ModelError, permanent: bool },
}

impl EntryState {
    /// An equal copy of the state.
    pub fn duplicate(&self) -> (r: EntryState)
        ensures
            r == *self,
    {
        match self {
            EntryState::Loading => EntryState::Loading,
            EntryState::Ready(h) => EntryState::Ready(*h),
            EntryState::Failed { error, permanent } => EntryState::Failed {
                error: error.duplicate(),
                permanent: *permanent,
            },
        }
    }
}

/// What one resolution attempt tells its caller to do.
#[derive(Debug)]
pub enum ResolveAction {
    /// The model is loaded; use this handle token.
    Hit(u64),
    /// Another requester's load is in flight; wait for its outcome.
    Wait,
    /// This caller owns the load: perform it and publish the outcome.
    StartLoad,
    /// The identifier failed permanently; this error stands.
    Refused(ModelError),
}

/// The outcome a load owner publishes when its load finishes.
#[derive(Debug)]
pub enum LoadOutcome {
    /// The engine produced a handle with this token.
    Loaded(u64),
    /// The load failed; a permanent failure is never retried.
    Rejected { error: ModelError, permanent: bool },
}

/// The entry state an outcome publishes.
pub open spec fn publish(o: LoadOutcome) -> EntryState {
    match o {
        LoadOutcome::Loaded(h) => EntryState::Ready(h),
        LoadOutcome::Rejected { error, permanent } => EntryState::Failed { error, permanent },
    }
}

/// The cache state after one resolution attempt for `id`.
pub open spec fn step_state(m: Map<Seq<char>, EntryState>, id: Seq<char>) -> Map<
    Seq<char>,
    EntryState,
> {
    if m.contains_key(id) {
        match m[id] {
            EntryState::Loading => m,
            EntryState::Ready(_) => m,
            EntryState::Failed { error: _, permanent } => if permanent {
                m
            } else {
                m.insert(id, EntryState::Loading)
            },
        }
    } else {
        m.insert(id, EntryState::Loading)
    }
}

/// The action one resolution attempt for `id` answers.
pub open spec fn step_action(m: Map<Seq<char>, EntryState>, id: Seq<char>) -> ResolveAction {
    if m.contains_key(id) {
        match m[id] {
            EntryState::Loading => ResolveAction::Wait,
            EntryState::Ready(h) => ResolveAction::Hit(h),
            EntryState::Failed { error, permanent } => if permanent {
                ResolveAction::Refused(error)
            } else {
                ResolveAction::StartLoad
            },
        }
    } else {
        ResolveAction::StartLoad
    }
}

struct CacheEntry {
    id: String,
    state: EntryState,
}

spec fn seq_wf(s: Seq<CacheEntry>) -> bool {
    forall|i: int, j: int| 0 <= i < j < s.len() ==> s[i].id@ != s[j].id@
}

spec fn map_of(s: Seq<CacheEntry>) -> Map<Seq<char>, EntryState>
    decreases s.len(),
{
    if s.len() == 0 {
        Map::empty()
    } else {
        map_of(s.drop_last()).insert(s.last().id@, s.last().state)
    }
}

proof fn lemma_map_of_contains(s: Seq<CacheEntry>, id: Seq<char>)
    ensures
        map_of(s).contains_key(id) <==> exists|i: int| 0 <= i < s.len() && #[trigger] s[i].id@
            == id,
    decreases s.len(),
{
    if s.len() > 0 {
        lemma_map_of_contains(s.drop_last(), id);
        if s.last().id@ == id {
            assert(s[s.len() - 1].id@ == id);
        } else if map_of(s).contains_key(id) {
            let i = choose|i: int| 0 <= i < s.drop_last().len() && #[trigger] s.drop_last()[i].id@
                == id;
            assert(s[i].id@ == id);
        } else {
            assert forall|i: int| 0 <= i < s.len() implies #[trigger] s[i].id@ != id by {
                if i < s.len() - 1 {
                    assert(s.drop_last()[i].id@ != id);
                }
            }
        }
    }
}

proof fn lemma_map_of_value(s: Seq<CacheEntry>, i: int)
    requires
        seq_wf(s),
        0 <= i < s.len(),
    ensures
        map_of(s).contains_key(s[i].id@),
        map_of(s)[s[i].id@] == s[i].state,
    decreases s.len(),
{
    lemma_map_of_contains(s, s[i].id@);
    if i < s.len() - 1 {
        assert(s.drop_last()[i] == s[i]);
        lemma_map_of_value(s.drop_last(), i);
        assert(s.last().id@ != s[i].id@);
    }
}

proof fn lemma_map_of_update(s: Seq<CacheEntry>, i: int, e: CacheEntry)
    requires
        seq_wf(s),
        0 <= i < s.len(),
        e.id@ == s[i].id@,
    ensures
        map_of(s.update(i, e)) =~= map_of(s).insert(e.id@, e.state),
        seq_wf(s.update(i, e)),
    decreases s.len(),
{
    let t = s.update(i, e);
    assert(forall|j: int| 0 <= j < s.len() && j != i ==> t[j] == s[j]);
    if i == s.len() - 1 {
        assert(t.drop_last() =~= s.drop_last());
        assert(t.last() == e);
        assert(map_of(t) =~= map_of(s).insert(e.id@, e.state));
    } else {
        assert(t.drop_last() =~= s.drop_last().update(i, e));
        assert(s.drop_last()[i] == s[i]);
        lemma_map_of_update(s.drop_last(), i, e);
        assert(t.last() == s.last());
        assert(s.last().id@ != e.id@);
        assert(map_of(t) =~= map_of(s.drop_last()).insert(e.id@, e.state).insert(
            s.last().id@,
            s.last().state,
        ));
        assert(map_of(t) =~= map_of(s).insert(e.id@, e.state));
    }
}

proof fn lemma_map_of_push(s: Seq<CacheEntry>, e: CacheEntry)
    requires
        seq_wf(s),
        forall|i: int| 0 <= i < s.len() ==> #[trigger] s[i].id@ != e.id@,
    ensures
        map_of(s.push(e)) =~= map_of(s).insert(e.id@, e.state),
        seq_wf(s.push(e)),
{
    assert(s.push(e).drop_last() =~= s);
    assert(s.push(e).last() == e);
    assert forall|i: int, j: int| 0 <= i < j < s.push(e).len() implies s.push(e)[i].id@ != s.push(
        e,
    )[j].id@ by {
        if j < s.len() {
            assert(s.push(e)[i] == s[i] && s.push(e)[j] == s[j]);
        } else {
            assert(s.push(e)[i] == s[i] && s.push(e)[j] == e);
        }
    }
}

/// The concurrent registry of loaded models, keyed by identifier. Viewed
/// as a map from identifier to entry state.
pub struct ModelCache {
    entries: Vec<CacheEntry>,
}

impl View for ModelCache {
    type V = Map<Seq<char>, EntryState>;

    closed spec fn view(&self) -> Map<Seq<char>, EntryState> {
        map_of(self.entries@)
    }
}

impl ModelCache {
    /// The internal invariant: one entry per identifier.
    pub closed spec fn wf(&self) -> bool {
        seq_wf(self.entries@)
    }

    /// An empty cache.
    pub fn new() -> (c: ModelCache)
        ensures
            c.wf(),
            c@ == Map::<Seq<char>, EntryState>::empty(),
    {
        ModelCache { entries: Vec::new() }
    }

    fn find_entry(&self, id: &str) -> (r: Option<usize>)
        ensures
            match r {
                Option::Some(i) => i < self.entries@.len() && self.entries@[i as int].id@ == id@,
                Option::None => forall|i: int|
                    0 <= i < self.entries@.len() ==> #[trigger] self.entries@[i].id@ != id@,
            },
    {
        let n: usize = self.entries.len();
        let mut i: usize = 0;
        while i < n
            invariant
                n == self.entries@.len(),
                i <= n,
                forall|j: int| 0 <= j < i ==> #[trigger] self.entries@[j].id@ != id@,
            decreases n - i,
        {
            if crate::strutil::str_eq(self.entries[i].id.as_str(), id) {
                return Some(i);
            }
            i += 1;
        }
        None
    }

    fn set_state(&mut self, i: usize, st: EntryState)
        requires
            old(self).wf(),
            i < old(self).entries@.len(),
        ensures
            final(self).wf(),
            final(self)@ == old(self)@.insert(old(self).entries@[i as int].id@, st),
    {
        let ghost olds = self.entries@;
        let mut e: CacheEntry = self.entries.remove(i);
        e.state = st;
        self.entries.insert(i, e);
        proof {
            assert(self.entries@ =~= olds.update(i as int, self.entries@[i as int]));
            lemma_map_of_update(olds, i as int, self.entries@[i as int]);
        }
    }

    /// Reads the entry for an identifier, without changing anything.
    pub fn lookup(&self, id: &str) -> (r: Option<EntryState>)
        requires
            self.wf(),
        ensures
            r == if self@.contains_key(id@) {
                Option::Some(self@[id@])
            } else {
                Option::None::<EntryState>
            },
    {
        proof {
            lemma_map_of_contains(self.entries@, id@);
        }
        match self.find_entry(id) {
            Some(i) => {
                proof {
                    lemma_map_of_value(self.entries@, i as int);
                }
                Some(self.entries[i].state.duplicate())
            },
            None => None,
        }
    }

    /// One resolution attempt for an identifier: answers what the caller
    /// must do and moves the entry as `step_state` describes — to
    /// `Loading` when this caller is to load (entry absent or failed
    /// retriably), otherwise leaving the cache unchanged.
    pub fn begin_resolve(&mut self, id: &str) -> (a: ResolveAction)
        requires
            old(self).wf(),
        ensures
            final(self).wf(),
            final(self)@ == step_state(old(self)@, id@),
            a == step_action(old(self)@, id@),
    {
        proof {
            lemma_map_of_contains(self.entries@, id@);
        }
        match self.find_entry(id) {
            Some(i) => {
                proof {
                    lemma_map_of_value(self.entries@, i as int);
                }
                match self.entries[i].state.duplicate() {
                    EntryState::Loading => ResolveAction::Wait,
                    EntryState::Ready(h) => ResolveAction::Hit(h),
                    EntryState::Failed { error, permanent } => {
                        if permanent {
                            ResolveAction::Refused(error)
                        } else {
                            self.set_state(i, EntryState::Loading);
                            ResolveAction::StartLoad
                        }
                    },
                }
            },
            None => {
                let ghost olds = self.entries@;
                self.entries.push(CacheEntry { id: String::from_str(id), state: EntryState::Loading });
                proof {
                    lemma_map_of_push(olds, self.entries@.last());
                    assert(self.entries@ =~= olds.push(self.entries@.last()));
                }
                ResolveAction::StartLoad
            },
        }
    }

    /// Publishes the outcome of a finished load to every current and
    /// future requester of the identifier.
    pub fn complete_load(&mut self, id: &str, outcome: LoadOutcome)
        requires
            old(self).wf(),
            old(self)@.contains_key(id@),
            old(self)@[id@] is Loading,
        ensures
            final(self).wf(),
            final(self)@ == old(self)@.insert(id@, publish(outcome)),
    {
        proof {
            lemma_map_of_contains(self.entries@, id@);
        }
        match self.find_entry(id) {
            Some(i) => {
                let st: EntryState = match outcome {
                    LoadOutcome::Loaded(h) => EntryState::Ready(h),
                    LoadOutcome::Rejected { error, permanent } => EntryState::Failed {
                        error,
                        permanent,
                    },
                };
                self.set_state(i, st);
            },
            None => {
                proof {
                    assert(false);
                }
            },
        }
    }
}

/// The cache state after `n` resolution attempts for one identifier.
pub open spec fn run_steps(m: Map<Seq<char>, EntryState>, id: Seq<char>, n: nat) -> Map<
    Seq<char>,
    EntryState,
>
    decreases n,
{
    if n == 0 {
        m
    } else {
        step_state(run_steps(m, id, (n - 1) as nat), id)
    }
}

/// How many of `n` resolution attempts for one identifier were told to
/// load.
pub open spec fn count_start_loads(m: Map<Seq<char>, EntryState>, id: Seq<char>, n: nat) -> nat
    decreases n,
{
    if n == 0 {
        0
    } else {
        count_start_loads(m, id, (n - 1) as nat) + (if step_action(
            run_steps(m, id, (n - 1) as nat),
            id,
        ) is StartLoad {
            1nat
        } else {
            0nat
        })
    }
}

/// The identifier is uncached, or cached as a retriable failure: the two
/// situations in which a resolution attempt starts a load.
pub open spec fn retriable(m: Map<Seq<char>, EntryState>, id: Seq<char>) -> bool {
    if m.contains_key(id) {
        m[id] matches EntryState::Failed { error: _, permanent: false }
    } else {
        true
    }
}

/// However many requesters ask for an uncached identifier — or retry one
/// whose load failed retriably — exactly one of them is told to load, and
/// the entry then stands at `Loading` until that load publishes its
/// outcome.
pub proof fn lemma_single_load(m: Map<Seq<char>, EntryState>, id: Seq<char>, n: nat)
    requires
        n >= 1,
        retriable(m, id),
    ensures
        count_start_loads(m, id, n) == 1,
        run_steps(m, id, n).contains_key(id),
        run_steps(m, id, n)[id] is Loading,
    decreases n,
{
    if n == 1 {
        assert(run_steps(m, id, 0) == m);
        assert(count_start_loads(m, id, 0) == 0);
        assert(step_action(m, id) is StartLoad);
    } else {
        lemma_single_load(m, id, (n - 1) as nat);
        assert(run_steps(m, id, (n - 1) as nat)[id] is Loading);
        assert(!(step_action(run_steps(m, id, (n - 1) as nat), id) is StartLoad));
    }
}

/// Once an outcome is published — a handle, or a permanent failure —
/// every further resolution attempt answers that same outcome and moves
/// nothing.
pub proof fn lemma_shared_outcome(m: Map<Seq<char>, EntryState>, id: Seq<char>, n: nat)
    requires
        m.contains_key(id),
        m[id] is Ready || (m[id] matches EntryState::Failed { error: _, permanent: true }),
    ensures
        run_steps(m, id, n) == m,
        forall|k: nat|
            k < n ==> #[trigger] step_action(run_steps(m, id, k), id) == step_action(m, id),
    decreases n,
{
    if n > 0 {
        lemma_shared_outcome(m, id, (n - 1) as nat);
        assert forall|k: nat| k < n implies #[trigger] step_action(run_steps(m, id, k), id)
            == step_action(m, id) by {
            if k < n - 1 {
            } else {
                assert(run_steps(m, id, k) == m);
            }
        }
    }
}

/// Distinct identifiers are independent: a resolution attempt for one
/// neither moves nor re-answers the other, so a slow load never delays an
/// unrelated request.
pub proof fn lemma_independent_identifiers(
    m: Map<Seq<char>, EntryState>,
    a: Seq<char>,
    b: Seq<char>,
)
    requires
        a != b,
    ensures
        step_state(m, a).contains_key(b) == m.contains_key(b),
        m.contains_key(b) ==> step_state(m, a)[b] == m[b],
        step_action(step_state(m, a), b) == step_action(m, b),
{
}

} // verus!
