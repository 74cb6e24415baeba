use vstd::prelude::*;

use crate::agent_id::{hyphenated_text, AgentId};
use crate::config::RuntimeConfig;
use crate::error::RuntimeError;

verus! {

/// An agent as the runtime records it: its identifier, its name, and the
/// handle by which the caller reaches the agent's task.
pub struct AgentEntry<H> {
    pub id: AgentId,
    pub name: String,
    pub handle: H,
}

/// Whether some entry of `s` has the identifier `id`.
pub open spec fn has_id<H>(s: Seq<AgentEntry<H>>, id: u128) -> bool {
    exists|i: int| 0 <= i < s.len() && (#[trigger] s[i]).id@ == id
}

/// No two entries of `s` share an identifier.
pub open spec fn unique_ids<H>(s: Seq<AgentEntry<H>>) -> bool {
    forall|i: int, j: int|
        0 <= i < s.len() && 0 <= j < s.len() && (#[trigger] s[i]).id@ == (#[trigger] s[j]).id@
            ==> i == j
}

/// The position of the entry with identifier `id` in `s` (meaningful when
/// `has_id(s, id)`).
pub open spec fn slot_of<H>(s: Seq<AgentEntry<H>>, id: u128) -> int {
    choose|i: int| 0 <= i < s.len() && (#[trigger] s[i]).id@ == id
}

/// The agents after spawning `e`: an entry with the same identifier is
/// replaced in place, otherwise `e` is added at the end.
pub open spec fn after_spawn<H>(s: Seq<AgentEntry<H>>, e: AgentEntry<H>) -> Seq<AgentEntry<H>> {
    if has_id(s, e.id@) {
        s.update(slot_of(s, e.id@), e)
    } else {
        s.push(e)
    }
}

/// The agents after stopping `id`: its entry is removed, if there is one.
pub open spec fn after_stop<H>(s: Seq<AgentEntry<H>>, id: u128) -> Seq<AgentEntry<H>> {
    if has_id(s, id) {
        s.remove(slot_of(s, id))
    } else {
        s
    }
}

/// In a sequence with unique identifiers, the entry found for `id` is the one
/// at `slot_of(s, id)`.
proof fn lemma_slot_is_unique<H>(s: Seq<AgentEntry<H>>, i: int)
    requires
        unique_ids(s),
        0 <= i < s.len(),
    ensures
        has_id(s, s[i].id@),
        slot_of(s, s[i].id@) == i,
{
    let id = s[i].id@;
    assert(has_id(s, id));
    let j = slot_of(s, id);
    assert(s[j].id@ == s[i].id@);
}

/// Spawning registers the agent: afterwards it is present, identifiers stay
/// unique, the count grows by one exactly when the identifier was new, and
/// every other identifier is present exactly as before.
pub proof fn law_spawn_registers<H>(s: Seq<AgentEntry<H>>, e: AgentEntry<H>)
    requires
        unique_ids(s),
    ensures
        has_id(after_spawn(s, e), e.id@),
        unique_ids(after_spawn(s, e)),
        after_spawn(s, e).len() == s.len() + (if has_id(s, e.id@) { 0int } else { 1int }),
        forall|other: u128| other != e.id@ ==> has_id(after_spawn(s, e), other) == has_id(s, other),
{
    let t = after_spawn(s, e);
    if has_id(s, e.id@) {
        let k = slot_of(s, e.id@);
        assert(t[k] == e);
        assert forall|i: int, j: int|
            0 <= i < t.len() && 0 <= j < t.len() && (#[trigger] t[i]).id@ == (#[trigger] t[j]).id@
            implies i == j by {
            if i != k && j != k {
                assert(s[i].id@ == s[j].id@);
            } else if i == k && j != k {
                assert(s[j].id@ == s[k].id@);
            } else if i != k && j == k {
                assert(s[i].id@ == s[k].id@);
            }
        }
        assert forall|other: u128| other != e.id@ implies has_id(t, other) == has_id(s, other) by {
            if has_id(s, other) {
                let w = slot_of(s, other);
                assert(t[w] == s[w]);
            }
            if has_id(t, other) {
                let w = slot_of(t, other);
                assert(t[w] == s[w]);
            }
        }
    } else {
        assert(t[s.len() as int] == e);
        assert forall|i: int, j: int|
            0 <= i < t.len() && 0 <= j < t.len() && (#[trigger] t[i]).id@ == (#[trigger] t[j]).id@
            implies i == j by {
            if i < s.len() && j < s.len() {
                assert(s[i].id@ == s[j].id@);
            } else if i < s.len() {
                assert(s[i].id@ == e.id@);
            } else if j < s.len() {
                assert(s[j].id@ == e.id@);
            }
        }
        assert forall|other: u128| other != e.id@ implies has_id(t, other) == has_id(s, other) by {
            if has_id(s, other) {
                let w = slot_of(s, other);
                assert(t[w] == s[w]);
            }
            if has_id(t, other) {
                let w = slot_of(t, other);
                assert(w < s.len());
                assert(t[w] == s[w]);
            }
        }
    }
}

/// Stopping removes the agent: afterwards it is absent, identifiers stay
/// unique, the count shrinks by one exactly when it was present, and every
/// other identifier is present exactly as before.
pub proof fn law_stop_removes<H>(s: Seq<AgentEntry<H>>, id: u128)
    requires
        unique_ids(s),
    ensures
        !has_id(after_stop(s, id), id),
        unique_ids(after_stop(s, id)),
        after_stop(s, id).len() == s.len() - (if has_id(s, id) { 1int } else { 0int }),
        forall|other: u128| other != id ==> has_id(after_stop(s, id), other) == has_id(s, other),
{
    let t = after_stop(s, id);
    if has_id(s, id) {
        let k = slot_of(s, id);
        assert(s[k].id@ == id);
        // t[i] is s[i] below k and s[i + 1] from k on.
        assert forall|i: int| 0 <= i < t.len() implies #[trigger] t[i] == (if i < k { s[i] } else { s[i + 1] }) by {}
        if has_id(t, id) {
            let w = slot_of(t, id);
            if w < k {
                assert(s[w].id@ == s[k].id@);
            } else {
                assert(s[w + 1].id@ == s[k].id@);
            }
        }
        assert forall|i: int, j: int|
            0 <= i < t.len() && 0 <= j < t.len() && (#[trigger] t[i]).id@ == (#[trigger] t[j]).id@
            implies i == j by {
            let si = if i < k { i } else { i + 1 };
            let sj = if j < k { j } else { j + 1 };
            assert(s[si].id@ == s[sj].id@);
        }
        assert forall|other: u128| other != id implies has_id(t, other) == has_id(s, other) by {
            if has_id(s, other) {
                let w = slot_of(s, other);
                assert(w != k);
                if w < k {
                    assert(t[w] == s[w]);
                } else {
                    assert(t[w - 1] == s[w]);
                }
            }
            if has_id(t, other) {
                let w = slot_of(t, other);
                if w < k {
                    assert(t[w] == s[w]);
                } else {
                    assert(t[w] == s[w + 1]);
                }
            }
        }
    }
}

/// Spawning an agent with a new identifier and then stopping it leaves the
/// agents exactly as they were.
pub proof fn law_spawn_then_stop_restores<H>(s: Seq<AgentEntry<H>>, e: AgentEntry<H>)
    requires
        unique_ids(s),
        !has_id(s, e.id@),
    ensures
        after_stop(after_spawn(s, e), e.id@) == s,
{
    let t = after_spawn(s, e);
    assert(t == s.push(e));
    lemma_slot_is_unique(t, s.len() as int);
    law_spawn_registers(s, e);
    assert(t.remove(s.len() as int) =~= s);
}

/// State of the agent runtime: its configuration, the agents it runs, and
/// whether it is marked as running.
pub struct Runtime<H> {
    config: RuntimeConfig,
    agents: Vec<AgentEntry<H>>,
    running: bool,
}

impl<H> Runtime<H> {
    /// The agents, in the order they were first spawned.
    pub closed spec fn agents(&self) -> Seq<AgentEntry<H>> {
        self.agents@
    }

    /// Whether the runtime is marked as running.
    pub closed spec fn running(&self) -> bool {
        self.running
    }

    /// The runtime's configuration.
    pub closed spec fn configuration(&self) -> RuntimeConfig {
        self.config
    }

    /// Well-formedness: no two agents share an identifier.
    pub open spec fn wf(&self) -> bool {
        unique_ids(self.agents())
    }

    /// A runtime with the default configuration, no agents, not running.
    pub fn new() -> (r: Self)
        ensures
            r.wf(),
            r.agents() == Seq::<AgentEntry<H>>::empty(),
            !r.running(),
            r.configuration().max_workers >= 1,
            r.configuration().enable_metrics,
            r.configuration().enable_tracing,
            r.configuration().default_timeout_ms == 30000,
    {
        Self::with_config(RuntimeConfig::default())
    }

    /// A runtime with the given configuration, no agents, not running.
    pub fn with_config(config: RuntimeConfig) -> (r: Self)
        ensures
            r.wf(),
            r.agents() == Seq::<AgentEntry<H>>::empty(),
            !r.running(),
            r.configuration() == config,
    {
        Runtime { config, agents: Vec::new(), running: false }
    }

    /// The runtime's configuration.
    pub fn config(&self) -> (c: &RuntimeConfig)
        ensures
            *c == self.configuration(),
    {
        &self.config
    }

    /// The position of the agent with identifier `id`, if there is one.
    fn find_slot(&self, id: &AgentId) -> (r: Option<usize>)
        ensures
            match r {
                Some(i) => i < self.agents().len() && self.agents()[i as int].id@ == id@,
                None => !has_id(self.agents(), id@),
            },
    {
        let mut i: usize = 0;
        while i < self.agents.len()
            invariant
                i <= self.agents@.len(),
                forall|j: int| 0 <= j < i ==> (#[trigger] self.agents@[j]).id@ != id@,
            decreases self.agents@.len() - i,
        {
            if self.agents[i].id.as_u128() == id.as_u128() {
                return Some(i);
            }
            i += 1;
        }
        None
    }

    /// Record a spawned agent. An agent already recorded under the same
    /// identifier is replaced in place and handed back, so that the caller
    /// can release it; otherwise the new agent is added after the others.
    pub fn spawn(&mut self, id: AgentId, name: String, handle: H) -> (displaced: Option<AgentEntry<H>>)
        requires
            old(self).wf(),
        ensures
            final(self).wf(),
            final(self).agents() == after_spawn(old(self).agents(), AgentEntry { id, name, handle }),
            final(self).running() == old(self).running(),
            final(self).configuration() == old(self).configuration(),
            displaced == (if has_id(old(self).agents(), id@) {
                Some(old(self).agents()[slot_of(old(self).agents(), id@)])
            } else {
                None
            }),
    {
        let ghost s = self.agents@;
        let ghost e = AgentEntry { id, name, handle };
        proof {
            law_spawn_registers(s, e);
        }
        let entry = AgentEntry { id, name, handle };
        match self.find_slot(&id) {
            Some(i) => {
                proof {
                    lemma_slot_is_unique(s, i as int);
                }
                self.agents.push(entry);
                let old_entry = self.agents.swap_remove(i);
                assert(self.agents@ =~= s.update(i as int, e));
                Some(old_entry)
            },
            None => {
                self.agents.push(entry);
                None
            },
        }
    }

    /// Remove the agent with identifier `id` and hand back its entry, so that
    /// the caller can signal it and wait for it. Fails with `AgentNotFound`,
    /// carrying the identifier's text, when no such agent is recorded.
    pub fn stop_agent(&mut self, id: &AgentId) -> (r: Result<AgentEntry<H>, RuntimeError>)
        requires
            old(self).wf(),
        ensures
            final(self).wf(),
            final(self).agents() == after_stop(old(self).agents(), id@),
            final(self).running() == old(self).running(),
            final(self).configuration() == old(self).configuration(),
            match r {
                Ok(e) => has_id(old(self).agents(), id@) && e == old(self).agents()[slot_of(
                    old(self).agents(),
                    id@,
                )],
                Err(err) => !has_id(old(self).agents(), id@) && (err matches RuntimeError::AgentNotFound(m)
                    && m@ == hyphenated_text(id@)),
            },
    {
        let ghost s = self.agents@;
        proof {
            law_stop_removes(s, id@);
        }
        match self.find_slot(id) {
            Some(i) => {
                proof {
                    lemma_slot_is_unique(s, i as int);
                }
                let entry = self.agents.remove(i);
                Ok(entry)
            },
            None => Err(RuntimeError::AgentNotFound(id.to_string())),
        }
    }

    /// The number of agents.
    pub fn agent_count(&self) -> (n: usize)
        ensures
            n == self.agents().len(),
    {
        self.agents.len()
    }

    /// Whether an agent with identifier `id` is recorded.
    pub fn has_agent(&self, id: &AgentId) -> (b: bool)
        ensures
            b == has_id(self.agents(), id@),
    {
        self.find_slot(id).is_some()
    }

    /// Mark the runtime as running; the agents are untouched.
    pub fn start(&mut self) -> (r: Result<(), RuntimeError>)
        ensures
            r is Ok,
            final(self).running(),
            final(self).agents() == old(self).agents(),
            final(self).configuration() == old(self).configuration(),
    {
        self.running = true;
        Ok(())
    }

    /// Mark the runtime as not running; the agents are kept.
    pub fn stop(&mut self) -> (r: Result<(), RuntimeError>)
        ensures
            r is Ok,
            !final(self).running(),
            final(self).agents() == old(self).agents(),
            final(self).configuration() == old(self).configuration(),
    {
        self.running = false;
        Ok(())
    }

    /// Whether the runtime is marked as running.
    pub fn is_running(&self) -> (b: bool)
        ensures
            b == self.running(),
    {
        self.running
    }

    /// Shut the runtime down: take every agent out, in order, so that the
    /// caller can signal each one and wait for it, and mark the runtime as
    /// not running.
    pub fn shutdown(&mut self) -> (drained: Vec<AgentEntry<H>>)
        ensures
            final(self).wf(),
            drained@ == old(self).agents(),
            final(self).agents() == Seq::<AgentEntry<H>>::empty(),
            !final(self).running(),
            final(self).configuration() == old(self).configuration(),
    {
        let mut drained: Vec<AgentEntry<H>> = Vec::new();
        std::mem::swap(&mut drained, &mut self.agents);
        self.running = false;
        drained
    }

    /// How long stopping one agent waits for its task, in nanoseconds: the
    /// default timeout, which is in milliseconds.
    pub fn stop_timeout_nanos(&self) -> (t: u128)
        ensures
            t == self.configuration().default_timeout_ms * 1_000_000,
    {
        self.config.default_timeout_ms as u128 * 1_000_000
    }

    /// How long shutting down waits for each agent's task, in nanoseconds:
    /// the default timeout in milliseconds.
    pub fn shutdown_timeout_nanos(&self) -> (t: u128)
        ensures
            t == self.configuration().default_timeout_ms * 1_000_000,
    {
        self.config.default_timeout_ms as u128 * 1_000_000
    }
}

/// A call on a runtime, as the laws over sequences of calls see it.
pub enum RuntimeCall<H> {
    /// `spawn` of the entry.
    Spawn(AgentEntry<H>),
    /// `stop_agent` of the identifier.
    StopAgent(u128),
    /// `start`.
    Start,
    /// `stop`.
    Stop,
    /// `shutdown`.
    Shutdown,
}

/// The agents after `calls`, made one after another on agents `s`.
pub open spec fn agents_after_calls<H>(s: Seq<AgentEntry<H>>, calls: Seq<RuntimeCall<H>>) -> Seq<
    AgentEntry<H>,
>
    decreases calls.len(),
{
    if calls.len() == 0 {
        s
    } else {
        let before = agents_after_calls(s, calls.drop_last());
        match calls.last() {
            RuntimeCall::Spawn(e) => after_spawn(before, e),
            RuntimeCall::StopAgent(id) => after_stop(before, id),
            RuntimeCall::Start => before,
            RuntimeCall::Stop => before,
            RuntimeCall::Shutdown => Seq::empty(),
        }
    }
}

/// The running mark after `calls`, made one after another from `running`.
pub open spec fn running_after_calls<H>(running: bool, calls: Seq<RuntimeCall<H>>) -> bool
    decreases calls.len(),
{
    if calls.len() == 0 {
        running
    } else {
        match calls.last() {
            RuntimeCall::Start => true,
            RuntimeCall::Stop => false,
            RuntimeCall::Shutdown => false,
            _ => running_after_calls(running, calls.drop_last()),
        }
    }
}

/// The identifiers that `calls` leave registered: spawned and not stopped
/// (or shut down) since.
pub open spec fn registered_ids<H>(calls: Seq<RuntimeCall<H>>) -> Set<u128>
    decreases calls.len(),
{
    if calls.len() == 0 {
        Set::empty()
    } else {
        let before = registered_ids(calls.drop_last());
        match calls.last() {
            RuntimeCall::Spawn(e) => before.insert(e.id@),
            RuntimeCall::StopAgent(id) => before.remove(id),
            RuntimeCall::Start => before,
            RuntimeCall::Stop => before,
            RuntimeCall::Shutdown => Set::empty(),
        }
    }
}

/// Whether a call clears the running mark.
pub open spec fn clears_running<H>(c: RuntimeCall<H>) -> bool {
    c is Stop || c is Shutdown
}

/// Over any sequence of calls on a new runtime, the agents are exactly the
/// identifiers spawned and not stopped since, each once: the agent count is
/// the number of those identifiers, and `has_agent` holds for exactly them.
pub proof fn law_agents_are_registered_ids<H>(calls: Seq<RuntimeCall<H>>)
    ensures
        unique_ids(agents_after_calls(Seq::<AgentEntry<H>>::empty(), calls)),
        registered_ids(calls).finite(),
        agents_after_calls(Seq::<AgentEntry<H>>::empty(), calls).len() == registered_ids(calls).len(),
        forall|x: u128|
            has_id(agents_after_calls(Seq::<AgentEntry<H>>::empty(), calls), x)
                == registered_ids(calls).contains(x),
    decreases calls.len(),
{
    let empty = Seq::<AgentEntry<H>>::empty();
    if calls.len() > 0 {
        law_agents_are_registered_ids(calls.drop_last());
        let before = agents_after_calls(empty, calls.drop_last());
        let ids = registered_ids(calls.drop_last());
        let s = agents_after_calls(empty, calls);
        match calls.last() {
            RuntimeCall::Spawn(e) => {
                law_spawn_registers(before, e);
                assert forall|x: u128| has_id(s, x) == registered_ids(calls).contains(x) by {
                    if x != e.id@ {
                        assert(has_id(s, x) == has_id(before, x));
                    }
                }
            },
            RuntimeCall::StopAgent(id) => {
                law_stop_removes(before, id);
                assert forall|x: u128| has_id(s, x) == registered_ids(calls).contains(x) by {
                    if x != id {
                        assert(has_id(s, x) == has_id(before, x));
                    }
                }
            },
            RuntimeCall::Shutdown => {
                assert(registered_ids(calls) =~= Set::<u128>::empty());
            },
            _ => {},
        }
    }
}

/// Over any sequence of calls on a new runtime, it is running exactly when
/// some `start` came after every `stop` and `shutdown`; spawning and
/// stopping agents never change it.
pub proof fn law_running_follows_last_start<H>(calls: Seq<RuntimeCall<H>>)
    ensures
        running_after_calls(false, calls) == exists|i: int|
            0 <= i < calls.len() && (#[trigger] calls[i]) is Start && forall|j: int|
                i < j < calls.len() ==> !clears_running(#[trigger] calls[j]),
    decreases calls.len(),
{
    if calls.len() > 0 {
        let n = calls.len() - 1;
        let prefix = calls.drop_last();
        law_running_follows_last_start(prefix);
        let started = exists|i: int|
            0 <= i < calls.len() && (#[trigger] calls[i]) is Start && forall|j: int|
                i < j < calls.len() ==> !clears_running(#[trigger] calls[j]);
        match calls.last() {
            RuntimeCall::Start => {
                assert(calls[n] is Start);
            },
            RuntimeCall::Stop => {
                if started {
                    let i = choose|i: int|
                        0 <= i < calls.len() && (#[trigger] calls[i]) is Start && forall|j: int|
                            i < j < calls.len() ==> !clears_running(#[trigger] calls[j]);
                    assert(clears_running(calls[n]));
                }
            },
            RuntimeCall::Shutdown => {
                if started {
                    let i = choose|i: int|
                        0 <= i < calls.len() && (#[trigger] calls[i]) is Start && forall|j: int|
                            i < j < calls.len() ==> !clears_running(#[trigger] calls[j]);
                    assert(clears_running(calls[n]));
                }
            },
            _ => {
                assert(!(calls[n] is Start) && !clears_running(calls[n]));
                if started {
                    let i = choose|i: int|
                        0 <= i < calls.len() && (#[trigger] calls[i]) is Start && forall|j: int|
                            i < j < calls.len() ==> !clears_running(#[trigger] calls[j]);
                    assert(i < n);
                    assert(prefix[i] is Start);
                    assert forall|j: int| i < j < prefix.len() implies !clears_running(
                        #[trigger] prefix[j],
                    ) by {
                        assert(prefix[j] == calls[j]);
                    }
                }
                if running_after_calls(false, prefix) {
                    let i = choose|i: int|
                        0 <= i < prefix.len() && (#[trigger] prefix[i]) is Start && forall|j: int|
                            i < j < prefix.len() ==> !clears_running(#[trigger] prefix[j]);
                    assert(calls[i] is Start);
                    assert forall|j: int| i < j < calls.len() implies !clears_running(
                        #[trigger] calls[j],
                    ) by {
                        if j < n {
                            assert(prefix[j] == calls[j]);
                        }
                    }
                }
            },
        }
    }
}

} // verus!
