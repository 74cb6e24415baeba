//! Task scheduling.

use std::collections::VecDeque;
use vstd::prelude::*;

use crate::agent_id::AgentId;

pub mod engine;
pub mod fair_share;
pub mod round_robin;

pub use engine::Scheduler;
pub use fair_share::FairShareScheduler;
pub use round_robin::RoundRobinScheduler;

verus! {

/// How a scheduler picks the next agent to run.
#[derive(Clone, Copy, Debug, PartialEq, Eq, Structural)]
pub enum SchedulingPolicy {
    /// Each agent in turn, for a fixed time slice.
    RoundRobin,
    /// By each agent's share of the capacity.
    FairShare,
}

/// Agents waiting to run, first come, first served.
pub struct TaskQueue {
    tasks: VecDeque<AgentId>,
}

impl View for TaskQueue {
    type V = Seq<AgentId>;

    /// The waiting agents, the next to leave first.
    closed spec fn view(&self) -> Seq<AgentId> {
        self.tasks@
    }
}

impl TaskQueue {
    /// An empty queue.
    pub fn new() -> (q: Self)
        ensures
            q@ == Seq::<AgentId>::empty(),
    {
        TaskQueue { tasks: VecDeque::new() }
    }

    /// Add an agent at the back of the queue.
    pub fn push(&mut self, id: AgentId)
        ensures
            final(self)@ == old(self)@.push(id),
    {
        self.tasks.push_back(id);
    }

    /// Take the agent at the front of the queue, if any.
    pub fn pop(&mut self) -> (r: Option<AgentId>)
        ensures
            old(self)@.len() == 0 ==> r is None && final(self)@ == old(self)@,
            old(self)@.len() > 0 ==> r == Some(old(self)@[0]) && final(self)@ == old(self)@.drop_first(),
    {
        self.tasks.pop_front()
    }

    /// The number of waiting agents.
    pub fn len(&self) -> (n: usize)
        ensures
            n == self@.len(),
    {
        self.tasks.len()
    }

    /// Whether no agent is waiting.
    pub fn is_empty(&self) -> (b: bool)
        ensures
            b == (self@.len() == 0),
    {
        self.tasks.len() == 0
    }
}

/// Agents leave the queue in the order they joined: pushing onto a queue and
/// then popping gives the front the queue had before, or the pushed agent
/// when the queue was empty.
pub proof fn law_queue_first_in_first_out(q: Seq<AgentId>, id: AgentId)
    ensures
        q.push(id)[0] == (if q.len() == 0 { id } else { q[0] }),
        q.len() > 0 ==> q.push(id).drop_first() == q.drop_first().push(id),
{
    if q.len() > 0 {
        assert(q.push(id).drop_first() =~= q.drop_first().push(id));
    }
}

} // verus!
