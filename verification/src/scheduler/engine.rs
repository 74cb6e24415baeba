use vstd::prelude::*;

use super::{SchedulingPolicy, TaskQueue};

verus! {

/// Task scheduler: a policy and the queue of waiting agents.
pub struct Scheduler {
    policy: SchedulingPolicy,
    queue: TaskQueue,
}

impl Scheduler {
    /// The scheduler's policy.
    pub closed spec fn spec_policy(&self) -> SchedulingPolicy {
        self.policy
    }

    /// The scheduler's queue.
    pub closed spec fn spec_queue(&self) -> TaskQueue {
        self.queue
    }

    /// A scheduler with the given policy and an empty queue.
    pub fn new(policy: SchedulingPolicy) -> (s: Self)
        ensures
            s.spec_policy() == policy,
            s.spec_queue()@ == Seq::<crate::agent_id::AgentId>::empty(),
    {
        Scheduler { policy, queue: TaskQueue::new() }
    }

    /// The scheduling policy.
    pub fn policy(&self) -> (p: &SchedulingPolicy)
        ensures
            *p == self.spec_policy(),
    {
        &self.policy
    }

    /// The task queue.
    pub fn queue(&self) -> (q: &TaskQueue)
        ensures
            *q == self.spec_queue(),
    {
        &self.queue
    }

    /// The task queue, for changing it; the policy stays.
    pub fn queue_mut(&mut self) -> (q: &mut TaskQueue)
        ensures
            *q == old(self).spec_queue(),
            final(self).spec_queue() == *final(q),
            final(self).spec_policy() == old(self).spec_policy(),
    {
        &mut self.queue
    }
}

} // verus!
