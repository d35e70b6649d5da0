//! Dirty tracking for conditional rendering of the dashboard panels.
use vstd::prelude::*;

verus! {

/// Which dashboard panels need to be redrawn.
///
/// `any_dirty` is kept equal to "some panel flag is set", so checking it
/// alone answers whether any panel is dirty.
#[derive(Debug)]
pub struct DirtyFlags {
    swarm: bool,
    cost: bool,
    memory: bool,
    logs: bool,
    any_dirty: bool,
}

impl DirtyFlags {
    /// The swarm panel flag.
    pub closed spec fn swarm_flag(&self) -> bool { self.swarm }
    /// The cost panel flag.
    pub closed spec fn cost_flag(&self) -> bool { self.cost }
    /// The memory panel flag.
    pub closed spec fn memory_flag(&self) -> bool { self.memory }
    /// The logs panel flag.
    pub closed spec fn logs_flag(&self) -> bool { self.logs }

    /// Some panel is dirty.
    pub open spec fn any_panel(&self) -> bool {
        self.swarm_flag() || self.cost_flag() || self.memory_flag() || self.logs_flag()
    }

    /// The fast-path flag is raised exactly while some panel flag is set.
    #[verifier::type_invariant]
    spec fn fast_path_exact(&self) -> bool {
        self.any_dirty == (self.swarm || self.cost || self.memory || self.logs)
    }

    fn with_flags(swarm: bool, cost: bool, memory: bool, logs: bool) -> (d: Self)
        ensures
            d.swarm_flag() == swarm,
            d.cost_flag() == cost,
            d.memory_flag() == memory,
            d.logs_flag() == logs,
    {
        DirtyFlags { swarm, cost, memory, logs, any_dirty: swarm || cost || memory || logs }
    }

    /// All flags clean.
    pub fn new() -> (d: Self)
        ensures
            !d.swarm_flag(), !d.cost_flag(), !d.memory_flag(), !d.logs_flag(),
    {
        Self::with_flags(false, false, false, false)
    }

    /// Marks the swarm panel.
    pub fn mark_swarm(&mut self)
        ensures
            final(self).swarm_flag(),
            final(self).cost_flag() == old(self).cost_flag(),
            final(self).memory_flag() == old(self).memory_flag(),
            final(self).logs_flag() == old(self).logs_flag(),
    {
        *self = Self::with_flags(true, self.cost, self.memory, self.logs);
    }

    /// Marks the cost panel.
    pub fn mark_cost(&mut self)
        ensures
            final(self).cost_flag(),
            final(self).swarm_flag() == old(self).swarm_flag(),
            final(self).memory_flag() == old(self).memory_flag(),
            final(self).logs_flag() == old(self).logs_flag(),
    {
        *self = Self::with_flags(self.swarm, true, self.memory, self.logs);
    }

    /// Marks the memory panel.
    pub fn mark_memory(&mut self)
        ensures
            final(self).memory_flag(),
            final(self).swarm_flag() == old(self).swarm_flag(),
            final(self).cost_flag() == old(self).cost_flag(),
            final(self).logs_flag() == old(self).logs_flag(),
    {
        *self = Self::with_flags(self.swarm, self.cost, true, self.logs);
    }

    /// Marks the logs panel.
    pub fn mark_logs(&mut self)
        ensures
            final(self).logs_flag(),
            final(self).swarm_flag() == old(self).swarm_flag(),
            final(self).cost_flag() == old(self).cost_flag(),
            final(self).memory_flag() == old(self).memory_flag(),
    {
        *self = Self::with_flags(self.swarm, self.cost, self.memory, true);
    }

    /// Marks every panel.
    pub fn mark_all(&mut self)
        ensures
            final(self).swarm_flag(),
            final(self).cost_flag(),
            final(self).memory_flag(),
            final(self).logs_flag(),
    {
        self.mark_swarm();
        self.mark_cost();
        self.mark_memory();
        self.mark_logs();
    }

    /// Clears the swarm flag.
    pub fn clear_swarm(&mut self)
        ensures
            !final(self).swarm_flag(),
            final(self).cost_flag() == old(self).cost_flag(),
            final(self).memory_flag() == old(self).memory_flag(),
            final(self).logs_flag() == old(self).logs_flag(),
    {
        *self = Self::with_flags(false, self.cost, self.memory, self.logs);
    }

    /// Clears the cost flag.
    pub fn clear_cost(&mut self)
        ensures
            !final(self).cost_flag(),
            final(self).swarm_flag() == old(self).swarm_flag(),
            final(self).memory_flag() == old(self).memory_flag(),
            final(self).logs_flag() == old(self).logs_flag(),
    {
        *self = Self::with_flags(self.swarm, false, self.memory, self.logs);
    }

    /// Clears the memory flag.
    pub fn clear_memory(&mut self)
        ensures
            !final(self).memory_flag(),
            final(self).swarm_flag() == old(self).swarm_flag(),
            final(self).cost_flag() == old(self).cost_flag(),
            final(self).logs_flag() == old(self).logs_flag(),
    {
        *self = Self::with_flags(self.swarm, self.cost, false, self.logs);
    }

    /// Clears the logs flag.
    pub fn clear_logs(&mut self)
        ensures
            !final(self).logs_flag(),
            final(self).swarm_flag() == old(self).swarm_flag(),
            final(self).cost_flag() == old(self).cost_flag(),
            final(self).memory_flag() == old(self).memory_flag(),
    {
        *self = Self::with_flags(self.swarm, self.cost, self.memory, false);
    }

    /// Clears every flag.
    pub fn clear_all(&mut self)
        ensures
            !final(self).swarm_flag(),
            !final(self).cost_flag(),
            !final(self).memory_flag(),
            !final(self).logs_flag(),
    {
        *self = Self::with_flags(false, false, false, false);
    }

    /// Is the swarm panel dirty?
    pub fn is_swarm_dirty(&self) -> (r: bool)
        ensures
            r == self.swarm_flag(),
    {
        self.swarm
    }

    /// Is the cost panel dirty?
    pub fn is_cost_dirty(&self) -> (r: bool)
        ensures
            r == self.cost_flag(),
    {
        self.cost
    }

    /// Is the memory panel dirty?
    pub fn is_memory_dirty(&self) -> (r: bool)
        ensures
            r == self.memory_flag(),
    {
        self.memory
    }

    /// Is the logs panel dirty?
    pub fn is_logs_dirty(&self) -> (r: bool)
        ensures
            r == self.logs_flag(),
    {
        self.logs
    }

    /// Is any panel dirty? Answered from the fast-path flag alone.
    pub fn is_any_dirty(&self) -> (r: bool)
        ensures
            r == self.any_panel(),
    {
        proof {
            use_type_invariant(self);
        }
        self.any_dirty
    }
}

impl Default for DirtyFlags {
    /// All flags clean.
    fn default() -> (d: Self)
        ensures
            !d.swarm_flag(), !d.cost_flag(), !d.memory_flag(), !d.logs_flag(),
    {
        Self::new()
    }
}

} // verus!
