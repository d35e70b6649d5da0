//! Accounting of the TUI's pool of HTTP clients: which client a request
//! gets, and the pool's statistics.
use vstd::prelude::*;
use crate::clock::{duration_from_millis, duration_of_millis};

verus! {

/// Settings of the connection pool.
#[derive(Debug)]
pub struct ConnectionPoolConfig {
    /// The most pooled clients.
    pub max_connections: usize,
    /// How long an idle connection is kept.
    pub idle_timeout: std::time::Duration,
    /// The gateway's base URL.
    pub base_url: String,
}

impl Default for ConnectionPoolConfig {
    /// Ten clients, thirty seconds of idleness, the local gateway.
    fn default() -> (c: Self)
        ensures
            c.max_connections == 10,
            c.idle_timeout == duration_of_millis(30_000),
            c.base_url@ == "http://127.0.0.1:42617"@,
    {
        ConnectionPoolConfig {
            max_connections: 10,
            idle_timeout: duration_from_millis(30_000),
            base_url: "http://127.0.0.1:42617".to_owned(),
        }
    }
}

/// The pool's statistics.
#[derive(Debug, Clone, Copy, PartialEq, Eq)]
pub struct PoolStats {
    /// Clients waiting to be reused.
    pub available: usize,
    /// Clients handed out.
    pub in_use: usize,
    /// Clients created for the pool.
    pub total_created: usize,
    /// The most pooled clients.
    pub max_connections: usize,
}

/// Where the client for a request comes from.
#[derive(Debug, Clone, Copy, PartialEq, Eq, Structural)]
pub enum ClientSource {
    /// An idle pooled client is reused.
    Reuse,
    /// A new client is created for the pool.
    CreatePooled,
    /// The pool is exhausted: a temporary client is created.
    CreateTemporary,
}

/// The pool's counts.
#[derive(Debug, Clone, Copy, PartialEq, Eq)]
pub struct PoolCounts {
    pub available: usize,
    pub in_use: usize,
    pub total_created: usize,
    pub max_connections: usize,
}

/// The source of the next client and the counts after handing it out.
pub open spec fn acquire_step(c: PoolCounts) -> (ClientSource, PoolCounts) {
    if c.available > 0 {
        (ClientSource::Reuse, PoolCounts { available: (c.available - 1) as usize, in_use: (c.in_use + 1) as usize, ..c })
    } else if c.total_created < c.max_connections {
        (ClientSource::CreatePooled, PoolCounts {
            total_created: (c.total_created + 1) as usize,
            in_use: (c.in_use + 1) as usize,
            ..c
        })
    } else {
        (ClientSource::CreateTemporary, c)
    }
}

impl PoolCounts {
    /// An empty pool of at most `max_connections` clients.
    pub fn new(max_connections: usize) -> (c: Self)
        ensures
            c == (PoolCounts { available: 0, in_use: 0, total_created: 0, max_connections }),
    {
        PoolCounts { available: 0, in_use: 0, total_created: 0, max_connections }
    }

    /// Hands out a client: reuse an idle one, else create one for the pool
    /// while it is not full, else a temporary one.
    pub fn acquire(&mut self) -> (s: ClientSource)
        requires
            old(self).in_use < usize::MAX,
        ensures
            (s, *final(self)) == acquire_step(*old(self)),
    {
        if self.available > 0 {
            self.available = self.available - 1;
            self.in_use = self.in_use + 1;
            ClientSource::Reuse
        } else if self.total_created < self.max_connections {
            self.total_created = self.total_created + 1;
            self.in_use = self.in_use + 1;
            ClientSource::CreatePooled
        } else {
            ClientSource::CreateTemporary
        }
    }

    /// The pool's statistics.
    pub fn stats(&self) -> (s: PoolStats)
        ensures
            s.available == self.available,
            s.in_use == self.in_use,
            s.total_created == self.total_created,
            s.max_connections == self.max_connections,
    {
        PoolStats {
            available: self.available,
            in_use: self.in_use,
            total_created: self.total_created,
            max_connections: self.max_connections,
        }
    }
}

/// The pool never creates more pooled clients than its maximum.
pub proof fn lemma_pool_bounded(c: PoolCounts)
    requires
        c.total_created <= c.max_connections,
    ensures
        acquire_step(c).1.total_created <= c.max_connections,
        acquire_step(c).1.max_connections == c.max_connections,
{
}

} // verus!
