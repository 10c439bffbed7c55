//! The connection manager: it owns the per-tracker connection id obtained by
//! a Connect exchange and its validity window. Announce calls are far more
//! frequent than Connect calls, so the cached id is the fast path; it is
//! only replaced by a fully successful Connect exchange, and a failed
//! Announce never corrupts it.

use vstd::prelude::*;
use vstd::pervasive::arbitrary;

verus! {

/// The protocol-defined validity window of a connection id, in seconds from
/// issuance.
pub const CONNECTION_VALID_SECS: u64 = 60;

/// A tracker-issued connection id and the time it was established.
#[derive(Debug, Clone, Copy, PartialEq, Eq, Structural)]
pub struct ConnectionState {
    pub connection_id: u64,
    pub established_at: u64,
}

/// The connection manager: at most one cached connection per tracker.
#[derive(Debug, Clone, Copy, PartialEq, Eq, Structural)]
pub struct ConnectionManager {
    pub cache: Option<ConnectionState>,
}

impl ConnectionManager {
    /// Whether the cached connection id may still be used at time `now`:
    /// one is cached and its validity window has not elapsed.
    pub open spec fn valid_at(self, now: u64) -> bool {
        match self.cache {
            Some(c) => c.established_at <= now && now - c.established_at < CONNECTION_VALID_SECS,
            None => false,
        }
    }

    /// The cached connection id.
    pub open spec fn spec_connection_id(self) -> u64
        recommends
            self.cache is Some,
    {
        match self.cache {
            Some(c) => c.connection_id,
            None => arbitrary(),
        }
    }

    /// The time the cached connection was established.
    pub open spec fn spec_established_at(self) -> u64
        recommends
            self.cache is Some,
    {
        match self.cache {
            Some(c) => c.established_at,
            None => arbitrary(),
        }
    }

    /// A manager with no connection cached yet.
    pub fn new() -> (r: ConnectionManager)
        ensures
            r.cache is None,
    {
        ConnectionManager { cache: None }
    }

    /// Returns the cached connection id if it is still valid at `now`, and
    /// `None` if none is cached or the window has elapsed. No network
    /// traffic is ever needed on the `Some` path.
    pub fn get(&self, now: u64) -> (r: Option<u64>)
        ensures
            match r {
                Some(id) => self.valid_at(now) && id == self.spec_connection_id(),
                None => !self.valid_at(now),
            },
    {
        match &self.cache {
            Some(c) => {
                if c.established_at <= now && now - c.established_at < CONNECTION_VALID_SECS {
                    Some(c.connection_id)
                } else {
                    None
                }
            },
            None => None,
        }
    }

    /// Caches the id of a fully successful Connect exchange, opening a fresh
    /// validity window at `now`.
    pub fn store(&mut self, connection_id: u64, now: u64)
        ensures
            final(self).cache is Some,
            final(self).spec_connection_id() == connection_id,
            final(self).spec_established_at() == now,
    {
        self.cache = Some(ConnectionState { connection_id, established_at: now });
    }

    /// Drops the cached connection, forcing the next announce to renew.
    pub fn clear(&mut self)
        ensures
            final(self).cache is None,
    {
        self.cache = None;
    }

    /// Connection reuse: every announce decision within the validity window
    /// of one established connection reuses its id and requires no further
    /// Connect exchange; the first decision at or past the window boundary
    /// no longer finds it valid and must issue one.
    pub proof fn lemma_connection_reuse(self, t1: u64, t2: u64)
        requires
            self.cache is Some,
            self.spec_established_at() <= t1 < self.spec_established_at()
                + CONNECTION_VALID_SECS,
            self.spec_established_at() <= t2 < self.spec_established_at()
                + CONNECTION_VALID_SECS,
        ensures
            self.valid_at(t1),
            self.valid_at(t2),
            forall|t: u64|
                t >= self.spec_established_at() + CONNECTION_VALID_SECS ==> !self.valid_at(t),
    {
    }
}

} // verus!
