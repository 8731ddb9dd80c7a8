//! The shared device-state store: one live map from device hostname to its
//! discovered state, held behind an outside crate that synchronizes access
//! per key.
//!
//! The discovery engine owns the single writing handle, `DeviceStates`; the
//! router reads through `DeviceStatesReader` handles that share the same
//! table. The writer's operations state their exact effect over
//! `store_contents`, which describes the table faithfully because no other
//! handle can write. A read through a reader sees the table as it stands at
//! that moment, between any two writes; nothing relates two such reads, or a
//! read to any writer state, so the reader's operations promise nothing
//! about contents.

use vstd::prelude::*;

use crate::devices::fresh_state;
use crate::devices::DeviceState;
use crate::devices::DeviceStateView;

verus! {

/// The writing handle on the routing table, owned by the discovery engine;
/// the only handle that can change the table.
///
/// Relies on `dashmap::DashMap` for concurrency-safe per-key get, insert and
/// remove.
#[verifier::external_body]
pub struct DeviceStates {
    inner: std::sync::Arc<dashmap::DashMap<String, DeviceState>>,
}

/// A read-only handle onto the same live table, for the router.
#[verifier::external_body]
pub struct DeviceStatesReader {
    inner: std::sync::Arc<dashmap::DashMap<String, DeviceState>>,
}

/// What the table holds: each known device's state, keyed by hostname.
/// Meaningful through the writing handle alone.
pub uninterp spec fn store_contents(s: DeviceStates) -> Map<Seq<char>, DeviceStateView>;

/// The contents of a store that holds no device.
pub open spec fn empty_contents() -> Map<Seq<char>, DeviceStateView> {
    Map::empty()
}

impl DeviceStates {
    /// Relies on `DashMap::new`: the new map is empty.
    #[verifier::external_body]
    pub fn new() -> (r: DeviceStates)
        ensures
            store_contents(r) == empty_contents(),
    {
        DeviceStates { inner: std::sync::Arc::new(dashmap::DashMap::new()) }
    }

    /// Relies on `Arc::clone`: a read-only handle onto the same live table.
    /// A later write through this writer shows through every reader, so
    /// nothing is stated of what the reader will observe.
    #[verifier::external_body]
    pub fn share(&self) -> (r: DeviceStatesReader) {
        DeviceStatesReader { inner: std::sync::Arc::clone(&self.inner) }
    }

    /// Relies on `DashMap::remove`: the entry under the key, if any, is taken
    /// out.
    #[verifier::external_body]
    pub(crate) fn remove(&mut self, host: &str)
        ensures
            store_contents(*final(self)) == store_contents(*old(self)).remove(host@),
    {
        self.inner.remove(host);
    }

    /// Relies on `DashMap::entry` and `Entry::or_default`: the entry under
    /// the key is created in the default state when absent, atomically, and a
    /// copy of its value handed back.
    #[verifier::external_body]
    pub(crate) fn entry_or_default(&mut self, host: &str) -> (r: DeviceState)
        ensures
            store_contents(*old(self)).contains_key(host@) ==> {
                &&& store_contents(*final(self)) == store_contents(*old(self))
                &&& r@ == store_contents(*old(self))[host@]
            },
            !store_contents(*old(self)).contains_key(host@) ==> {
                &&& store_contents(*final(self)) == store_contents(*old(self)).insert(
                    host@,
                    fresh_state(),
                )
                &&& r@ == fresh_state()
            },
    {
        self.inner.entry(host.to_string()).or_default().value().clone()
    }

    /// Relies on `DashMap::insert`: the value is stored under the key,
    /// replacing any earlier one.
    #[verifier::external_body]
    pub(crate) fn insert(&mut self, host: &str, st: DeviceState)
        ensures
            store_contents(*final(self)) == store_contents(*old(self)).insert(host@, st@),
    {
        self.inner.insert(host.to_string(), st);
    }
}

impl DeviceStatesReader {
    /// Relies on `DashMap::get`: a copy of the value the key holds at the
    /// moment of the call, if any. The table is live underneath this handle,
    /// so no clause ties the result to any contents function; callers decide
    /// from the observed value alone.
    #[verifier::external_body]
    pub(crate) fn get(&self, host: &str) -> (r: Option<DeviceState>) {
        self.inner.get(host).map(|entry| entry.value().clone())
    }

    /// Relies on `Arc::clone`: another read-only handle onto the same table.
    #[verifier::external_body]
    pub fn share(&self) -> (r: DeviceStatesReader) {
        DeviceStatesReader { inner: std::sync::Arc::clone(&self.inner) }
    }
}

} // verus!
