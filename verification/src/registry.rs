//! The two registries of the bridge.
//!
//! The pending-call registry maps a call identifier to the one-shot
//! completion action of an outstanding invocation; an entry is removed on
//! its first (and only) resolution. The channel registry maps a channel
//! identifier to a persistent sink that may receive many messages; the
//! dispatch path never removes its entries.
//!
//! Both registries are plain owned values: the bridge instance that owns
//! them is the sole synchronization point, and callers that share one across
//! threads place it behind their own mutual exclusion.

use vstd::prelude::*;
use std::collections::HashMap;
use crate::json::{is_valid_json, json_from_str};

verus! {

broadcast use vstd::std_specs::hash::group_hash_axioms;

/// Registry of pending one-shot calls: call identifier to completion action.
///
/// The action type is the caller's own; the registry only stores and hands
/// back its values.
pub struct PendingCallRegistry<A> {
    calls: HashMap<i32, A>,
}

impl<A> View for PendingCallRegistry<A> {
    type V = Map<i32, A>;

    closed spec fn view(&self) -> Map<i32, A> {
        self.calls@
    }
}

impl<A> PendingCallRegistry<A> {
    /// Creates an empty registry.
    pub fn new() -> (r: Self)
        ensures
            r@ == Map::<i32, A>::empty(),
    {
        PendingCallRegistry { calls: HashMap::new() }
    }

    /// Stores the action under the identifier. An identifier is registered
    /// at most once per allocation, so the entry it displaces on wraparound
    /// reuse is a call the native side abandoned long ago.
    pub fn register(&mut self, id: i32, action: A)
        ensures
            final(self)@ == old(self)@.insert(id, action),
    {
        self.calls.insert(id, action);
    }

    /// Removes and returns the action stored under the identifier, if any.
    /// An absent identifier leaves the registry as it was.
    pub fn take(&mut self, id: i32) -> (r: Option<A>)
        ensures
            final(self)@ == old(self)@.remove(id),
            match r {
                Some(action) => old(self)@.contains_key(id) && action == old(self)@[id],
                None => !old(self)@.contains_key(id),
            },
    {
        self.calls.remove(&id)
    }

    /// The number of calls still awaiting resolution.
    pub fn pending_count(&self) -> (n: usize)
        ensures
            n == self@.len(),
    {
        self.calls.len()
    }
}

/// Registry of long-lived event channels: channel identifier to sink.
///
/// The sink type is the caller's own; the registry only stores its values
/// and lends them out for delivery.
pub struct ChannelRegistry<S> {
    channels: HashMap<u32, S>,
}

impl<S> View for ChannelRegistry<S> {
    type V = Map<u32, S>;

    closed spec fn view(&self) -> Map<u32, S> {
        self.channels@
    }
}

impl<S> ChannelRegistry<S> {
    /// Creates an empty registry.
    pub fn new() -> (r: Self)
        ensures
            r@ == Map::<u32, S>::empty(),
    {
        ChannelRegistry { channels: HashMap::new() }
    }

    /// Stores or replaces the sink under the identifier.
    pub fn register(&mut self, id: u32, sink: S)
        ensures
            final(self)@ == old(self)@.insert(id, sink),
    {
        self.channels.insert(id, sink);
    }

    /// Removes the sink; later deliveries to the identifier are dropped.
    pub fn unregister(&mut self, id: u32)
        ensures
            final(self)@ == old(self)@.remove(id),
    {
        self.channels.remove(&id);
    }

    /// Routes one inbound message: looks the channel up without removing it
    /// and decodes the payload. Returns the registered sink and the decoded
    /// payload exactly when the channel is registered and the payload is
    /// well-formed JSON; an unknown channel or a malformed payload is
    /// dropped silently. Forwarding to the sink is the caller's step, and
    /// best-effort: a sink that no longer accepts messages is no error.
    pub fn deliver<'a>(&'a self, id: u32, raw: &str) -> (r: Option<(&'a S, serde_json::Value)>)
        ensures
            match r {
                Some(out) => self@.contains_key(id) && *out.0 == self@[id] && is_valid_json(raw@),
                None => !self@.contains_key(id) || !is_valid_json(raw@),
            },
    {
        match self.channels.get(&id) {
            Some(sink) => match json_from_str(raw) {
                Ok(v) => Some((sink, v)),
                Err(_) => None,
            },
            None => None,
        }
    }

    /// The number of registered channels.
    pub fn channel_count(&self) -> (n: usize)
        ensures
            n == self@.len(),
    {
        self.channels.len()
    }
}

} // verus!
