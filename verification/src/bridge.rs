//! The call-correlation core: identifier allocation, invocation initiation,
//! and the dispatch of native completions back to their stored actions.
//!
//! A `PluginBridge` owns the identifier allocator and the pending-call
//! registry. The caller that drives native code performs the outbound
//! dispatch itself: `begin_invoke` hands it the allocated identifier and the
//! serialized payload, and `abandon_call` undoes the registration when that
//! dispatch fails at once. Inbound completions enter through
//! `on_command_response`, which consumes the registered action exactly once
//! and pairs it with the decoded response; the caller then runs the action.

use vstd::prelude::*;
use vstd::arithmetic::div_mod::{
    lemma_add_mod_noop,
    lemma_mod_self_0,
    lemma_small_mod,
    lemma_sub_mod_noop,
};
use vstd::string::StringExecFns;
use crate::errors::{ErrorResponse, PluginInvokeError};
use crate::json::{
    decode_error_fields,
    error_fields_of,
    is_valid_json,
    json_error_text,
    json_from_str,
    json_to_string,
};
use crate::registry::PendingCallRegistry;

verus! {

/// The successor of a call identifier: one more, wrapping at the top of the
/// 32-bit signed range. Identifier reuse therefore needs a full wraparound,
/// and outstanding-call counts never approach that.
pub open spec fn wrap_inc(x: i32) -> i32 {
    if x == i32::MAX {
        i32::MIN
    } else {
        (x + 1) as i32
    }
}

/// The identifier issued by the `k`-th allocation after the counter stood
/// at `start`.
pub open spec fn nth_call_id(start: i32, k: nat) -> i32
    decreases k,
{
    if k == 0 {
        start
    } else {
        wrap_inc(nth_call_id(start, (k - 1) as nat))
    }
}

/// A call identifier shifted into `[0, 2^32)`, where the wrapping successor
/// becomes a plain increment modulo `2^32`.
pub open spec fn id_index(x: i32) -> int {
    x + 0x8000_0000
}

proof fn lemma_nth_call_id_index(start: i32, k: nat)
    ensures
        id_index(nth_call_id(start, k)) == (id_index(start) + k) % 0x1_0000_0000,
    decreases k,
{
    let m: int = 0x1_0000_0000;
    if k == 0 {
        lemma_small_mod(id_index(start) as nat, m as nat);
    } else {
        let prev = nth_call_id(start, (k - 1) as nat);
        lemma_nth_call_id_index(start, (k - 1) as nat);
        lemma_add_mod_noop(id_index(start) + k - 1, 1, m);
        lemma_small_mod(1nat, m as nat);
        if prev == i32::MAX {
            lemma_mod_self_0(m);
        } else {
            lemma_small_mod((id_index(prev) + 1) as nat, m as nat);
        }
    }
}

/// Law: concurrently issued call identifiers are distinct. Any two
/// allocations among fewer than `2^32` successive ones — that is, any two
/// before the counter has wrapped all the way around — yield different
/// identifiers.
pub proof fn lemma_call_ids_distinct(start: i32, i: nat, j: nat)
    requires
        i < j,
        j - i < 0x1_0000_0000,
    ensures
        nth_call_id(start, i) != nth_call_id(start, j),
{
    let m: int = 0x1_0000_0000;
    lemma_nth_call_id_index(start, i);
    lemma_nth_call_id_index(start, j);
    if nth_call_id(start, i) == nth_call_id(start, j) {
        let a = id_index(start);
        lemma_sub_mod_noop(a + j, a + i, m);
        lemma_small_mod(0nat, m as nat);
        lemma_small_mod((j - i) as nat, m as nat);
        assert(false);
    }
}

/// Law: resolving a call identifier consumes its registry entry, so a
/// second resolution of the same identifier finds no pending call, and
/// resolving it again changes nothing.
pub proof fn lemma_resolution_is_one_shot<A>(pending: Map<i32, A>, id: i32)
    ensures
        !pending.remove(id).contains_key(id),
        pending.remove(id).remove(id) == pending.remove(id),
{
    assert(pending.remove(id).remove(id) =~= pending.remove(id));
}

/// Allocator of call identifiers: a counter whose every reading is distinct
/// from the previous `2^32 - 1` ones. The owner of the bridge serializes
/// access to it, as to the registries.
pub struct CallIdAllocator {
    next: i32,
}

impl CallIdAllocator {
    /// The identifier the next allocation will return.
    pub closed spec fn counter(&self) -> i32 {
        self.next
    }

    /// Creates an allocator that starts at zero.
    pub fn new() -> (r: Self)
        ensures
            r.counter() == 0,
    {
        CallIdAllocator { next: 0 }
    }

    /// Issues the next identifier: returns the counter and advances it by
    /// one, wrapping at the top of the range.
    pub fn next_id(&mut self) -> (r: i32)
        ensures
            r == old(self).counter(),
            final(self).counter() == wrap_inc(old(self).counter()),
    {
        let id = self.next;
        self.next = if self.next == i32::MAX {
            i32::MIN
        } else {
            self.next + 1
        };
        id
    }
}

/// A native completion, decoded: what the dispatcher hands to the stored
/// completion action.
pub enum DecodedResponse {
    /// The native side reported success; the field holds the decoded
    /// payload.
    Success(serde_json::Value),
    /// The native side reported failure. `payload` holds the decoded
    /// payload, expected to be a structured error, and `raw` its text, from
    /// which that error is read.
    Failure { payload: serde_json::Value, raw: String },
    /// The payload was not well-formed JSON. A parse failure never
    /// propagates past the dispatcher: it degrades to this textual error,
    /// which carries the parser's text and the raw payload.
    Malformed { error: String, payload: String },
}

/// Decodes one native completion from its success flag and raw payload.
pub fn decode_response(success: bool, raw: &str) -> (r: DecodedResponse)
    ensures
        is_valid_json(raw@) && success ==> r is Success,
        is_valid_json(raw@) && !success ==> (r matches DecodedResponse::Failure {
            payload: _,
            raw: text,
        } && text@ == raw@),
        !is_valid_json(raw@) ==> (r matches DecodedResponse::Malformed { error: _, payload }
            && payload@ == raw@),
{
    match json_from_str(raw) {
        Ok(v) => if success {
            DecodedResponse::Success(v)
        } else {
            DecodedResponse::Failure { payload: v, raw: String::from_str(raw) }
        },
        Err(e) => DecodedResponse::Malformed {
            error: json_error_text(&e),
            payload: String::from_str(raw),
        },
    }
}

/// The correlation core of one bridge instance: the identifier allocator
/// and the pending-call registry, the sole owners of outstanding-call state.
pub struct PluginBridge<A> {
    ids: CallIdAllocator,
    pending: PendingCallRegistry<A>,
}

impl<A> PluginBridge<A> {
    /// The completion actions of the currently outstanding calls, keyed by
    /// call identifier.
    pub closed spec fn pending_calls(&self) -> Map<i32, A> {
        self.pending@
    }

    /// The identifier the next invocation will be issued.
    pub closed spec fn next_call_id(&self) -> i32 {
        self.ids.counter()
    }

    /// Creates a bridge with no outstanding calls.
    pub fn new() -> (r: Self)
        ensures
            r.pending_calls() == Map::<i32, A>::empty(),
            r.next_call_id() == 0,
    {
        PluginBridge { ids: CallIdAllocator::new(), pending: PendingCallRegistry::new() }
    }

    /// The number of calls still awaiting resolution.
    pub fn pending_count(&self) -> (n: usize)
        ensures
            n == self.pending_calls().len(),
    {
        self.pending.pending_count()
    }

    /// Starts an invocation: serializes the payload, allocates a call
    /// identifier and registers the completion action under it. Returns the
    /// identifier and the serialized payload for the caller to hand to the
    /// native dispatch. Serializing a JSON value cannot fail, so success is
    /// owed: exactly one entry is registered, always. A caller whose
    /// payload must first be converted into a JSON value surfaces that
    /// conversion's failure as `CannotSerializePayload` before calling
    /// here, so a failed invocation never touches the bridge and leaves no
    /// residual entry.
    pub fn begin_invoke(&mut self, payload: &serde_json::Value, action: A) -> (r: Result<
        (i32, String),
        PluginInvokeError,
    >)
        ensures
            r is Ok,
            r matches Ok(out) ==> {
                &&& out.0 == old(self).next_call_id()
                &&& final(self).next_call_id() == wrap_inc(old(self).next_call_id())
                &&& final(self).pending_calls() == old(self).pending_calls().insert(
                    out.0,
                    action,
                )
            },
    {
        let text = json_to_string(payload).unwrap();
        let id = self.ids.next_id();
        self.pending.register(id, action);
        Ok((id, text))
    }

    /// Undoes a registration whose native dispatch failed at once: removes
    /// the entry — the action will never be invoked — and returns the error
    /// the invocation surfaces.
    pub fn abandon_call(&mut self, id: i32) -> (e: PluginInvokeError)
        ensures
            final(self).pending_calls() == old(self).pending_calls().remove(id),
            final(self).next_call_id() == old(self).next_call_id(),
            e is UnreachableWebview,
    {
        let _ = self.pending.take(id);
        PluginInvokeError::UnreachableWebview
    }

    /// Resolves a pending call: removes the entry under the identifier —
    /// a first and only resolution — decodes the payload, and returns the
    /// stored action with the response it is owed. An unknown or already
    /// resolved identifier is a benign no-op: nothing is invoked, nothing
    /// raised, the bridge unchanged. A malformed payload still resolves the
    /// call, with the textual decode error in place of a value.
    pub fn on_command_response(&mut self, id: i32, success: bool, raw: &str) -> (r: Option<
        (A, DecodedResponse),
    >)
        ensures
            final(self).next_call_id() == old(self).next_call_id(),
            final(self).pending_calls() == old(self).pending_calls().remove(id),
            match r {
                Some(out) => {
                    &&& old(self).pending_calls().contains_key(id)
                    &&& out.0 == old(self).pending_calls()[id]
                    &&& (is_valid_json(raw@) && success ==> out.1 is Success)
                    &&& (is_valid_json(raw@) && !success ==> (out.1
                        matches DecodedResponse::Failure { payload: _, raw: text } && text@
                        == raw@))
                    &&& (!is_valid_json(raw@) ==> (out.1 matches DecodedResponse::Malformed {
                        error: _,
                        payload,
                    } && payload@ == raw@))
                },
                None => {
                    &&& !old(self).pending_calls().contains_key(id)
                    &&& final(self).pending_calls() == old(self).pending_calls()
                },
            },
    {
        match self.pending.take(id) {
            Some(action) => {
                let response = decode_response(success, raw);
                Some((action, response))
            },
            None => {
                proof {
                    assert(old(self).pending_calls().remove(id) =~= old(self).pending_calls());
                }
                None
            },
        }
    }
}

/// The error a rejected invocation surfaces, from the outcome of decoding
/// the native side's structured error: the decoded error verbatim where
/// decoding succeeded, otherwise the given decode-failure text.
pub fn interpret_failure(decoded: Option<ErrorResponse>, error_text: String) -> (r:
    PluginInvokeError)
    ensures
        match decoded {
            Some(er) => r == PluginInvokeError::InvokeRejected(er),
            None => r == PluginInvokeError::CannotDeserializeResponse(error_text),
        },
{
    match decoded {
        Some(er) => PluginInvokeError::InvokeRejected(er),
        None => PluginInvokeError::CannotDeserializeResponse(error_text),
    }
}

/// The error a rejected invocation surfaces, read from the failure
/// payload's text: the structured error the text carries, its `code` and
/// `message` verbatim, or the given fallback as a deserialization error
/// where the text carries no error object.
pub fn interpret_failure_text(raw: &str, fallback: String) -> (r: PluginInvokeError)
    ensures
        match error_fields_of(raw@) {
            Some(f) => (r matches PluginInvokeError::InvokeRejected(er) && er.fields() == f),
            None => r == PluginInvokeError::CannotDeserializeResponse(fallback),
        },
{
    interpret_failure(decode_error_fields(raw), fallback)
}

/// The synchronous facade's last step: turns the response its completion
/// action received into the result of the blocking call. A success payload
/// is returned as decoded; a failure payload becomes the rejection it
/// carries — code and message verbatim — or a deserialization error where
/// it carries no error object; a malformed payload becomes a
/// deserialization error carrying the parser's text.
pub fn complete_sync_call(response: DecodedResponse) -> (r: Result<
    serde_json::Value,
    PluginInvokeError,
>)
    ensures
        response matches DecodedResponse::Success(v) ==> r == Result::<
            serde_json::Value,
            PluginInvokeError,
        >::Ok(v),
        response matches DecodedResponse::Failure { payload: _, raw } ==> match error_fields_of(
            raw@,
        ) {
            Some(f) => (r matches Err(e) && e matches PluginInvokeError::InvokeRejected(er)
                && er.fields() == f),
            None => (r matches Err(e) && e is CannotDeserializeResponse),
        },
        response matches DecodedResponse::Malformed { error, payload: _ } ==> r == Result::<
            serde_json::Value,
            PluginInvokeError,
        >::Err(PluginInvokeError::CannotDeserializeResponse(error)),
{
    match response {
        DecodedResponse::Success(v) => Ok(v),
        DecodedResponse::Failure { payload: _, raw } => {
            let fallback = String::from_str("error response was not an object of code and message");
            Err(interpret_failure_text(raw.as_str(), fallback))
        },
        DecodedResponse::Malformed { error, payload: _ } => Err(
            PluginInvokeError::CannotDeserializeResponse(error),
        ),
    }
}

} // verus!
