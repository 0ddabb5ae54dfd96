use std::collections::HashSet;
use std::sync::mpsc;

use plugin_bridge::{
    CallIdAllocator, ChannelRegistry, DecodedResponse, ErrorResponse, PluginBridge,
    PluginInvokeError, complete_sync_call, decode_response, interpret_failure,
    interpret_failure_text, parse_json_text,
};

fn json(text: &str) -> serde_json::Value {
    parse_json_text(text).expect("well-formed test document")
}

#[test]
fn allocated_ids_are_distinct() {
    let mut alloc = CallIdAllocator::new();
    let mut seen: HashSet<i32> = HashSet::new();
    for _ in 0..1000 {
        seen.insert(alloc.next_id());
    }
    assert_eq!(seen.len(), 1000);
}

#[test]
fn allocated_ids_count_up_from_zero() {
    let mut alloc = CallIdAllocator::new();
    assert_eq!(alloc.next_id(), 0);
    assert_eq!(alloc.next_id(), 1);
    assert_eq!(alloc.next_id(), 2);
}

#[test]
fn resolution_delivers_exactly_one_success() {
    let mut bridge: PluginBridge<&'static str> = PluginBridge::new();
    let payload = json("{\"x\":1}");
    let (id, _text) = bridge.begin_invoke(&payload, "action").expect("invoke starts");
    assert_eq!(bridge.pending_count(), 1);

    let resolved = bridge.on_command_response(id, true, "{\"x\":1}");
    let (action, response) = resolved.expect("first resolution finds the call");
    assert_eq!(action, "action");
    match response {
        DecodedResponse::Success(v) => assert_eq!(v, json("{\"x\":1}")),
        _ => panic!("a successful completion with a well-formed payload must decode as success"),
    }
    assert_eq!(bridge.pending_count(), 0);

    let again = bridge.on_command_response(id, true, "{\"x\":1}");
    assert!(again.is_none());
    assert_eq!(bridge.pending_count(), 0);
}

#[test]
fn unknown_id_resolution_is_a_no_op() {
    let mut bridge: PluginBridge<&'static str> = PluginBridge::new();
    assert!(bridge.on_command_response(41, true, "{}").is_none());
    assert!(bridge.on_command_response(-3, false, "not json").is_none());
    assert_eq!(bridge.pending_count(), 0);
}

#[test]
fn malformed_payload_degrades_to_a_decode_error() {
    let mut bridge: PluginBridge<&'static str> = PluginBridge::new();
    let payload = json("{}");
    let (id, _text) = bridge.begin_invoke(&payload, "action").expect("invoke starts");

    let (_, response) = bridge
        .on_command_response(id, true, "not json")
        .expect("a malformed payload still resolves the call");
    match response {
        DecodedResponse::Malformed { error, payload } => {
            assert_eq!(payload, "not json");
            assert!(!error.is_empty());
        },
        _ => panic!("a payload that is not well-formed JSON must degrade to a textual error"),
    }
    assert_eq!(bridge.pending_count(), 0);
}

#[test]
fn decode_response_keeps_the_success_flag() {
    match decode_response(false, "{\"code\":\"E1\"}") {
        DecodedResponse::Failure { payload, raw } => {
            assert_eq!(payload, json("{\"code\":\"E1\"}"));
            assert_eq!(raw, "{\"code\":\"E1\"}");
        },
        _ => panic!("a failure completion with a well-formed payload must decode as failure"),
    }
}

#[test]
fn abandoned_call_is_removed_and_later_delivery_dropped() {
    let mut bridge: PluginBridge<&'static str> = PluginBridge::new();
    let payload = json("[1,2]");
    let (id, _text) = bridge.begin_invoke(&payload, "action").expect("invoke starts");
    assert_eq!(bridge.pending_count(), 1);

    let err = bridge.abandon_call(id);
    assert!(matches!(err, PluginInvokeError::UnreachableWebview));
    assert_eq!(bridge.pending_count(), 0);

    assert!(bridge.on_command_response(id, true, "{}").is_none());
}

#[test]
fn begin_invoke_serializes_the_payload() {
    let mut bridge: PluginBridge<u8> = PluginBridge::new();
    let payload = json("{\"x\":1}");
    let (_id, text) = bridge.begin_invoke(&payload, 0).expect("invoke starts");
    assert_eq!(json(&text), payload);
}

#[test]
fn channel_delivery_forwards_the_decoded_payload() {
    let (tx, rx) = mpsc::channel::<serde_json::Value>();
    let mut channels: ChannelRegistry<mpsc::Sender<serde_json::Value>> = ChannelRegistry::new();
    channels.register(7, tx);
    assert_eq!(channels.channel_count(), 1);

    let (sink, value) = channels.deliver(7, "{\"event\":\"tick\"}").expect("registered channel");
    sink.send(value).expect("receiver is alive");
    assert_eq!(rx.recv().unwrap(), json("{\"event\":\"tick\"}"));

    // Delivery does not remove the channel: a second message still arrives.
    let (sink, value) = channels.deliver(7, "2").expect("channel survives delivery");
    sink.send(value).expect("receiver is alive");
    assert_eq!(rx.recv().unwrap(), json("2"));
}

#[test]
fn channel_delivery_after_unregister_is_dropped() {
    let (tx, _rx) = mpsc::channel::<serde_json::Value>();
    let mut channels: ChannelRegistry<mpsc::Sender<serde_json::Value>> = ChannelRegistry::new();
    channels.register(7, tx);
    channels.unregister(7);
    assert!(channels.deliver(7, "{}").is_none());
    assert_eq!(channels.channel_count(), 0);
}

#[test]
fn channel_delivery_to_unknown_or_malformed_is_dropped() {
    let channels: ChannelRegistry<mpsc::Sender<serde_json::Value>> = ChannelRegistry::new();
    assert!(channels.deliver(9, "{}").is_none());

    let (tx, _rx) = mpsc::channel::<serde_json::Value>();
    let mut channels: ChannelRegistry<mpsc::Sender<serde_json::Value>> = ChannelRegistry::new();
    channels.register(9, tx);
    assert!(channels.deliver(9, "not json").is_none());
}

#[test]
fn closed_sink_does_not_propagate_an_error() {
    let (tx, rx) = mpsc::channel::<serde_json::Value>();
    drop(rx);
    let mut channels: ChannelRegistry<mpsc::Sender<serde_json::Value>> = ChannelRegistry::new();
    channels.register(3, tx);
    let (sink, value) = channels.deliver(3, "{}").expect("registered channel");
    // Forwarding is best-effort: the failure is swallowed, never surfaced.
    let _ = sink.send(value);
}

fn call_sync(
    bridge: &mut PluginBridge<mpsc::Sender<DecodedResponse>>,
    payload: &serde_json::Value,
    native_success: bool,
    native_payload: &str,
) -> Result<serde_json::Value, PluginInvokeError> {
    let (tx, rx) = mpsc::channel::<DecodedResponse>();
    let (id, _text) = bridge.begin_invoke(payload, tx)?;
    // The native side answers; the dispatcher routes the completion to the
    // registered action, which feeds the rendezvous.
    let (action, response) = bridge
        .on_command_response(id, native_success, native_payload)
        .expect("the call is pending");
    action.send(response).unwrap();
    complete_sync_call(rx.recv().unwrap())
}

#[test]
fn sync_call_returns_the_success_payload() {
    let mut bridge = PluginBridge::new();
    let payload = json("{\"x\":1}");
    let result = call_sync(&mut bridge, &payload, true, "{\"x\":1}");
    assert_eq!(result.unwrap(), json("{\"x\":1}"));
    assert_eq!(bridge.pending_count(), 0);
}

#[test]
fn sync_call_surfaces_the_native_rejection() {
    let mut bridge = PluginBridge::new();
    let payload = json("{\"x\":1}");
    let result = call_sync(
        &mut bridge,
        &payload,
        false,
        "{\"code\":\"E1\",\"message\":\"bad\"}",
    );
    match result {
        Err(PluginInvokeError::InvokeRejected(er)) => {
            assert_eq!(er.code.as_deref(), Some("E1"));
            assert_eq!(er.message.as_deref(), Some("bad"));
        },
        _ => panic!("an explicit native failure must surface as a rejection"),
    }
}

#[test]
fn sync_call_surfaces_a_decode_error_for_malformed_payload() {
    let mut bridge = PluginBridge::new();
    let payload = json("{\"x\":1}");
    let result = call_sync(&mut bridge, &payload, true, "not json");
    assert!(matches!(
        result,
        Err(PluginInvokeError::CannotDeserializeResponse(_))
    ));
}

#[test]
fn failure_payload_that_is_no_error_object_is_a_decode_error() {
    let mut bridge = PluginBridge::new();
    let payload = json("{}");
    let result = call_sync(&mut bridge, &payload, false, "[1,2,3]");
    assert!(matches!(
        result,
        Err(PluginInvokeError::CannotDeserializeResponse(_))
    ));
}

#[test]
fn parse_json_text_accepts_exactly_well_formed_documents() {
    assert!(parse_json_text("{\"a\":[1,2,null]}").is_ok());
    assert!(parse_json_text("true").is_ok());
    let err = parse_json_text("{\"a\":").expect_err("truncated document");
    assert!(!err.is_empty());
}

fn rejection_of(text: &str) -> ErrorResponse {
    match interpret_failure_text(text, "fallback".to_string()) {
        PluginInvokeError::InvokeRejected(er) => er,
        other => panic!("an error object must surface as a rejection, got {other:?}"),
    }
}

#[test]
fn failure_text_decoding_reads_code_and_message() {
    let er = rejection_of("{\"code\":\"E1\",\"message\":\"bad\"}");
    assert_eq!(er.code.as_deref(), Some("E1"));
    assert_eq!(er.message.as_deref(), Some("bad"));

    let er = rejection_of("{}");
    assert!(er.code.is_none());
    assert!(er.message.is_none());

    let er = rejection_of("{\"code\":null,\"message\":\"m\"}");
    assert!(er.code.is_none());
    assert_eq!(er.message.as_deref(), Some("m"));
}

#[test]
fn failure_text_that_carries_no_error_object_is_a_decode_error() {
    for text in ["[]", "{\"code\":5}", "\"bare string\"", "not json"] {
        match interpret_failure_text(text, "fallback".to_string()) {
            PluginInvokeError::CannotDeserializeResponse(t) => assert_eq!(t, "fallback"),
            other => panic!("{text:?} carries no error object, got {other:?}"),
        }
    }
}

#[test]
fn interpret_failure_keeps_the_decoded_error() {
    let er = ErrorResponse {
        code: Some("E1".to_string()),
        message: None,
    };
    match interpret_failure(Some(er), "unused".to_string()) {
        PluginInvokeError::InvokeRejected(er) => assert_eq!(er.code.as_deref(), Some("E1")),
        _ => panic!("a decoded error is propagated verbatim"),
    }
    match interpret_failure(None, "fallback".to_string()) {
        PluginInvokeError::CannotDeserializeResponse(text) => assert_eq!(text, "fallback"),
        _ => panic!("an undecodable error becomes a deserialization error"),
    }
}

#[test]
fn error_response_display_renders_both_parts() {
    let er = ErrorResponse {
        code: Some("E1".to_string()),
        message: Some("bad".to_string()),
    };
    assert_eq!(er.display_string(), "[E1] - bad");

    let er = ErrorResponse {
        code: Some("E1".to_string()),
        message: None,
    };
    assert_eq!(er.display_string(), "[E1]");

    let er = ErrorResponse {
        code: None,
        message: Some("bad".to_string()),
    };
    assert_eq!(er.display_string(), "bad");

    let er = ErrorResponse {
        code: None,
        message: None,
    };
    assert_eq!(er.display_string(), "");
}
