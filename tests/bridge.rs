use infoview_bridge::bridge::{
    call_response, client_call_args, handshake_location, handshake_payloads, request_response,
    session_response, subscribe_response, BridgeError, Handoff, HttpError, Server,
};
use infoview_bridge::channel::{ChannelError, OneshotJsonSender};
use infoview_bridge::value::{
    value_from_ffi_arg, value_into_ffi_val, ConversionError, DynValue, JsonNumber, JsonValue,
};
use tokio::sync::oneshot;

fn ok_map() -> DynValue {
    DynValue::HashMap(vec![(DynValue::Str("ok".to_string()), DynValue::Bool(true))])
}

fn is_ok_true(j: &JsonValue) -> bool {
    match j {
        JsonValue::Object(o) => {
            o.len() == 1 && o[0].0 == "ok" && matches!(o[0].1, JsonValue::Bool(true))
        }
        _ => false,
    }
}

fn num_u(j: &JsonValue) -> Option<u64> {
    match j {
        JsonValue::Number(JsonNumber::PosInt(u)) => Some(*u),
        _ => None,
    }
}

#[test]
fn round_trip_keeps_safe_json() {
    let j = JsonValue::Object(vec![
        ("a".to_string(), JsonValue::Array(vec![
            JsonValue::Number(JsonNumber::PosInt(9007199254740991)),
            JsonValue::Number(JsonNumber::NegInt(-5)),
            JsonValue::String("s".to_string()),
            JsonValue::Null,
            JsonValue::Bool(false),
        ])),
        ("b".to_string(), JsonValue::Object(vec![])),
    ]);
    let d = value_into_ffi_val(&j);
    let back = value_from_ffi_arg(&d).unwrap();
    match back {
        JsonValue::Object(o) => {
            assert_eq!(o.len(), 2);
            assert_eq!(o[0].0, "a");
            assert_eq!(o[1].0, "b");
            match &o[0].1 {
                JsonValue::Array(a) => {
                    assert_eq!(a.len(), 5);
                    assert_eq!(num_u(&a[0]), Some(9007199254740991));
                    assert!(matches!(a[1], JsonValue::Number(JsonNumber::NegInt(-5))));
                    assert!(matches!(&a[2], JsonValue::String(s) if s == "s"));
                    assert!(matches!(a[3], JsonValue::Null));
                    assert!(matches!(a[4], JsonValue::Bool(false)));
                }
                _ => panic!("not an array"),
            }
            assert!(matches!(&o[1].1, JsonValue::Object(e) if e.is_empty()));
        }
        _ => panic!("not an object"),
    }
}

#[test]
fn json_to_dynamic_is_total() {
    let big: u64 = 9223372036854775808;
    let d = value_into_ffi_val(&JsonValue::Number(JsonNumber::PosInt(big)));
    assert!(matches!(d, DynValue::Num(b) if b == (big as f64).to_bits()));
    let d = value_into_ffi_val(&JsonValue::Number(JsonNumber::PosInt(9223372036854775807)));
    assert!(matches!(d, DynValue::Int(9223372036854775807)));
    let d = value_into_ffi_val(&JsonValue::Number(JsonNumber::NegInt(i64::MIN)));
    assert!(matches!(d, DynValue::Int(i64::MIN)));
    let f = 2.5f64.to_bits();
    let d = value_into_ffi_val(&JsonValue::Number(JsonNumber::Float(f)));
    assert!(matches!(d, DynValue::Num(b) if b == f));
    let d = value_into_ffi_val(&JsonValue::Null);
    assert!(matches!(d, DynValue::Void));
}

#[test]
fn large_integers_round_to_nearest_double() {
    for u in [
        u64::MAX,
        9223372036854775808,
        9223372036854775808 + 1024,
        9223372036854775808 + 1025,
        9223372036854775808 + 3072,
        18446744073709550591,
        18446744073709550592,
        12345678901234567890,
    ] {
        let d = value_into_ffi_val(&JsonValue::Number(JsonNumber::PosInt(u)));
        match d {
            DynValue::Num(b) => assert_eq!(b, (u as f64).to_bits(), "{u}"),
            _ => panic!("not a double"),
        }
    }
}

#[test]
fn non_string_key_is_refused() {
    let d = DynValue::HashMap(vec![(DynValue::Int(1), DynValue::Void)]);
    assert!(matches!(value_from_ffi_arg(&d), Err(ConversionError::NonStringKey)));
    let d = DynValue::HashMap(vec![
        (DynValue::Symbol("a".to_string()), DynValue::Int(1)),
        (DynValue::Bool(true), DynValue::Int(2)),
    ]);
    assert!(matches!(value_from_ffi_arg(&d), Err(ConversionError::NonStringKey)));
}

#[test]
fn unsupported_variants_are_refused() {
    assert!(matches!(
        value_from_ffi_arg(&DynValue::Opaque),
        Err(ConversionError::UnsupportedVariant)
    ));
    let d = DynValue::Vector(vec![DynValue::Int(1), DynValue::Symbol("s".to_string())]);
    assert!(matches!(value_from_ffi_arg(&d), Err(ConversionError::UnsupportedVariant)));
    let d = DynValue::HashMap(vec![(DynValue::Str("k".to_string()), DynValue::Opaque)]);
    assert!(matches!(value_from_ffi_arg(&d), Err(ConversionError::UnsupportedVariant)));
}

#[test]
fn symbol_keys_become_strings() {
    let d = DynValue::HashMap(vec![(DynValue::Symbol("k".to_string()), DynValue::Char('x'))]);
    match value_from_ffi_arg(&d).unwrap() {
        JsonValue::Object(o) => {
            assert_eq!(o.len(), 1);
            assert_eq!(o[0].0, "k");
            assert!(matches!(&o[0].1, JsonValue::String(s) if s == "x"));
        }
        _ => panic!("not an object"),
    }
}

#[test]
fn doubles_and_integers_convert() {
    let j = value_from_ffi_arg(&DynValue::Num(f64::NAN.to_bits())).unwrap();
    assert!(matches!(j, JsonValue::Null));
    let j = value_from_ffi_arg(&DynValue::Num(f64::INFINITY.to_bits())).unwrap();
    assert!(matches!(j, JsonValue::Null));
    let j = value_from_ffi_arg(&DynValue::Num(1.5f64.to_bits())).unwrap();
    assert!(matches!(j, JsonValue::Number(JsonNumber::Float(b)) if b == 1.5f64.to_bits()));
    let j = value_from_ffi_arg(&DynValue::Int(-3)).unwrap();
    assert!(matches!(j, JsonValue::Number(JsonNumber::NegInt(-3))));
    let j = value_from_ffi_arg(&DynValue::Int(7)).unwrap();
    assert!(matches!(j, JsonValue::Number(JsonNumber::PosInt(7))));
}

#[test]
fn bytes_become_an_array_of_numbers() {
    let j = value_from_ffi_arg(&DynValue::Bytes(vec![0, 7, 255])).unwrap();
    match j {
        JsonValue::Array(a) => {
            let ns: Vec<Option<u64>> = a.iter().map(num_u).collect();
            assert_eq!(ns, vec![Some(0), Some(7), Some(255)]);
        }
        _ => panic!("not an array"),
    }
}

#[test]
fn oneshot_second_send_is_refused() {
    let (tx, mut rx) = oneshot::channel();
    let mut s = OneshotJsonSender::new(tx);
    assert!(!s.is_spent());
    assert!(s.send(ok_map()).is_ok());
    assert!(s.is_spent());
    assert_eq!(s.send(DynValue::Int(2)), Err(ChannelError::AlreadySent));
    assert_eq!(ChannelError::AlreadySent.message(), "cannot send twice");
    let got = rx.try_recv().unwrap();
    assert!(is_ok_true(&got));
}

#[test]
fn oneshot_conversion_failure_uses_up_the_sender() {
    let (tx, mut rx) = oneshot::channel();
    let mut s = OneshotJsonSender::new(tx);
    assert_eq!(
        s.send(DynValue::Opaque),
        Err(ChannelError::Conversion(ConversionError::UnsupportedVariant))
    );
    assert_eq!(s.send(DynValue::Int(1)), Err(ChannelError::AlreadySent));
    assert!(rx.try_recv().is_err());
}

#[test]
fn oneshot_without_receiver_fails() {
    let (tx, rx) = oneshot::channel();
    drop(rx);
    let mut s = OneshotJsonSender::new(tx);
    assert_eq!(s.send(DynValue::Void), Err(ChannelError::ReceiverGone));
}

#[test]
fn queue_keeps_order() {
    let (mut server, mut sender) = Server::new((), (), ());
    for i in [1i64, 2, 3] {
        assert!(sender.send(DynValue::Int(i)).is_ok());
    }
    let mut inner = server.listen().ok().unwrap();
    let mut got = Vec::new();
    while let Ok(v) = inner.ws_rx.try_recv() {
        got.push(num_u(&v));
    }
    assert_eq!(got, vec![Some(1), Some(2), Some(3)]);
}

#[test]
fn notification_sender_refuses_bad_values_and_closed_queue() {
    let (mut server, mut sender) = Server::new((), (), ());
    assert_eq!(
        sender.send(DynValue::HashMap(vec![(DynValue::Void, DynValue::Void)])),
        Err(ChannelError::Conversion(ConversionError::NonStringKey))
    );
    let inner = server.listen().ok().unwrap();
    drop(inner);
    assert_eq!(sender.send(DynValue::Void), Err(ChannelError::ReceiverGone));
}

#[test]
fn listen_is_single_use() {
    let (mut server, _sender) = Server::new(1u8, 2u8, 3u8);
    assert!(server.is_fresh());
    let inner = server.listen().ok().unwrap();
    assert_eq!((inner.loc, inner.initialize_result, inner.callbacks), (1, 2, 3));
    assert!(!server.is_fresh());
    assert!(matches!(server.listen(), Err(BridgeError::AlreadyListened)));
    assert!(matches!(server.listen(), Err(BridgeError::AlreadyListened)));
}

#[test]
fn second_handshake_is_too_many_requests() {
    let (mut server, _sender) = Server::new((), (), ());
    let inner = server.listen().ok().unwrap();
    let (relay_tx, _relay_rx) = oneshot::channel();
    let mut cell = Handoff::new(inner.ws_rx, relay_tx);
    assert!(cell.take().is_ok());
    let second = cell.take();
    assert!(matches!(second, Err(HttpError::TooManyRequests)));
    assert_eq!(HttpError::TooManyRequests.status(), 429);
}

#[test]
fn forwarded_request_returns_delivered_value() {
    let (tx, mut rx) = oneshot::channel();
    let args = client_call_args(
        "file:///a".to_string(),
        "foo".to_string(),
        &JsonValue::Object(vec![]),
    );
    assert_eq!(args.len(), 3);
    assert!(matches!(&args[0], DynValue::Str(s) if s == "file:///a"));
    assert!(matches!(&args[1], DynValue::Str(s) if s == "foo"));
    assert!(matches!(&args[2], DynValue::HashMap(m) if m.is_empty()));
    let mut s = OneshotJsonSender::new(tx);
    assert!(s.send(ok_map()).is_ok());
    let delivered = rx.try_recv().ok();
    let answer = request_response(true, delivered).unwrap();
    assert!(is_ok_true(&answer));
}

#[test]
fn request_without_response_is_internal_error() {
    assert!(matches!(request_response(true, None), Err(HttpError::Internal)));
    assert!(matches!(
        request_response(false, Some(JsonValue::Null)),
        Err(HttpError::Internal)
    ));
    assert_eq!(HttpError::Internal.status(), 500);
}

#[test]
fn session_with_non_string_id_is_internal_error() {
    let (tx, mut rx) = oneshot::channel();
    let mut s = OneshotJsonSender::new(tx);
    assert!(s.send(DynValue::Int(42)).is_ok());
    let delivered = rx.try_recv().ok();
    let r = session_response(true, delivered);
    assert_eq!(r.map_err(|e| e.status()), Err(500));
    let r = session_response(true, Some(JsonValue::String("id-1".to_string())));
    assert_eq!(r, Ok("id-1".to_string()));
    assert_eq!(session_response(false, None), Err(HttpError::Internal));
}

#[test]
fn notification_before_handshake_is_drained() {
    let (mut server, mut sender) = Server::new("initial", (), ());
    let x = DynValue::HashMap(vec![(DynValue::Str("x".to_string()), DynValue::Int(1))]);
    assert!(sender.send(x).is_ok());
    let inner = server.listen().ok().unwrap();
    let (relay_tx, mut relay_rx) = oneshot::channel();
    let mut cell = Handoff::new(inner.ws_rx, relay_tx);
    let (mut rx, relay) = cell.take().ok().unwrap();
    let mut latest = None;
    while let Ok(v) = rx.try_recv() {
        latest = Some(v);
    }
    assert!(matches!(&latest, Some(JsonValue::Object(o)) if o.len() == 1 && o[0].0 == "x"));
    assert!(relay.send(rx).is_ok());
    let mut relayed = relay_rx.try_recv().unwrap();
    assert!(relayed.try_recv().is_err());
    let parsed: Option<Option<&str>> = latest.map(|_| None);
    assert_eq!(handshake_location(inner.loc, parsed), Err(HttpError::Internal));
    assert_eq!(handshake_location("initial", None), Ok("initial"));
    assert_eq!(handshake_location("initial", Some(Some("update"))), Ok("update"));
}

#[test]
fn handshake_payloads_convert_or_fail() {
    let r = handshake_payloads(&DynValue::Str("l".to_string()), &DynValue::Int(1));
    assert!(matches!(r, Ok((JsonValue::String(ref s), JsonValue::Number(JsonNumber::PosInt(1)))) if s == "l"));
    let r = handshake_payloads(&DynValue::Opaque, &DynValue::Int(1));
    assert_eq!(
        r.err(),
        Some(BridgeError::Conversion(ConversionError::UnsupportedVariant))
    );
    let r = handshake_payloads(&DynValue::Void, &DynValue::HashMap(vec![(DynValue::Int(0), DynValue::Void)]));
    assert_eq!(r.err(), Some(BridgeError::Conversion(ConversionError::NonStringKey)));
}

#[test]
fn subscribe_failure_carries_callback_text() {
    assert_eq!(subscribe_response(Ok(())), Ok(()));
    assert_eq!(
        subscribe_response(Err("no such method".to_string())),
        Err((HttpError::Internal, "no such method".to_string()))
    );
}

#[test]
fn channel_errors_have_their_texts() {
    assert_eq!(ChannelError::ReceiverGone.message(), "channel closed");
    assert_eq!(
        ChannelError::Conversion(ConversionError::NonStringKey).message(),
        "map keys must be strings or symbols for conversion to json value"
    );
    assert_eq!(
        ChannelError::Conversion(ConversionError::UnsupportedVariant).message(),
        "unsupported ffi argument variant for conversion to json value"
    );
}

#[test]
fn same_key_text_keeps_both_entries_in_order() {
    let d = DynValue::HashMap(vec![
        (DynValue::Str("a".to_string()), DynValue::Int(1)),
        (DynValue::Symbol("a".to_string()), DynValue::Int(2)),
    ]);
    match value_from_ffi_arg(&d).unwrap() {
        JsonValue::Object(o) => {
            assert_eq!(o.len(), 2);
            assert_eq!(num_u(&o[0].1), Some(1));
            assert_eq!(num_u(&o[1].1), Some(2));
        }
        _ => panic!("not an object"),
    }
}

#[test]
fn plain_calls_answer_by_callback_outcome() {
    assert_eq!(call_response(true), Ok(()));
    assert_eq!(call_response(false), Err(HttpError::Internal));
    assert_eq!(HttpError::NotFound.status(), 404);
}
