//! Tests of the protocol messages.

use rust_hft_client::protocol;
use rust_hft_client::protocol::{
    AuthenticateMessage, CancelOrderMessage, Channel, CreateOrderMessage, IncomingMessage, Member,
    MessageError, MessageKind, SubscribeMessage,
};
use serde_json::Value;
use uuid::Uuid;

fn json(text: &str) -> Value {
    serde_json::from_str(text).unwrap()
}

#[test]
fn test_auth_message_format() {
    let msg = protocol::auth_message(3001);
    let parsed: serde_json::Value = serde_json::from_str(&msg).unwrap();
    assert_eq!(parsed["type"], "AUTHENTICATE");
    assert_eq!(parsed["api_token"], "3001");
}

#[test]
fn test_subscribe_message_format() {
    let msg = protocol::subscribe_message();
    let parsed: serde_json::Value = serde_json::from_str(&msg).unwrap();
    assert_eq!(parsed["type"], "SUBSCRIBE");
    assert_eq!(parsed["channels"][0]["name"], "ORDERS");
}

#[test]
fn test_create_buy_order_format() {
    let msg = protocol::create_buy_order("BTC_EUR", "test-client-id");
    let parsed: serde_json::Value = serde_json::from_str(&msg).unwrap();
    assert_eq!(parsed["type"], "CREATE_ORDER");
    assert_eq!(parsed["order"]["instrument_code"], "BTC_EUR");
    assert_eq!(parsed["order"]["client_id"], "test-client-id");
    assert_eq!(parsed["order"]["side"], "BUY");
}

#[test]
fn test_cancel_order_format() {
    let msg = protocol::cancel_order("BTC_EUR", "test-client-id");
    let parsed: serde_json::Value = serde_json::from_str(&msg).unwrap();
    assert_eq!(parsed["type"], "CANCEL_ORDER");
    assert_eq!(parsed["instrument_code"], "BTC_EUR");
    assert_eq!(parsed["client_id"], "test-client-id");
}

#[test]
fn test_generate_client_id_is_valid_uuid() {
    let client_id = protocol::generate_client_id();
    // UUID v4 format: 8-4-4-4-12 hex digits
    assert_eq!(client_id.len(), 36);
    assert!(Uuid::parse_str(&client_id).is_ok());
}

#[test]
fn test_parse_message() {
    let json = r#"{"type":"BOOKED","client_id":"test-id","instrument_code":"BTC_EUR"}"#;
    let msg = protocol::parse_message(json).unwrap();
    assert_eq!(msg.msg_type, "BOOKED");
    assert_eq!(msg.client_id, Some("test-id".to_string()));
    assert_eq!(msg.instrument_code, Some("BTC_EUR".to_string()));
}

#[test]
fn test_auth_message_structure() {
    let msg = protocol::auth_message(12345);
    let parsed: serde_json::Value = serde_json::from_str(&msg).unwrap();

    assert_eq!(parsed["type"], "AUTHENTICATE");
    assert_eq!(parsed["api_token"], "12345");
}

#[test]
fn test_subscribe_message_structure() {
    let msg = protocol::subscribe_message();
    let parsed: serde_json::Value = serde_json::from_str(&msg).unwrap();

    assert_eq!(parsed["type"], "SUBSCRIBE");
    assert!(parsed["channels"].is_array());
    assert_eq!(parsed["channels"][0]["name"], "ORDERS");
}

#[test]
fn test_create_order_message_structure() {
    let msg = protocol::create_buy_order("ETH_USD", "client-123");
    let parsed: serde_json::Value = serde_json::from_str(&msg).unwrap();

    assert_eq!(parsed["type"], "CREATE_ORDER");
    assert_eq!(parsed["order"]["instrument_code"], "ETH_USD");
    assert_eq!(parsed["order"]["client_id"], "client-123");
    assert_eq!(parsed["order"]["side"], "BUY");
    assert_eq!(parsed["order"]["type"], "LIMIT");
    assert_eq!(parsed["order"]["price"], "1");
    assert_eq!(parsed["order"]["amount"], "1");
    assert_eq!(parsed["order"]["time_in_force"], "GOOD_TILL_CANCELLED");
}

#[test]
fn test_cancel_order_message_structure() {
    let msg = protocol::cancel_order("ETH_USD", "client-123");
    let parsed: serde_json::Value = serde_json::from_str(&msg).unwrap();

    assert_eq!(parsed["type"], "CANCEL_ORDER");
    assert_eq!(parsed["instrument_code"], "ETH_USD");
    assert_eq!(parsed["client_id"], "client-123");
}

#[test]
fn test_uuid_generation() {
    let id1 = protocol::generate_client_id();
    let id2 = protocol::generate_client_id();

    // UUIDs should be unique
    assert_ne!(id1, id2);

    // UUIDs should be valid format (36 chars: 8-4-4-4-12)
    assert_eq!(id1.len(), 36);
    assert_eq!(id2.len(), 36);
}

#[test]
fn test_parse_booked_message() {
    let json = r#"{"type":"BOOKED","client_id":"abc-123","instrument_code":"BTC_EUR"}"#;
    let msg = protocol::parse_message(json).unwrap();

    assert_eq!(msg.msg_type, "BOOKED");
    assert_eq!(msg.client_id, Some("abc-123".to_string()));
    assert_eq!(msg.instrument_code, Some("BTC_EUR".to_string()));
}

#[test]
fn test_parse_done_message() {
    let json = r#"{"type":"DONE","client_id":"xyz-789","instrument_code":"ETH_USD"}"#;
    let msg = protocol::parse_message(json).unwrap();

    assert_eq!(msg.msg_type, "DONE");
    assert_eq!(msg.client_id, Some("xyz-789".to_string()));
    assert_eq!(msg.instrument_code, Some("ETH_USD".to_string()));
}

// ---------------------------------------------------------------------------
// The exact text of outbound messages
// ---------------------------------------------------------------------------

#[test]
fn auth_message_exact_text() {
    assert_eq!(protocol::auth_message(3001), r#"{"type":"AUTHENTICATE","api_token":"3001"}"#);
    assert_eq!(protocol::auth_message(0), r#"{"type":"AUTHENTICATE","api_token":"0"}"#);
    assert_eq!(
        protocol::auth_message(u32::MAX),
        r#"{"type":"AUTHENTICATE","api_token":"4294967295"}"#
    );
}

#[test]
fn auth_message_has_two_members() {
    for token in [1u32, 999_999, 123] {
        let parsed = json(&protocol::auth_message(token));
        assert_eq!(parsed["api_token"], token.to_string());
        assert_eq!(parsed.as_object().unwrap().len(), 2);
    }
}

#[test]
fn subscribe_message_exact_text() {
    assert_eq!(
        protocol::subscribe_message(),
        r#"{"type":"SUBSCRIBE","channels":[{"name":"ORDERS"}]}"#
    );
}

#[test]
fn subscribe_message_with_several_channels() {
    let none = SubscribeMessage { msg_type: "SUBSCRIBE", channels: vec![] };
    assert_eq!(none.to_json(), r#"{"type":"SUBSCRIBE","channels":[]}"#);
    let three = SubscribeMessage {
        msg_type: "SUBSCRIBE",
        channels: vec![
            Channel { name: "A".to_string() },
            Channel { name: "B".to_string() },
            Channel { name: "C".to_string() },
        ],
    };
    assert_eq!(
        three.to_json(),
        r#"{"type":"SUBSCRIBE","channels":[{"name":"A"},{"name":"B"},{"name":"C"}]}"#
    );
}

#[test]
fn create_order_exact_text() {
    assert_eq!(
        protocol::create_buy_order("BTC_EUR", "id-1"),
        r#"{"type":"CREATE_ORDER","order":{"instrument_code":"BTC_EUR","client_id":"id-1","side":"BUY","type":"LIMIT","price":"1","amount":"1","time_in_force":"GOOD_TILL_CANCELLED"}}"#
    );
    assert_eq!(
        protocol::create_sell_order("BTC_EUR", "id-1"),
        r#"{"type":"CREATE_ORDER","order":{"instrument_code":"BTC_EUR","client_id":"id-1","side":"SELL","type":"LIMIT","price":"1","amount":"1","time_in_force":"GOOD_TILL_CANCELLED"}}"#
    );
}

#[test]
fn cancel_order_exact_text() {
    assert_eq!(
        protocol::cancel_order("ETH_USD", "client-123"),
        r#"{"type":"CANCEL_ORDER","client_id":"client-123","instrument_code":"ETH_USD"}"#
    );
    let parsed = json(&protocol::cancel_order("ETH_USD", "client-123"));
    assert_eq!(parsed.as_object().unwrap().len(), 3);
}

#[test]
fn strings_are_escaped() {
    let mut text = String::new();
    protocol::push_json_string(&mut text, "plain");
    assert_eq!(text, r#""plain""#);

    let mut text = String::from("x=");
    protocol::push_json_string(&mut text, "a\"b\\c");
    assert_eq!(text, r#"x="a\"b\\c""#);

    let mut text = String::new();
    protocol::push_json_string(&mut text, "\u{8}\u{c}\n\r\t");
    assert_eq!(text, r#""\b\f\n\r\t""#);

    let mut text = String::new();
    protocol::push_json_string(&mut text, "\u{0}\u{1}\u{b}\u{1f} \u{7f}");
    assert_eq!(text, "\"\\u0000\\u0001\\u000b\\u001f \u{7f}\"");

    let mut text = String::new();
    protocol::push_json_string(&mut text, "é€😀/");
    assert_eq!(text, "\"é€😀/\"");

    let mut text = String::new();
    protocol::push_json_string(&mut text, "");
    assert_eq!(text, "\"\"");
}

#[test]
fn escaped_members_read_back() {
    let odd = "quote\" slash\\ line\nbreak \u{1} é";
    let parsed = json(&protocol::cancel_order(odd, odd));
    assert_eq!(parsed["client_id"], odd);
    assert_eq!(parsed["instrument_code"], odd);
    let parsed = json(&protocol::create_buy_order(odd, odd));
    assert_eq!(parsed["order"]["client_id"], odd);
    assert_eq!(parsed["order"]["instrument_code"], odd);
}

#[test]
fn typed_messages_hold_what_the_builders_say() {
    let auth = AuthenticateMessage::new(77);
    assert_eq!(auth.msg_type, "AUTHENTICATE");
    assert_eq!(auth.api_token, "77");
    let order = CreateOrderMessage::limit("SELL", "BTC_CHF", "abc");
    assert_eq!(order.msg_type, "CREATE_ORDER");
    assert_eq!(order.order.side, "SELL");
    assert_eq!(order.order.instrument_code, "BTC_CHF");
    assert_eq!(order.order.client_id, "abc");
    assert_eq!(order.order.order_type, "LIMIT");
    let cancel = CancelOrderMessage::new("BTC_CHF", "abc");
    assert_eq!(cancel.msg_type, "CANCEL_ORDER");
    assert_eq!(cancel.client_id, "abc");
    assert_eq!(cancel.instrument_code, "BTC_CHF");
    let subscribe = SubscribeMessage::orders();
    assert_eq!(subscribe.channels, vec![Channel { name: "ORDERS".to_string() }]);
}

// ---------------------------------------------------------------------------
// Correlation ids
// ---------------------------------------------------------------------------

#[test]
fn client_id_has_the_form_of_a_version_4_uuid() {
    for _ in 0..200 {
        let id = protocol::generate_client_id();
        let chars: Vec<char> = id.chars().collect();
        assert_eq!(chars.len(), 36);
        for (i, c) in chars.iter().enumerate() {
            if i == 8 || i == 13 || i == 18 || i == 23 {
                assert_eq!(*c, '-');
            } else {
                assert!(matches!(*c, '0'..='9' | 'a'..='f'), "{}", id);
            }
        }
        assert_eq!(chars[14], '4');
        assert!(matches!(chars[19], '8' | '9' | 'a' | 'b'), "{}", id);
        let uuid = Uuid::parse_str(&id).unwrap();
        assert_eq!(uuid.get_version_num(), 4);
    }
}

// ---------------------------------------------------------------------------
// Reading inbound messages
// ---------------------------------------------------------------------------

#[test]
fn parse_reads_type_and_optional_members() {
    for kind in ["AUTHENTICATED", "SUBSCRIPTIONS", "BOOKED", "DONE", "ERROR"] {
        let text = format!(
            r#"{{"type":"{}","client_id":"0a1b2c3d-0000-4000-8000-000000000000","instrument_code":"BTC_EUR"}}"#,
            kind
        );
        let msg = protocol::parse_message(&text).unwrap();
        assert_eq!(msg.msg_type, kind);
        assert_eq!(msg.client_id, Some("0a1b2c3d-0000-4000-8000-000000000000".to_string()));
        assert_eq!(msg.instrument_code, Some("BTC_EUR".to_string()));
    }
}

#[test]
fn parse_ignores_other_members() {
    let text = r#"{"order_book_sequence":-5,"type":"BOOKED","side":"BUY","time":1700000000000,"nested":{"type":"X"},"client_id":"c"}"#;
    let msg = protocol::parse_message(text).unwrap();
    assert_eq!(
        msg,
        IncomingMessage { msg_type: "BOOKED".to_string(), client_id: Some("c".to_string()), instrument_code: None }
    );
}

#[test]
fn parse_takes_null_as_left_out() {
    let msg = protocol::parse_message(r#"{"type":"DONE","client_id":null,"instrument_code":null}"#).unwrap();
    assert_eq!(msg.client_id, None);
    assert_eq!(msg.instrument_code, None);
    let msg = protocol::parse_message(r#" { "type" : "AUTHENTICATED" } "#).unwrap();
    assert_eq!(msg.msg_type, "AUTHENTICATED");
    assert_eq!(msg.client_id, None);
}

#[test]
fn parse_unescapes_strings() {
    let msg = protocol::parse_message(r#"{"type":"A\"BA\n","client_id":""}"#).unwrap();
    assert_eq!(msg.msg_type, "A\"BA\n");
    assert_eq!(msg.client_id, Some(String::new()));
}

#[test]
fn parse_rejects_what_is_not_json() {
    for text in ["", "not json", "{", r#"{"type":"DONE""#, r#"{"type":"DONE"} x"#, "{'type':'DONE'}"] {
        match protocol::parse_message(text) {
            Err(MessageError::Malformed(_)) => {}
            other => panic!("{:?}: {:?}", text, other),
        }
    }
}

#[test]
fn parse_rejects_a_document_without_type() {
    for text in ["{}", r#"{"client_id":"x"}"#, "[]", "12", "null", r#""DONE""#, r#"["DONE",null,null]"#] {
        match protocol::parse_message(text) {
            Err(MessageError::MissingType) => {}
            other => panic!("{:?}: {:?}", text, other),
        }
    }
}

#[test]
fn parse_rejects_members_of_another_form() {
    let cases = [
        (r#"{"type":null}"#, "type"),
        (r#"{"type":5}"#, "type"),
        (r#"{"type":["DONE"]}"#, "type"),
        (r#"{"type":"DONE","client_id":7}"#, "client_id"),
        (r#"{"type":"DONE","client_id":{"a":1},"instrument_code":1}"#, "client_id"),
        (r#"{"type":"DONE","instrument_code":false}"#, "instrument_code"),
    ];
    for (text, name) in cases {
        match protocol::parse_message(text) {
            Err(MessageError::InvalidMember(found)) => assert_eq!(found, name, "{}", text),
            other => panic!("{:?}: {:?}", text, other),
        }
    }
}

#[test]
fn from_members_on_given_values() {
    let msg = IncomingMessage::from_members(
        Member::Text("BOOKED".to_string()),
        Member::Null,
        Member::Text("BTC_EUR".to_string()),
    )
    .unwrap();
    assert_eq!(msg.msg_type, "BOOKED");
    assert_eq!(msg.client_id, None);
    assert_eq!(msg.instrument_code, Some("BTC_EUR".to_string()));
    assert!(matches!(
        IncomingMessage::from_members(Member::Absent, Member::Other, Member::Other),
        Err(MessageError::MissingType)
    ));
    assert!(matches!(
        IncomingMessage::from_members(Member::Other, Member::Absent, Member::Absent),
        Err(MessageError::InvalidMember("type"))
    ));
    assert!(matches!(
        IncomingMessage::from_members(Member::Text(String::new()), Member::Other, Member::Other),
        Err(MessageError::InvalidMember("client_id"))
    ));
    assert!(matches!(
        IncomingMessage::from_members(Member::Text(String::new()), Member::Absent, Member::Other),
        Err(MessageError::InvalidMember("instrument_code"))
    ));
}

#[test]
fn from_document_reads_a_value() {
    let doc = json(r#"{"type":"ERROR","client_id":"c","extra":[1,2]}"#);
    let msg = IncomingMessage::from_document(&doc).unwrap();
    assert_eq!(msg.msg_type, "ERROR");
    assert_eq!(msg.client_id, Some("c".to_string()));
    assert_eq!(msg.instrument_code, None);
}

#[test]
fn message_error_texts() {
    assert_eq!(MessageError::MissingType.message(), "missing field `type`");
    assert_eq!(MessageError::InvalidMember("client_id").message(), "invalid member `client_id`");
    let e = protocol::parse_message("{").unwrap_err();
    assert!(!e.message().is_empty());
}

#[test]
fn kinds_of_messages() {
    let kind = |t: &str| {
        IncomingMessage { msg_type: t.to_string(), client_id: None, instrument_code: None }.kind()
    };
    assert_eq!(kind("AUTHENTICATED"), MessageKind::Authenticated);
    assert_eq!(kind("SUBSCRIPTIONS"), MessageKind::Subscriptions);
    assert_eq!(kind("BOOKED"), MessageKind::Booked);
    assert_eq!(kind("DONE"), MessageKind::Done);
    assert_eq!(kind("ERROR"), MessageKind::Error);
    for other in ["", "done", "BOOKED ", "HEARTBEAT", "AUTHENTICATE"] {
        assert_eq!(kind(other), MessageKind::Other, "{:?}", other);
    }
}
