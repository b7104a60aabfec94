use ocpp_client::client::Client;
use ocpp_client::messages::{
    create_boot_notification_request, create_heartbeat_request,
    create_request_start_transaction_response, create_request_stop_transaction_response,
    create_set_variables_response, create_status_notification_request,
    create_transaction_event_request,
};
use ocpp_client::requests::{
    boot_notification, heartbeat, status_notification, status_notification_at, transaction_event,
    transaction_event_at,
};
use ocpp_client::responses::{
    get_variables, request_start_transaction, request_stop_transaction, set_variables,
    VariableResult,
};
use ocpp_client::wire::{
    decimal_text, decode, same_text, wrap_call, wrap_call_error, wrap_call_result, DecodeError,
    Envelope,
};

#[test]
fn call_envelope_text() {
    assert_eq!(wrap_call("abc", "Heartbeat", "{}"), "[2, \"abc\", \"Heartbeat\", {}]");
}

#[test]
fn call_result_envelope_text() {
    assert_eq!(wrap_call_result("abc", "{\"a\":1}"), "[3, \"abc\", {\"a\":1}]");
}

#[test]
fn call_error_envelope_text() {
    assert_eq!(
        wrap_call_error("abc", "NotImplemented", "say \"hi\""),
        "[4, \"abc\", \"NotImplemented\", \"say \\\"hi\\\"\", {}]"
    );
}

#[test]
fn decimal_numerals() {
    assert_eq!(decimal_text(0), "0");
    assert_eq!(decimal_text(7), "7");
    assert_eq!(decimal_text(1234567890), "1234567890");
    assert_eq!(decimal_text(u64::MAX), "18446744073709551615");
}

#[test]
fn text_equality() {
    assert!(same_text("Accepted", "Accepted"));
    assert!(!same_text("Accepted", "Accepte"));
    assert!(!same_text("Accepted", "accepted"));
    assert!(same_text("", ""));
}

#[test]
fn boot_notification_text() {
    assert_eq!(
        boot_notification("id1", "SN-1", "Model", "Vendor \"X\""),
        "[2, \"id1\", \"BootNotification\", {\"reason\":\"PowerUp\",\"chargingStation\":{\"serialNumber\":\"SN-1\",\"model\":\"Model\",\"vendorName\":\"Vendor \\\"X\\\"\",\"firmwareVersion\":\"0.1.0\",\"modem\":{\"iccid\":\"\",\"imsi\":\"\"}}}]"
    );
}

#[test]
fn heartbeat_text() {
    assert_eq!(heartbeat("h1"), "[2, \"h1\", \"Heartbeat\", {}]");
    assert_eq!(create_heartbeat_request("h1".to_string()), "[2, \"h1\", \"Heartbeat\", {}]");
}

#[test]
fn status_notification_stamped() {
    assert_eq!(
        status_notification_at("s1", "2024-01-02T03:04:05+00:00", 1, 1, "Available"),
        "[2, \"s1\", \"StatusNotification\", {\"timestamp\":\"2024-01-02T03:04:05+00:00\",\"connectorStatus\":\"Available\",\"evseId\":1,\"connectorId\":1}]"
    );
}

#[test]
fn status_notification_now() {
    let t = status_notification("s1", 2, 3, "Occupied").unwrap();
    assert!(t.starts_with("[2, \"s1\", \"StatusNotification\", {\"timestamp\":\""));
    assert!(t.ends_with("\",\"connectorStatus\":\"Occupied\",\"evseId\":2,\"connectorId\":3}]"));
    let c = create_status_notification_request("s1".to_string(), 2, 3, "Occupied").unwrap();
    assert!(c.ends_with("\",\"connectorStatus\":\"Occupied\",\"evseId\":2,\"connectorId\":3}]"));
}

#[test]
fn transaction_event_started() {
    assert_eq!(
        transaction_event_at("e1", "tx", "T", "Started", "RemoteStart", None, Some(42), None),
        "[2, \"e1\", \"TransactionEvent\", {\"eventType\":\"Started\",\"timestamp\":\"T\",\"triggerReason\":\"RemoteStart\",\"seqNo\":0,\"transactionData\":{\"id\":\"tx\",\"remoteStartId\":42}}]"
    );
}

#[test]
fn transaction_event_all_options() {
    assert_eq!(
        transaction_event_at("e1", "tx", "T", "Ended", "RemoteStop", Some("Charging"), Some(1), Some("Remote")),
        "[2, \"e1\", \"TransactionEvent\", {\"eventType\":\"Ended\",\"timestamp\":\"T\",\"triggerReason\":\"RemoteStop\",\"seqNo\":0,\"transactionData\":{\"id\":\"tx\",\"chargingState\":\"Charging\",\"remoteStartId\":1,\"stoppedReason\":\"Remote\"}}]"
    );
}

#[test]
fn transaction_event_now() {
    let t = transaction_event("e1", "tx", "Updated", "CablePluggedIn", Some("Charging"), None, None)
        .unwrap();
    assert!(t.ends_with("\"seqNo\":0,\"transactionData\":{\"id\":\"tx\",\"chargingState\":\"Charging\"}}]"));
    let c = create_transaction_event_request(
        "e1".to_string(),
        "tx".to_string(),
        "Updated".to_string(),
        "CablePluggedIn".to_string(),
        Some("Charging".to_string()),
        None,
        None,
    )
    .unwrap();
    assert!(c.ends_with("\"seqNo\":0,\"transactionData\":{\"id\":\"tx\",\"chargingState\":\"Charging\"}}]"));
}

#[test]
fn boot_notification_from_owned() {
    assert_eq!(
        create_boot_notification_request("id1".to_string(), "SN".to_string(), "M", "V"),
        boot_notification("id1", "SN", "M", "V")
    );
}

#[test]
fn start_and_stop_responses() {
    assert_eq!(
        request_start_transaction("m", 5, "Accepted"),
        "[3, \"m\", {\"remoteStartId\":5,\"status\":\"Accepted\"}]"
    );
    assert_eq!(request_stop_transaction("m", "Rejected"), "[3, \"m\", {\"status\":\"Rejected\"}]");
    assert_eq!(
        create_request_start_transaction_response("m".to_string(), 5, "Rejected".to_string()),
        "[3, \"m\", {\"remoteStartId\":5,\"status\":\"Rejected\"}]"
    );
    assert_eq!(
        create_request_stop_transaction_response("m".to_string(), "Accepted".to_string()),
        "[3, \"m\", {\"status\":\"Accepted\"}]"
    );
}

#[test]
fn single_set_variable_response() {
    assert_eq!(
        create_set_variables_response(
            "m".to_string(),
            "Rejected".to_string(),
            "AuthCtrlr".to_string(),
            "AuthorizeRemoteStart".to_string()
        ),
        "[3, \"m\", {\"setVariableResult\":[{\"attributeStatus\":\"Rejected\",\"component\":\"AuthCtrlr\",\"variable\":{\"name\":\"AuthorizeRemoteStart\"}}]}]"
    );
}

fn result(status: &str, component: &str, variable: &str, value: Option<&str>) -> VariableResult {
    VariableResult {
        attribute_status: status.to_string(),
        component: component.to_string(),
        variable: variable.to_string(),
        attribute_value: value.map(|v| v.to_string()),
    }
}

#[test]
fn set_variables_two_results() {
    let results = vec![
        result("Rejected", "AuthCtrlr", "AuthorizeRemoteStart", None),
        result("UnknownComponent", "X", "Y", None),
    ];
    assert_eq!(
        set_variables("m", &results),
        "[3, \"m\", {\"setVariableResult\":[{\"attributeStatus\":\"Rejected\",\"component\":{\"name\":\"AuthCtrlr\"},\"variable\":{\"name\":\"AuthorizeRemoteStart\"}},{\"attributeStatus\":\"UnknownComponent\",\"component\":{\"name\":\"X\"},\"variable\":{\"name\":\"Y\"}}]}]"
    );
}

#[test]
fn get_variables_with_value_and_empty() {
    let results = vec![result("Accepted", "AuthCtrlr", "AuthorizeRemoteStart", Some("false"))];
    assert_eq!(
        get_variables("m", &results),
        "[3, \"m\", {\"getVariableResult\":[{\"attributeStatus\":\"Accepted\",\"component\":{\"name\":\"AuthCtrlr\"},\"variable\":{\"name\":\"AuthorizeRemoteStart\"},\"attributeValue\":\"false\"}]}]"
    );
    assert_eq!(get_variables("m", &vec![]), "[3, \"m\", {\"getVariableResult\":[]}]");
}

#[test]
fn decode_call() {
    match decode("[2,\"id-7\",\"Heartbeat\",{\"a\":1}]") {
        Ok(Envelope::Call { message_id, action, payload }) => {
            assert_eq!(message_id, "id-7");
            assert_eq!(action, "Heartbeat");
            assert_eq!(payload, "{\"a\":1}");
        }
        _ => panic!("not a call"),
    }
}

#[test]
fn decode_call_result_and_error() {
    match decode("[3, \"r\", {\"status\":\"Accepted\"}]") {
        Ok(Envelope::CallResult { message_id, payload }) => {
            assert_eq!(message_id, "r");
            assert_eq!(payload, "{\"status\":\"Accepted\"}");
        }
        _ => panic!("not a call result"),
    }
    match decode("[4, \"e\", \"GenericError\", \"bad\", {}]") {
        Ok(Envelope::CallError { message_id, error_code, error_description, error_details }) => {
            assert_eq!(message_id, "e");
            assert_eq!(error_code, "GenericError");
            assert_eq!(error_description, "bad");
            assert_eq!(error_details, "{}");
        }
        _ => panic!("not a call error"),
    }
}

#[test]
fn decode_failures() {
    assert!(matches!(decode("[2, \"x\""), Err(DecodeError::Malformed)));
    assert!(matches!(decode("[9, \"x\", {}]"), Err(DecodeError::UnknownType)));
    assert!(matches!(decode("{\"a\":1}"), Err(DecodeError::UnknownType)));
}

#[test]
fn round_trip_keeps_action_and_payload() {
    let id = Client::fresh_values().unwrap().first_id;
    let payload = "{\"status\":\"Accepted\",\"interval\":30,\"nested\":{\"k\":[1,2]}}";
    let text = wrap_call(&id, "BootNotification", payload);
    match decode(&text) {
        Ok(Envelope::Call { message_id, action, payload: p }) => {
            assert_eq!(message_id, id);
            assert_eq!(action, "BootNotification");
            assert_eq!(json::parse(&p).unwrap(), json::parse(payload).unwrap());
        }
        _ => panic!("round trip failed"),
    }
}

#[test]
fn fresh_ids_are_hyphenated_uuids() {
    let f = Client::fresh_values().unwrap();
    let a = f.first_id.clone();
    assert_ne!(a, f.second_id);
    assert_ne!(f.transaction_id, f.third_id);
    assert_eq!(a.len(), 36);
    for (i, c) in a.chars().enumerate() {
        if i == 8 || i == 13 || i == 18 || i == 23 {
            assert_eq!(c, '-');
        } else if i == 14 {
            assert_eq!(c, '4');
        } else if i == 19 {
            assert!("89ab".contains(c));
        } else {
            assert!(c.is_ascii_digit() || ('a'..='f').contains(&c));
        }
    }
}

#[test]
fn fresh_timestamp_is_rfc3339_in_whole_seconds() {
    let t = Client::fresh_values().unwrap().timestamp;
    assert_eq!(t.len(), 25);
    assert!(t.starts_with("20"));
    assert_eq!(&t[4..5], "-");
    assert_eq!(&t[10..11], "T");
    assert!(t.ends_with("+00:00"));
}

#[test]
fn string_values_are_escaped_as_json_writes_them() {
    assert_eq!(
        wrap_call_error("id", "A\u{1}\u{1f}\t\n\r\u{8}\u{c}", "é\\\"/"),
        "[4, \"id\", \"A\\u0001\\u001f\\t\\n\\r\\b\\f\", \"é\\\\\\\"/\", {}]"
    );
}
