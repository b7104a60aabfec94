use ocpp_client::client::{
    answer_error, read_request, CallRequest, Client, Fresh, RequestError, SessionError, Timer,
    TimerRequest, QUEUE_FETCH_INTERVAL,
};
use ocpp_client::components::{get_variable, set_variable_status};
use ocpp_client::storage::{
    delete_transaction, get_connector, get_last_sent_message, get_message, get_transaction,
    queue_add, queue_pop, queue_size, set_connector_status, set_last_sent_message, set_message,
    set_transaction, ConnectorStatus, Storage,
};
use ocpp_client::wire::decode;

fn fresh() -> Fresh {
    Fresh {
        transaction_id: "tx-1".to_string(),
        first_id: "id-1".to_string(),
        second_id: "id-2".to_string(),
        third_id: "id-3".to_string(),
        timestamp: "2024-01-02T03:04:05+00:00".to_string(),
    }
}

fn available_client() -> Client {
    let mut c = Client::new(1, 1);
    set_connector_status(&mut c.storage, 0, 0, ConnectorStatus::Available);
    c
}

fn drain_all(c: &mut Client) -> Vec<String> {
    let mut out = Vec::new();
    while queue_size(&c.storage) > 0 {
        out.push(queue_pop(&mut c.storage));
    }
    out
}

#[test]
fn variable_table() {
    assert_eq!(get_variable("AuthCtrlr", "AuthorizeRemoteStart"), ("Accepted", Some("false")));
    assert_eq!(get_variable("AuthCtrlr", "Other"), ("UnknownVariable", None));
    assert_eq!(get_variable("Other", "AuthorizeRemoteStart"), ("UnknownComponent", None));
    assert_eq!(set_variable_status("AuthCtrlr", "AuthorizeRemoteStart"), "Rejected");
    assert_eq!(set_variable_status("AuthCtrlr", "X"), "UnknownVariable");
    assert_eq!(set_variable_status("X", "X"), "UnknownComponent");
}

#[test]
fn message_store() {
    let mut s = Storage::new(1, 1);
    assert_eq!(get_message(&s, "a"), "");
    set_message(&mut s, "a".to_string(), "one".to_string());
    set_message(&mut s, "b".to_string(), "two".to_string());
    set_message(&mut s, "a".to_string(), "three".to_string());
    assert_eq!(get_message(&s, "a"), "three");
    assert_eq!(get_message(&s, "b"), "two");
    assert_eq!(get_message(&s, "c"), "");
}

#[test]
fn transaction_store() {
    let mut s = Storage::new(1, 1);
    set_transaction(&mut s, "t1".to_string(), "{\"a\":1}".to_string());
    set_transaction(&mut s, "t2".to_string(), "{\"b\":2}".to_string());
    assert_eq!(get_transaction(&s, "t1"), "{\"a\":1}");
    delete_transaction(&mut s, "t1");
    assert_eq!(get_transaction(&s, "t1"), "");
    assert_eq!(get_transaction(&s, "t2"), "{\"b\":2}");
    delete_transaction(&mut s, "missing");
    assert_eq!(get_transaction(&s, "t2"), "{\"b\":2}");
}

#[test]
fn connector_grid() {
    let mut s = Storage::new(2, 2);
    let c = get_connector(&s, 1, 1);
    assert_eq!(c.status, ConnectorStatus::Inoperative);
    assert!(c.operational);
    set_connector_status(&mut s, 1, 0, ConnectorStatus::Faulted);
    assert_eq!(get_connector(&s, 1, 0).status, ConnectorStatus::Faulted);
    assert_eq!(get_connector(&s, 0, 0).status, ConnectorStatus::Inoperative);
    assert_eq!(ConnectorStatus::Faulted.as_str(), "Faulted");
}

#[test]
fn queue_is_fifo() {
    let mut s = Storage::new(1, 1);
    assert_eq!(queue_size(&s), 0);
    assert_eq!(queue_pop(&mut s), "");
    queue_add(&mut s, "a".to_string());
    queue_add(&mut s, "b".to_string());
    queue_add(&mut s, "c".to_string());
    assert_eq!(queue_size(&s), 3);
    assert_eq!(queue_pop(&mut s), "a");
    assert_eq!(queue_pop(&mut s), "b");
    assert_eq!(queue_pop(&mut s), "c");
    assert_eq!(queue_size(&s), 0);
}

#[test]
fn last_sent_record() {
    let mut s = Storage::new(1, 1);
    let r = get_last_sent_message(&s);
    assert!(r.id.is_none() && r.timestamp.is_none());
    set_last_sent_message(&mut s, "m".to_string(), 12);
    let r = get_last_sent_message(&s);
    assert_eq!(r.id, Some("m".to_string()));
    assert_eq!(r.timestamp, Some(12));
}

#[test]
fn start_on_available_connector() {
    let mut c = available_client();
    let r = c.start_transaction("m1", 42, 1, "{\"remoteStartId\":42,\"evseId\":1}".to_string(), &fresh());
    assert_eq!(r, "[3, \"m1\", {\"remoteStartId\":42,\"status\":\"Accepted\"}]");
    assert_eq!(get_connector(&c.storage, 0, 0).status, ConnectorStatus::Occupied);
    assert_eq!(get_transaction(&c.storage, "tx-1"), "{\"remoteStartId\":42,\"evseId\":1}");
    let queued = drain_all(&mut c);
    assert_eq!(queued.len(), 3);
    assert_eq!(
        queued[0],
        "[2, \"id-1\", \"StatusNotification\", {\"timestamp\":\"2024-01-02T03:04:05+00:00\",\"connectorStatus\":\"Occupied\",\"evseId\":1,\"connectorId\":1}]"
    );
    assert_eq!(
        queued[1],
        "[2, \"id-2\", \"TransactionEvent\", {\"eventType\":\"Started\",\"timestamp\":\"2024-01-02T03:04:05+00:00\",\"triggerReason\":\"RemoteStart\",\"seqNo\":0,\"transactionData\":{\"id\":\"tx-1\",\"remoteStartId\":42}}]"
    );
    assert_eq!(
        queued[2],
        "[2, \"id-3\", \"TransactionEvent\", {\"eventType\":\"Updated\",\"timestamp\":\"2024-01-02T03:04:05+00:00\",\"triggerReason\":\"CablePluggedIn\",\"seqNo\":0,\"transactionData\":{\"id\":\"tx-1\",\"chargingState\":\"Charging\"}}]"
    );
    assert_eq!(get_message(&c.storage, "id-2"), queued[1]);
}

#[test]
fn start_on_unavailable_connector() {
    let mut c = Client::new(1, 1);
    let r = c.start_transaction("m1", 42, 1, "{}".to_string(), &fresh());
    assert_eq!(r, "[3, \"m1\", {\"remoteStartId\":42,\"status\":\"Rejected\"}]");
    assert_eq!(queue_size(&c.storage), 0);
    assert_eq!(get_connector(&c.storage, 0, 0).status, ConnectorStatus::Inoperative);
    assert_eq!(get_transaction(&c.storage, "tx-1"), "");
    assert_eq!(get_message(&c.storage, "id-1"), "");
}

#[test]
fn start_on_unknown_evse() {
    let mut c = available_client();
    let r0 = c.start_transaction("m1", 1, 0, "{}".to_string(), &fresh());
    let r2 = c.start_transaction("m2", 1, 2, "{}".to_string(), &fresh());
    assert_eq!(r0, "[3, \"m1\", {\"remoteStartId\":1,\"status\":\"Rejected\"}]");
    assert_eq!(r2, "[3, \"m2\", {\"remoteStartId\":1,\"status\":\"Rejected\"}]");
    assert_eq!(queue_size(&c.storage), 0);
}

#[test]
fn stop_unknown_transaction() {
    let mut c = available_client();
    let r = c.stop_transaction("m1", "nope", &fresh());
    assert_eq!(r, "[3, \"m1\", {\"status\":\"Rejected\"}]");
    assert_eq!(queue_size(&c.storage), 0);
    assert_eq!(get_connector(&c.storage, 0, 0).status, ConnectorStatus::Available);
}

#[test]
fn stop_known_transaction() {
    let mut c = available_client();
    c.start_transaction("m1", 42, 1, "{}".to_string(), &fresh());
    drain_all(&mut c);
    let f = Fresh {
        transaction_id: "unused".to_string(),
        first_id: "s-1".to_string(),
        second_id: "s-2".to_string(),
        third_id: "s-3".to_string(),
        timestamp: "T".to_string(),
    };
    let r = c.stop_transaction("m2", "tx-1", &f);
    assert_eq!(r, "[3, \"m2\", {\"status\":\"Accepted\"}]");
    assert_eq!(get_transaction(&c.storage, "tx-1"), "");
    assert_eq!(get_connector(&c.storage, 0, 0).status, ConnectorStatus::Available);
    let queued = drain_all(&mut c);
    assert_eq!(
        queued,
        vec![
            "[2, \"s-1\", \"TransactionEvent\", {\"eventType\":\"Updated\",\"timestamp\":\"T\",\"triggerReason\":\"RemoteStop\",\"seqNo\":0,\"transactionData\":{\"id\":\"tx-1\"}}]".to_string(),
            "[2, \"s-2\", \"TransactionEvent\", {\"eventType\":\"Ended\",\"timestamp\":\"T\",\"triggerReason\":\"RemoteStop\",\"seqNo\":0,\"transactionData\":{\"id\":\"tx-1\",\"stoppedReason\":\"Remote\"}}]".to_string(),
            "[2, \"s-3\", \"StatusNotification\", {\"timestamp\":\"T\",\"connectorStatus\":\"Available\",\"evseId\":1,\"connectorId\":1}]".to_string(),
        ]
    );
}

#[test]
fn boot_accepted_scenario() {
    let mut c = Client::new(1, 1);
    let opened = c.on_open("SN", "Model", "Vendor");
    assert_eq!(opened.timers, vec![TimerRequest { timer: Timer::QueueFetch, delay_ms: QUEUE_FETCH_INTERVAL }]);
    assert_eq!(queue_size(&c.storage), 1);
    let boot = queue_pop(&mut c.storage);
    let boot_id = match decode(&boot) {
        Ok(ocpp_client::wire::Envelope::Call { message_id, action, .. }) => {
            assert_eq!(action, "BootNotification");
            message_id
        }
        _ => panic!("boot notification not queued"),
    };
    let reply = format!("[3, \"{}\", {{\"status\":\"Accepted\",\"interval\":30}}]", boot_id);
    let effects = c.on_message(&reply).ok().unwrap();
    assert!(effects.send.is_empty());
    assert_eq!(effects.timers, vec![TimerRequest { timer: Timer::Heartbeat, delay_ms: 30000 }]);
    assert_eq!(c.heartbeat_interval, 30000);
    assert_eq!(get_connector(&c.storage, 0, 0).status, ConnectorStatus::Available);
    let queued = drain_all(&mut c);
    assert_eq!(queued.len(), 1);
    assert!(queued[0].contains("\"StatusNotification\""));
    assert!(queued[0].contains("\"connectorStatus\":\"Available\",\"evseId\":1,\"connectorId\":1"));
}

#[test]
fn boot_rejected_changes_nothing() {
    let mut c = Client::new(1, 1);
    let e = c.boot_result("Rejected", Some(30), &fresh()).ok().unwrap();
    assert!(e.send.is_empty() && e.timers.is_empty());
    assert_eq!(queue_size(&c.storage), 0);
    assert_eq!(get_connector(&c.storage, 0, 0).status, ConnectorStatus::Inoperative);
    assert_eq!(c.heartbeat_interval, 0);
}

#[test]
fn boot_interval_too_large_is_an_error() {
    let mut c = Client::new(1, 1);
    let e = c.boot_result("Accepted", Some(u64::MAX / 1000 + 1), &fresh());
    assert!(matches!(e, Err(SessionError::MissingField)));
    assert_eq!(c.heartbeat_interval, 0);
    assert_eq!(queue_size(&c.storage), 0);
    assert_eq!(get_connector(&c.storage, 0, 0).status, ConnectorStatus::Inoperative);
}

#[test]
fn boot_without_interval_is_an_error() {
    let mut c = Client::new(1, 1);
    let e = c.boot_result("Accepted", None, &fresh());
    assert!(matches!(e, Err(SessionError::MissingField)));
    assert_eq!(queue_size(&c.storage), 0);
}

#[test]
fn unknown_call_result_is_ignored() {
    let mut c = available_client();
    let e = c.on_message("[3, \"never-sent\", {\"status\":\"Accepted\",\"interval\":30}]").ok().unwrap();
    assert!(e.send.is_empty() && e.timers.is_empty());
    assert_eq!(queue_size(&c.storage), 0);
    assert_eq!(c.heartbeat_interval, 0);
}

#[test]
fn call_error_is_ignored() {
    let mut c = available_client();
    let e = c.on_message("[4, \"x\", \"GenericError\", \"oops\", {}]").ok().unwrap();
    assert!(e.send.is_empty() && e.timers.is_empty());
    assert_eq!(queue_size(&c.storage), 0);
}

#[test]
fn malformed_text_is_an_error() {
    let mut c = available_client();
    assert!(matches!(c.on_message("not json"), Err(SessionError::Malformed)));
    assert!(matches!(c.on_message("[7, \"x\"]"), Err(SessionError::UnknownType)));
}

#[test]
fn every_call_gets_one_reply_with_its_id() {
    let mut c = available_client();
    let calls = [
        ("c1", "[2, \"c1\", \"SetVariables\", {\"setVariableData\":[{\"attributeValue\":\"true\",\"component\":{\"name\":\"AuthCtrlr\"},\"variable\":{\"name\":\"AuthorizeRemoteStart\"}}]}]"),
        ("c2", "[2, \"c2\", \"GetVariables\", {\"getVariableData\":[{\"component\":{\"name\":\"AuthCtrlr\"},\"variable\":{\"name\":\"AuthorizeRemoteStart\"}}]}]"),
        ("c3", "[2, \"c3\", \"RequestStartTransaction\", {\"remoteStartId\":7,\"evseId\":1,\"idToken\":{\"idToken\":\"a\",\"type\":\"Central\"}}]"),
        ("c4", "[2, \"c4\", \"RequestStopTransaction\", {\"transactionId\":\"unknown\"}]"),
        ("c5", "[2, \"c5\", \"Reset\", {\"type\":\"Immediate\"}]"),
        ("c6", "[2, \"c6\", \"RequestStartTransaction\", {\"evseId\":1}]"),
    ];
    for (id, text) in calls.iter() {
        let e = c.on_message(text).ok().unwrap();
        assert_eq!(e.send.len(), 1);
        let head3 = format!("[3, \"{}\", ", id);
        let head4 = format!("[4, \"{}\", ", id);
        assert!(e.send[0].starts_with(&head3) || e.send[0].starts_with(&head4));
    }
}

#[test]
fn set_and_get_variables_replies() {
    let mut c = available_client();
    let e = c.on_message("[2, \"c1\", \"SetVariables\", {\"setVariableData\":[{\"attributeValue\":\"true\",\"component\":{\"name\":\"AuthCtrlr\"},\"variable\":{\"name\":\"AuthorizeRemoteStart\"}},{\"attributeValue\":\"1\",\"component\":{\"name\":\"Foo\"},\"variable\":{\"name\":\"Bar\"}}]}]").ok().unwrap();
    assert_eq!(
        e.send[0],
        "[3, \"c1\", {\"setVariableResult\":[{\"attributeStatus\":\"Rejected\",\"component\":{\"name\":\"AuthCtrlr\"},\"variable\":{\"name\":\"AuthorizeRemoteStart\"}},{\"attributeStatus\":\"UnknownComponent\",\"component\":{\"name\":\"Foo\"},\"variable\":{\"name\":\"Bar\"}}]}]"
    );
    let e = c.on_message("[2, \"c2\", \"GetVariables\", {\"getVariableData\":[{\"component\":{\"name\":\"AuthCtrlr\"},\"variable\":{\"name\":\"AuthorizeRemoteStart\"}}]}]").ok().unwrap();
    assert_eq!(
        e.send[0],
        "[3, \"c2\", {\"getVariableResult\":[{\"attributeStatus\":\"Accepted\",\"component\":{\"name\":\"AuthCtrlr\"},\"variable\":{\"name\":\"AuthorizeRemoteStart\"},\"attributeValue\":\"false\"}]}]"
    );
}

#[test]
fn unknown_action_gets_call_error() {
    let mut c = available_client();
    let e = c.on_message("[2, \"c5\", \"Reset\", {}]").ok().unwrap();
    assert_eq!(e.send[0], "[4, \"c5\", \"NotImplemented\", \"No handler for this action\", {}]");
    assert_eq!(queue_size(&c.storage), 0);
}

#[test]
fn remote_start_through_messages() {
    let mut c = available_client();
    let e = c.on_message("[2, \"c3\", \"RequestStartTransaction\", {\"remoteStartId\":7,\"evseId\":1}]").ok().unwrap();
    assert_eq!(e.send[0], "[3, \"c3\", {\"remoteStartId\":7,\"status\":\"Accepted\"}]");
    assert_eq!(queue_size(&c.storage), 3);
    assert_eq!(get_connector(&c.storage, 0, 0).status, ConnectorStatus::Occupied);
    let queued = drain_all(&mut c);
    let tx_start = queued[1].find("\"transactionData\":{\"id\":\"").unwrap() + 25;
    let tx_id = &queued[1][tx_start..tx_start + 36];
    assert_eq!(get_transaction(&c.storage, tx_id), "{\"remoteStartId\":7,\"evseId\":1}");
    let stop = format!("[2, \"c4\", \"RequestStopTransaction\", {{\"transactionId\":\"{}\"}}]", tx_id);
    let e = c.on_message(&stop).ok().unwrap();
    assert_eq!(e.send[0], "[3, \"c4\", {\"status\":\"Accepted\"}]");
    assert_eq!(queue_size(&c.storage), 3);
    assert_eq!(get_connector(&c.storage, 0, 0).status, ConnectorStatus::Available);
    assert_eq!(get_transaction(&c.storage, tx_id), "");
}

#[test]
fn delivery_gate_and_order() {
    let mut c = Client::new(1, 1);
    c.enqueue_call("a".to_string(), "[2, \"a\", \"Heartbeat\", {}]".to_string());
    c.enqueue_call("b".to_string(), "[2, \"b\", \"Heartbeat\", {}]".to_string());
    assert_eq!(c.drain(100), Some("[2, \"a\", \"Heartbeat\", {}]".to_string()));
    let last = get_last_sent_message(&c.storage);
    assert_eq!(last.id, Some("a".to_string()));
    assert_eq!(last.timestamp, Some(100));
    assert_eq!(c.drain(100), None);
    assert_eq!(c.drain(110), None);
    assert_eq!(c.drain(111), Some("[2, \"b\", \"Heartbeat\", {}]".to_string()));
    assert_eq!(c.drain(200), None);
}

#[test]
fn queue_fetch_timer() {
    let mut c = Client::new(1, 1);
    c.enqueue_call("a".to_string(), "[2, \"a\", \"Heartbeat\", {}]".to_string());
    let e = c.on_timer(Timer::QueueFetch, "unused".to_string(), 50);
    assert_eq!(e.send, vec!["[2, \"a\", \"Heartbeat\", {}]".to_string()]);
    assert_eq!(e.timers, vec![TimerRequest { timer: Timer::QueueFetch, delay_ms: 50 }]);
    let e = c.on_timer(Timer::QueueFetch, "unused".to_string(), 51);
    assert!(e.send.is_empty());
    let e = c.on_timeout(Timer::QueueFetch).ok().unwrap();
    assert!(e.send.is_empty());
}

#[test]
fn heartbeat_timer() {
    let mut c = Client::new(1, 1);
    c.heartbeat_interval = 30000;
    let e = c.on_timer(Timer::Heartbeat, "hb".to_string(), 0);
    assert!(e.send.is_empty());
    assert_eq!(e.timers, vec![TimerRequest { timer: Timer::Heartbeat, delay_ms: 30000 }]);
    assert_eq!(queue_pop(&mut c.storage), "[2, \"hb\", \"Heartbeat\", {}]");
    assert_eq!(get_message(&c.storage, "hb"), "[2, \"hb\", \"Heartbeat\", {}]");
    let e = c.on_timeout(Timer::Heartbeat).ok().unwrap();
    assert_eq!(e.timers, vec![TimerRequest { timer: Timer::Heartbeat, delay_ms: 30000 }]);
    assert_eq!(queue_size(&c.storage), 1);
}

#[test]
fn reading_requests() {
    let p = "{\"remoteStartId\":3,\"evseId\":1}";
    match read_request("RequestStartTransaction", p) {
        Ok(CallRequest::RequestStartTransaction { remote_start_id, evse_id, payload }) => {
            assert_eq!(remote_start_id, 3);
            assert_eq!(evse_id, 1);
            assert_eq!(payload, "{\"remoteStartId\":3,\"evseId\":1}");
        }
        _ => panic!("not a start request"),
    }
    let missing = "{\"evseId\":1}";
    assert!(matches!(
        read_request("RequestStartTransaction", missing),
        Err(RequestError::FormationViolation)
    ));
    assert!(matches!(read_request("Reset", p), Err(RequestError::NotImplemented)));
    let stop = "{\"transactionId\":\"t-9\"}";
    match read_request("RequestStopTransaction", stop) {
        Ok(CallRequest::RequestStopTransaction { transaction_id }) => assert_eq!(transaction_id, "t-9"),
        _ => panic!("not a stop request"),
    }
    let get = "{\"getVariableData\":[{\"component\":{\"name\":\"A\"},\"variable\":{\"name\":\"B\"}}]}";
    match read_request("GetVariables", get) {
        Ok(CallRequest::GetVariables { names }) => {
            assert_eq!(names, vec![("A".to_string(), "B".to_string())])
        }
        _ => panic!("not a get request"),
    }
}

#[test]
fn call_error_answers() {
    assert_eq!(
        answer_error("x", RequestError::FormationViolation),
        "[4, \"x\", \"FormationViolation\", \"A required field is missing\", {}]"
    );
    assert_eq!(RequestError::NotImplemented.code(), "NotImplemented");
}

#[test]
fn handling_a_read_request() {
    let mut c = available_client();
    let r = c.handle_request(
        "m",
        CallRequest::SetVariables { names: vec![("AuthCtrlr".to_string(), "Nope".to_string())] },
        &fresh(),
    );
    assert_eq!(
        r,
        "[3, \"m\", {\"setVariableResult\":[{\"attributeStatus\":\"UnknownVariable\",\"component\":{\"name\":\"AuthCtrlr\"},\"variable\":{\"name\":\"Nope\"}}]}]"
    );
    let r = c.handle_request("m2", CallRequest::RequestStopTransaction { transaction_id: "t".to_string() }, &fresh());
    assert_eq!(r, "[3, \"m2\", {\"status\":\"Rejected\"}]");
    assert_eq!(queue_size(&c.storage), 0);
}

#[test]
fn stop_frees_the_connector_of_the_transactions_evse() {
    let mut c = Client::new(2, 1);
    set_connector_status(&mut c.storage, 1, 0, ConnectorStatus::Available);
    let r = c.start_transaction("m1", 9, 2, "{\"remoteStartId\":9,\"evseId\":2}".to_string(), &fresh());
    assert_eq!(r, "[3, \"m1\", {\"remoteStartId\":9,\"status\":\"Accepted\"}]");
    assert_eq!(get_connector(&c.storage, 1, 0).status, ConnectorStatus::Occupied);
    drain_all(&mut c);
    let r = c.stop_transaction("m2", "tx-1", &fresh());
    assert_eq!(r, "[3, \"m2\", {\"status\":\"Accepted\"}]");
    assert_eq!(get_connector(&c.storage, 1, 0).status, ConnectorStatus::Available);
    assert_eq!(get_connector(&c.storage, 0, 0).status, ConnectorStatus::Inoperative);
    let queued = drain_all(&mut c);
    assert!(queued[2].ends_with("\"connectorStatus\":\"Available\",\"evseId\":2,\"connectorId\":1}]"));
}

#[test]
fn first_tick_sends_the_head() {
    let mut c = Client::new(1, 1);
    c.on_open("SN", "M", "V");
    let e = c.on_timeout(Timer::QueueFetch).ok().unwrap();
    assert_eq!(e.send.len(), 1);
    assert!(e.send[0].contains("\"BootNotification\""));
    assert_eq!(queue_size(&c.storage), 0);
    assert!(get_last_sent_message(&c.storage).id.is_some());
}
