//! Calls that the station initiates: BootNotification, StatusNotification,
//! Heartbeat and TransactionEvent.

use crate::clock::{rfc3339_text, utc_now};
use crate::wire::{call_text, decimal, decimal_text, json_quoted, quote_json, wrap_call};
use vstd::prelude::*;

verus! {

/// The view of an optional string slice.
pub open spec fn opt_view(o: Option<&str>) -> Option<Seq<char>> {
    match o {
        Some(s) => Some(s@),
        None => None,
    }
}

/// Payload of a BootNotification after power-up.
pub open spec fn boot_notification_payload(
    serial_number: Seq<char>,
    model: Seq<char>,
    vendor_name: Seq<char>,
) -> Seq<char> {
    "{\"reason\":\"PowerUp\",\"chargingStation\":{\"serialNumber\":"@ + json_quoted(serial_number)
        + ",\"model\":"@ + json_quoted(model) + ",\"vendorName\":"@ + json_quoted(vendor_name)
        + ",\"firmwareVersion\":\"0.1.0\",\"modem\":{\"iccid\":\"\",\"imsi\":\"\"}}}"@
}

/// Payload of a StatusNotification.
pub open spec fn status_notification_payload(
    timestamp: Seq<char>,
    evse_id: nat,
    connector_id: nat,
    status: Seq<char>,
) -> Seq<char> {
    "{\"timestamp\":"@ + json_quoted(timestamp) + ",\"connectorStatus\":"@ + json_quoted(status)
        + ",\"evseId\":"@ + decimal(evse_id) + ",\"connectorId\":"@ + decimal(connector_id) + "}"@
}

/// The member `,"key":value` of a string field that may be absent.
pub open spec fn optional_string_member(key_prefix: Seq<char>, value: Option<Seq<char>>) -> Seq<char> {
    match value {
        Some(v) => key_prefix + json_quoted(v),
        None => Seq::empty(),
    }
}

/// Payload of a TransactionEvent.
pub open spec fn transaction_event_payload(
    transaction_id: Seq<char>,
    timestamp: Seq<char>,
    event_type: Seq<char>,
    trigger_reason: Seq<char>,
    charging_state: Option<Seq<char>>,
    remote_start_id: Option<u64>,
    stopped_reason: Option<Seq<char>>,
) -> Seq<char> {
    "{\"eventType\":"@ + json_quoted(event_type) + ",\"timestamp\":"@ + json_quoted(timestamp)
        + ",\"triggerReason\":"@ + json_quoted(trigger_reason)
        + ",\"seqNo\":0,\"transactionData\":{\"id\":"@ + json_quoted(transaction_id)
        + optional_string_member(",\"chargingState\":"@, charging_state) + match remote_start_id {
        Some(n) => ",\"remoteStartId\":"@ + decimal(n as nat),
        None => Seq::empty(),
    } + optional_string_member(",\"stoppedReason\":"@, stopped_reason) + "}}"@
}

/// Text of a BootNotification call.
pub open spec fn boot_notification_text(
    msg_id: Seq<char>,
    serial_number: Seq<char>,
    model: Seq<char>,
    vendor_name: Seq<char>,
) -> Seq<char> {
    call_text(msg_id, "BootNotification"@, boot_notification_payload(serial_number, model, vendor_name))
}

/// Text of a StatusNotification call.
pub open spec fn status_notification_text(
    msg_id: Seq<char>,
    timestamp: Seq<char>,
    evse_id: nat,
    connector_id: nat,
    status: Seq<char>,
) -> Seq<char> {
    call_text(
        msg_id,
        "StatusNotification"@,
        status_notification_payload(timestamp, evse_id, connector_id, status),
    )
}

/// Text of a Heartbeat call.
pub open spec fn heartbeat_text(msg_id: Seq<char>) -> Seq<char> {
    call_text(msg_id, "Heartbeat"@, "{}"@)
}

/// Text of a TransactionEvent call.
pub open spec fn transaction_event_text(
    msg_id: Seq<char>,
    transaction_id: Seq<char>,
    timestamp: Seq<char>,
    event_type: Seq<char>,
    trigger_reason: Seq<char>,
    charging_state: Option<Seq<char>>,
    remote_start_id: Option<u64>,
    stopped_reason: Option<Seq<char>>,
) -> Seq<char> {
    call_text(
        msg_id,
        "TransactionEvent"@,
        transaction_event_payload(
            transaction_id,
            timestamp,
            event_type,
            trigger_reason,
            charging_state,
            remote_start_id,
            stopped_reason,
        ),
    )
}

/// Builds a BootNotification call.
pub fn boot_notification(msg_id: &str, serial_number: &str, model: &str, vendor_name: &str) -> (r:
    String)
    ensures
        r@ == boot_notification_text(msg_id@, serial_number@, model@, vendor_name@),
{
    let mut p = String::from_str("{\"reason\":\"PowerUp\",\"chargingStation\":{\"serialNumber\":");
    let q = quote_json(serial_number);
    p.append(q.as_str());
    p.append(",\"model\":");
    let q = quote_json(model);
    p.append(q.as_str());
    p.append(",\"vendorName\":");
    let q = quote_json(vendor_name);
    p.append(q.as_str());
    p.append(",\"firmwareVersion\":\"0.1.0\",\"modem\":{\"iccid\":\"\",\"imsi\":\"\"}}}");
    wrap_call(msg_id, "BootNotification", p.as_str())
}

/// Builds a StatusNotification call stamped with the given time.
pub fn status_notification_at(
    msg_id: &str,
    timestamp: &str,
    evse_id: u64,
    connector_id: u64,
    status: &str,
) -> (r: String)
    ensures
        r@ == status_notification_text(
            msg_id@,
            timestamp@,
            evse_id as nat,
            connector_id as nat,
            status@,
        ),
{
    let mut p = String::from_str("{\"timestamp\":");
    let q = quote_json(timestamp);
    p.append(q.as_str());
    p.append(",\"connectorStatus\":");
    let q = quote_json(status);
    p.append(q.as_str());
    p.append(",\"evseId\":");
    let d = decimal_text(evse_id);
    p.append(d.as_str());
    p.append(",\"connectorId\":");
    let d = decimal_text(connector_id);
    p.append(d.as_str());
    p.append("}");
    wrap_call(msg_id, "StatusNotification", p.as_str())
}

/// Builds a StatusNotification call stamped with the current time, or
/// nothing when the clock cannot be read.
pub fn status_notification(msg_id: &str, evse_id: u8, connector_id: u8, status: &str) -> (r: Option<
    String,
>)
    ensures
        r matches Some(t) ==> exists|seconds: int|
            t@ == status_notification_text(
                msg_id@,
                #[trigger] rfc3339_text(seconds),
                evse_id as nat,
                connector_id as nat,
                status@,
            ),
{
    let now = match utc_now() {
        Some(now) => now,
        None => return None,
    };
    Some(status_notification_at(msg_id, now.text.as_str(), evse_id as u64, connector_id as u64, status))
}

/// Builds a Heartbeat call.
pub fn heartbeat(msg_id: &str) -> (r: String)
    ensures
        r@ == heartbeat_text(msg_id@),
{
    wrap_call(msg_id, "Heartbeat", "{}")
}

/// Builds a TransactionEvent call stamped with the given time.
pub fn transaction_event_at(
    msg_id: &str,
    transaction_id: &str,
    timestamp: &str,
    event_type: &str,
    trigger_reason: &str,
    charging_state: Option<&str>,
    remote_start_id: Option<u64>,
    stopped_reason: Option<&str>,
) -> (r: String)
    ensures
        r@ == transaction_event_text(
            msg_id@,
            transaction_id@,
            timestamp@,
            event_type@,
            trigger_reason@,
            opt_view(charging_state),
            remote_start_id,
            opt_view(stopped_reason),
        ),
{
    let mut p = String::from_str("{\"eventType\":");
    let q = quote_json(event_type);
    p.append(q.as_str());
    p.append(",\"timestamp\":");
    let q = quote_json(timestamp);
    p.append(q.as_str());
    p.append(",\"triggerReason\":");
    let q = quote_json(trigger_reason);
    p.append(q.as_str());
    p.append(",\"seqNo\":0,\"transactionData\":{\"id\":");
    let q = quote_json(transaction_id);
    p.append(q.as_str());
    match charging_state {
        Some(s) => {
            p.append(",\"chargingState\":");
            let q = quote_json(s);
            p.append(q.as_str());
        },
        None => {},
    }
    match remote_start_id {
        Some(n) => {
            p.append(",\"remoteStartId\":");
            let d = decimal_text(n);
            p.append(d.as_str());
        },
        None => {},
    }
    match stopped_reason {
        Some(s) => {
            p.append(",\"stoppedReason\":");
            let q = quote_json(s);
            p.append(q.as_str());
        },
        None => {},
    }
    p.append("}}");
    wrap_call(msg_id, "TransactionEvent", p.as_str())
}

/// Builds a TransactionEvent call stamped with the current time, or nothing
/// when the clock cannot be read.
pub fn transaction_event(
    msg_id: &str,
    transaction_id: &str,
    event_type: &str,
    trigger_reason: &str,
    charging_state: Option<&str>,
    remote_start_id: Option<u64>,
    stopped_reason: Option<&str>,
) -> (r: Option<String>)
    ensures
        r matches Some(t) ==> exists|seconds: int|
            t@ == transaction_event_text(
                msg_id@,
                transaction_id@,
                #[trigger] rfc3339_text(seconds),
                event_type@,
                trigger_reason@,
                opt_view(charging_state),
                remote_start_id,
                opt_view(stopped_reason),
            ),
{
    let now = match utc_now() {
        Some(now) => now,
        None => return None,
    };
    let r = transaction_event_at(
        msg_id,
        transaction_id,
        now.text.as_str(),
        event_type,
        trigger_reason,
        charging_state,
        remote_start_id,
        stopped_reason,
    );
    Some(r)
}

} // verus!
