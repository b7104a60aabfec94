//! Message builders that take owned strings.

use crate::clock::rfc3339_text;
use crate::requests::{
    boot_notification, boot_notification_text, heartbeat, heartbeat_text, status_notification,
    status_notification_text, transaction_event, transaction_event_text,
};
use crate::responses::{
    request_start_transaction, request_stop_transaction, start_transaction_payload,
    stop_transaction_payload,
};
use crate::wire::{call_result_text, json_quoted, quote_json, wrap_call_result};
use vstd::prelude::*;

verus! {

/// The view of an optional owned string.
pub open spec fn opt_string_view(o: Option<String>) -> Option<Seq<char>> {
    match o {
        Some(s) => Some(s@),
        None => None,
    }
}

fn as_opt_str(o: &Option<String>) -> (r: Option<&str>)
    ensures
        crate::requests::opt_view(r) == opt_string_view(*o),
{
    match o {
        Some(s) => Some(s.as_str()),
        None => None,
    }
}

/// Builds a BootNotification call.
pub fn create_boot_notification_request(
    msg_id: String,
    serial_number: String,
    model: &str,
    vendor_name: &str,
) -> (r: String)
    ensures
        r@ == boot_notification_text(msg_id@, serial_number@, model@, vendor_name@),
{
    boot_notification(msg_id.as_str(), serial_number.as_str(), model, vendor_name)
}

/// Builds a StatusNotification call stamped with the current time, or
/// nothing when the clock cannot be read.
pub fn create_status_notification_request(
    msg_id: String,
    evse_id: u8,
    connector_id: u8,
    status: &str,
) -> (r: Option<String>)
    ensures
        r matches Some(t) ==> exists|seconds: int|
            t@ == status_notification_text(
                msg_id@,
                #[trigger] rfc3339_text(seconds),
                evse_id as nat,
                connector_id as nat,
                status@,
            ),
{
    status_notification(msg_id.as_str(), evse_id, connector_id, status)
}

/// Builds a Heartbeat call.
pub fn create_heartbeat_request(msg_id: String) -> (r: String)
    ensures
        r@ == heartbeat_text(msg_id@),
{
    heartbeat(msg_id.as_str())
}

/// Builds a TransactionEvent call stamped with the current time, or nothing
/// when the clock cannot be read.
pub fn create_transaction_event_request(
    msg_id: String,
    transaction_id: String,
    event_type: String,
    trigger_reason: String,
    charging_state: Option<String>,
    remote_start_id: Option<u64>,
    stopped_reason: Option<String>,
) -> (r: Option<String>)
    ensures
        r matches Some(t) ==> exists|seconds: int|
            t@ == transaction_event_text(
                msg_id@,
                transaction_id@,
                #[trigger] rfc3339_text(seconds),
                event_type@,
                trigger_reason@,
                opt_string_view(charging_state),
                remote_start_id,
                opt_string_view(stopped_reason),
            ),
{
    transaction_event(
        msg_id.as_str(),
        transaction_id.as_str(),
        event_type.as_str(),
        trigger_reason.as_str(),
        as_opt_str(&charging_state),
        remote_start_id,
        as_opt_str(&stopped_reason),
    )
}

/// Payload that answers SetVariables for one variable, the component given by
/// its bare name.
pub open spec fn single_set_variable_payload(
    attribute_status: Seq<char>,
    component: Seq<char>,
    variable: Seq<char>,
) -> Seq<char> {
    "{\"setVariableResult\":[{\"attributeStatus\":"@ + json_quoted(attribute_status)
        + ",\"component\":"@ + json_quoted(component) + ",\"variable\":{\"name\":"@ + json_quoted(
        variable,
    ) + "}}]}"@
}

/// Answers SetVariables for one variable.
pub fn create_set_variables_response(
    msg_id: String,
    attribute_status: String,
    component: String,
    variable: String,
) -> (r: String)
    ensures
        r@ == call_result_text(
            msg_id@,
            single_set_variable_payload(attribute_status@, component@, variable@),
        ),
{
    let mut p = String::from_str("{\"setVariableResult\":[{\"attributeStatus\":");
    let q = quote_json(attribute_status.as_str());
    p.append(q.as_str());
    p.append(",\"component\":");
    let q = quote_json(component.as_str());
    p.append(q.as_str());
    p.append(",\"variable\":{\"name\":");
    let q = quote_json(variable.as_str());
    p.append(q.as_str());
    p.append("}}]}");
    wrap_call_result(msg_id.as_str(), p.as_str())
}

/// Answers RequestStartTransaction.
pub fn create_request_start_transaction_response(
    msg_id: String,
    remote_start_id: u64,
    status: String,
) -> (r: String)
    ensures
        r@ == call_result_text(msg_id@, start_transaction_payload(remote_start_id, status@)),
{
    request_start_transaction(msg_id.as_str(), remote_start_id, status.as_str())
}

/// Answers RequestStopTransaction.
pub fn create_request_stop_transaction_response(msg_id: String, status: String) -> (r: String)
    ensures
        r@ == call_result_text(msg_id@, stop_transaction_payload(status@)),
{
    request_stop_transaction(msg_id.as_str(), status.as_str())
}

} // verus!
