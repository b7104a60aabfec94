//! The connection session: the protocol state machine that answers inbound
//! envelopes and timer firings with changes to the stores and with effects
//! for the transport to carry out.

use crate::clock::{rfc3339_text, utc_now};
use crate::components::{
    get_variable, set_variable_status, variable_reading, variable_write_status,
};
use crate::ids::{fresh_id, is_uuid_text};
use crate::requests::{
    boot_notification, boot_notification_text, heartbeat, heartbeat_text, status_notification_at,
    status_notification_text, transaction_event_at, transaction_event_text,
};
use crate::responses::{
    get_variables, get_variables_payload, request_start_transaction, request_stop_transaction,
    results_view, set_variables, set_variables_payload, start_transaction_payload,
    stop_transaction_payload, ResultView, VariableResult,
};
use crate::storage::{
    delete_transaction, evse_count, find_connector, find_message, get_last_sent_message,
    get_transaction, has_transaction, in_grid, initial_grid, queue_add, queue_pop, queue_size,
    set_connector_status, set_last_sent_message, set_message, set_transaction, with_status,
    Connector, ConnectorStatus, Storage,
};
use crate::wire::{
    call_error_text, call_result_text, decode, decodes_to, element_dump, element_text,
    json_accepts, json_element_dump, json_element_text, json_element_u64, json_length,
    json_member_dump, json_member_text, json_member_u64, length, member_dump, member_text,
    member_u64, same_text, wrap_call_error, DecodeError, Envelope, CALL, CALLERROR, CALLRESULT,
};
use vstd::prelude::*;

verus! {

/// Milliseconds between two runs of the delivery queue.
pub const QUEUE_FETCH_INTERVAL: u64 = 50;

/// Seconds after a transmission during which nothing else is transmitted.
pub const QUEUE_MESSAGE_EXPIRATION: u64 = 10;

/// The session's two timers.
#[derive(Clone, Copy, Debug, PartialEq, Eq, Structural)]
pub enum Timer {
    Heartbeat,
    QueueFetch,
}

/// A request to fire `timer` once, `delay_ms` milliseconds from now.
#[derive(Clone, Copy, Debug, PartialEq, Eq, Structural)]
pub struct TimerRequest {
    pub timer: Timer,
    pub delay_ms: u64,
}

/// What the transport has to do after a step of the session: texts to send
/// at once, in order, and timers to arm.
pub struct Effects {
    pub send: Vec<String>,
    pub timers: Vec<TimerRequest>,
}

/// The texts of a list of strings.
pub open spec fn texts(v: Seq<String>) -> Seq<Seq<char>> {
    v.map_values(|s: String| s@)
}

impl Effects {
    /// Nothing to do.
    pub fn none() -> (r: Effects)
        ensures
            r.send@.len() == 0,
            r.timers@.len() == 0,
    {
        Effects { send: Vec::new(), timers: Vec::new() }
    }

    /// One timer to arm.
    pub fn arm(timer: Timer, delay_ms: u64) -> (r: Effects)
        ensures
            r.send@.len() == 0,
            r.timers@ == seq![TimerRequest { timer, delay_ms }],
    {
        let mut timers: Vec<TimerRequest> = Vec::new();
        timers.push(TimerRequest { timer, delay_ms });
        Effects { send: Vec::new(), timers }
    }
}

/// Whether the delivery queue may transmit: something is pending and either
/// nothing was transmitted yet or the last transmission is older than the
/// expiration window.
pub open spec fn may_transmit(
    last_sent: (Option<Seq<char>>, Option<u64>),
    pending_len: nat,
    now: u64,
) -> bool {
    &&& pending_len > 0
    &&& (last_sent.0 is None || match last_sent.1 {
        Some(t) => t + QUEUE_MESSAGE_EXPIRATION < now,
        None => true,
    })
}

/// The fresh values that one step of the session may use: a transaction id,
/// three message ids and the current time as RFC 3339 text.
pub struct Fresh {
    pub transaction_id: String,
    pub first_id: String,
    pub second_id: String,
    pub third_id: String,
    pub timestamp: String,
}

/// Whether a remote start on `evse_id` is accepted: the EVSE exists and its
/// first connector is available.
pub open spec fn start_allowed(grid: Seq<Seq<Connector>>, evse_id: u64) -> bool {
    &&& evse_id >= 1
    &&& in_grid(grid, evse_id - 1, 0)
    &&& grid[evse_id - 1][0].status == ConnectorStatus::Available
}

/// The calls queued by an accepted remote start, in order: the connector
/// becomes occupied, the transaction started, the cable is plugged in.
pub open spec fn start_calls(f: Fresh, evse_id: u64, remote_start_id: u64) -> Seq<Seq<char>> {
    seq![
        status_notification_text(f.first_id@, f.timestamp@, evse_id as nat, 1, "Occupied"@),
        transaction_event_text(
            f.second_id@,
            f.transaction_id@,
            f.timestamp@,
            "Started"@,
            "RemoteStart"@,
            None,
            Some(remote_start_id),
            None,
        ),
        transaction_event_text(
            f.third_id@,
            f.transaction_id@,
            f.timestamp@,
            "Updated"@,
            "CablePluggedIn"@,
            Some("Charging"@),
            None,
            None,
        ),
    ]
}

/// The calls queued by an accepted remote stop, in order: the transaction
/// updated and ended, the connector available again.
pub open spec fn stop_calls(f: Fresh, transaction_id: Seq<char>, evse_id: u64) -> Seq<Seq<char>> {
    seq![
        transaction_event_text(
            f.first_id@,
            transaction_id,
            f.timestamp@,
            "Updated"@,
            "RemoteStop"@,
            None,
            None,
            None,
        ),
        transaction_event_text(
            f.second_id@,
            transaction_id,
            f.timestamp@,
            "Ended"@,
            "RemoteStop"@,
            None,
            None,
            Some("Remote"@),
        ),
        status_notification_text(f.third_id@, f.timestamp@, evse_id as nat, 1, "Available"@),
    ]
}

/// The EVSE of a transaction: the one named in the payload that started it,
/// or EVSE 1 when the payload names none.
pub open spec fn transaction_evse(payload: Seq<char>) -> u64 {
    match json_member_u64(payload, "evseId"@) {
        Some(n) => n,
        None => 1,
    }
}

/// The sent calls after recording three calls under the three message ids.
pub open spec fn record_three(
    m: Map<Seq<char>, Seq<char>>,
    f: Fresh,
    calls: Seq<Seq<char>>,
) -> Map<Seq<char>, Seq<char>> {
    m.insert(f.first_id@, calls[0]).insert(f.second_id@, calls[1]).insert(f.third_id@, calls[2])
}

/// The response status for a yes or a no.
pub open spec fn verdict(accepted: bool) -> Seq<char> {
    if accepted {
        "Accepted"@
    } else {
        "Rejected"@
    }
}

fn verdict_str(accepted: bool) -> (r: &'static str)
    ensures
        r@ == verdict(accepted),
{
    if accepted {
        "Accepted"
    } else {
        "Rejected"
    }
}

/// Whether `t` answers the call `id`: a call result or a call error that
/// carries the same message id.
pub open spec fn is_reply_to(t: Seq<char>, id: Seq<char>) -> bool {
    let result_head = "[3, \""@ + id + "\", "@;
    let error_head = "[4, \""@ + id + "\", "@;
    ||| t.len() >= result_head.len() && t.subrange(0, result_head.len() as int) == result_head
    ||| t.len() >= error_head.len() && t.subrange(0, error_head.len() as int) == error_head
}

/// A call result answers the call whose id it carries.
pub proof fn lemma_result_replies(id: Seq<char>, payload: Seq<char>)
    ensures
        is_reply_to(call_result_text(id, payload), id),
{
    let head = "[3, \""@ + id + "\", "@;
    assert(call_result_text(id, payload).subrange(0, head.len() as int) =~= head);
}

/// A call error answers the call whose id it carries.
pub proof fn lemma_error_replies(id: Seq<char>, code: Seq<char>, description: Seq<char>)
    ensures
        is_reply_to(call_error_text(id, code, description), id),
{
    let head = "[4, \""@ + id + "\", "@;
    assert(call_error_text(id, code, description).subrange(0, head.len() as int) =~= head);
}

/// The plain values of a list of (component, variable) names.
pub open spec fn names_view(v: Seq<(String, String)>) -> Seq<(Seq<char>, Seq<char>)> {
    v.map_values(|p: (String, String)| (p.0@, p.1@))
}

/// The results of writing the named variables.
pub open spec fn write_results(s: Seq<(Seq<char>, Seq<char>)>) -> Seq<ResultView> {
    s.map_values(
        |p: (Seq<char>, Seq<char>)| (variable_write_status(p.0, p.1), p.0, p.1, None::<Seq<char>>),
    )
}

/// The results of reading the named variables.
pub open spec fn read_results(s: Seq<(Seq<char>, Seq<char>)>) -> Seq<ResultView> {
    s.map_values(
        |p: (Seq<char>, Seq<char>)|
            (variable_reading(p.0, p.1).0, p.0, p.1, variable_reading(p.0, p.1).1),
    )
}

/// Answers SetVariables for the named variables, each looked up in the
/// variable table.
pub fn answer_set_variables(msg_id: &str, names: &Vec<(String, String)>) -> (r: String)
    ensures
        r@ == call_result_text(msg_id@, set_variables_payload(write_results(names_view(names@)))),
{
    let mut results: Vec<VariableResult> = Vec::new();
    let mut i: usize = 0;
    while i < names.len()
        invariant
            i <= names@.len(),
            results@.len() == i,
            results_view(results@) == write_results(names_view(names@.subrange(0, i as int))),
        decreases names@.len() - i,
    {
        let component = names[i].0.clone();
        let variable = names[i].1.clone();
        let status = set_variable_status(component.as_str(), variable.as_str());
        let ghost before = results@;
        results.push(
            VariableResult {
                attribute_status: String::from_str(status),
                component,
                variable,
                attribute_value: None,
            },
        );
        assert(results@.drop_last() == before);
        assert forall|j: int| 0 <= j < i + 1 implies #[trigger] results_view(results@)[j] == write_results(
            names_view(names@.subrange(0, i + 1)),
        )[j] by {
            if j < i {
                assert(results_view(before)[j] == write_results(names_view(names@.subrange(0, i as int)))[j]);
            }
        }
        assert(results_view(results@) =~= write_results(names_view(names@.subrange(0, i + 1))));
        i = i + 1;
    }
    assert(names@.subrange(0, names@.len() as int) =~= names@);
    set_variables(msg_id, &results)
}

/// Answers GetVariables for the named variables, each looked up in the
/// variable table.
pub fn answer_get_variables(msg_id: &str, names: &Vec<(String, String)>) -> (r: String)
    ensures
        r@ == call_result_text(msg_id@, get_variables_payload(read_results(names_view(names@)))),
{
    let mut results: Vec<VariableResult> = Vec::new();
    let mut i: usize = 0;
    while i < names.len()
        invariant
            i <= names@.len(),
            results@.len() == i,
            results_view(results@) == read_results(names_view(names@.subrange(0, i as int))),
        decreases names@.len() - i,
    {
        let component = names[i].0.clone();
        let variable = names[i].1.clone();
        let reading = get_variable(component.as_str(), variable.as_str());
        let value = match reading.1 {
            Some(v) => Some(String::from_str(v)),
            None => None,
        };
        let ghost before = results@;
        results.push(
            VariableResult {
                attribute_status: String::from_str(reading.0),
                component,
                variable,
                attribute_value: value,
            },
        );
        assert(results@.drop_last() == before);
        assert forall|j: int| 0 <= j < i + 1 implies #[trigger] results_view(results@)[j] == read_results(
            names_view(names@.subrange(0, i + 1)),
        )[j] by {
            if j < i {
                assert(results_view(before)[j] == read_results(names_view(names@.subrange(0, i as int)))[j]);
            }
        }
        assert(results_view(results@) =~= read_results(names_view(names@.subrange(0, i + 1))));
        i = i + 1;
    }
    assert(names@.subrange(0, names@.len() as int) =~= names@);
    get_variables(msg_id, &results)
}

/// The `name` member of the object under `field` of a JSON object.
pub open spec fn name_under(entry: Seq<char>, field: Seq<char>) -> Seq<char> {
    json_member_text(json_member_dump(entry, field), "name"@)
}

/// The (component, variable) names listed in the array under `key` of a
/// SetVariables or GetVariables payload.
pub open spec fn variable_names_of(payload: Seq<char>, key: Seq<char>) -> Seq<(Seq<char>, Seq<char>)> {
    let data = json_member_dump(payload, key);
    Seq::new(
        json_length(data),
        |i: int|
            (
                name_under(json_element_dump(data, i), "component"@),
                name_under(json_element_dump(data, i), "variable"@),
            ),
    )
}

/// Reads the (component, variable) names listed under `key` in a
/// SetVariables or GetVariables payload.
fn variable_names(payload: &str, key: &str) -> (r: Vec<(String, String)>)
    ensures
        names_view(r@) == variable_names_of(payload@, key@),
{
    let data = member_dump(payload, key);
    let n = length(data.as_str());
    let ghost all = variable_names_of(payload@, key@);
    let mut names: Vec<(String, String)> = Vec::new();
    let mut i: usize = 0;
    while i < n
        invariant
            n == all.len(),
            data@ == json_member_dump(payload@, key@),
            all == variable_names_of(payload@, key@),
            i <= n,
            names@.len() == i,
            forall|j: int| 0 <= j < i ==> (#[trigger] names_view(names@)[j]) == all[j],
        decreases n - i,
    {
        let entry = element_dump(data.as_str(), i);
        let component_object = member_dump(entry.as_str(), "component");
        let component = member_text(component_object.as_str(), "name");
        let variable_object = member_dump(entry.as_str(), "variable");
        let variable = member_text(variable_object.as_str(), "name");
        let ghost before = names@;
        names.push((component, variable));
        assert forall|j: int| 0 <= j < i + 1 implies (#[trigger] names_view(names@)[j]) == all[j] by {
            if j < i {
                assert(names@[j] == before[j]);
                assert(names_view(before)[j] == all[j]);
            }
        }
        i = i + 1;
    }
    assert(names_view(names@) =~= all);
    names
}

/// After a transmission at `sent_at`, the delivery queue transmits nothing
/// until more than the expiration window has passed, whatever is pending.
pub proof fn lemma_gate_closed_after_transmission(
    id: Seq<char>,
    sent_at: u64,
    now: u64,
    pending_len: nat,
)
    requires
        now <= sent_at + QUEUE_MESSAGE_EXPIRATION,
    ensures
        !may_transmit((Some(id), Some(sent_at)), pending_len, now),
{
}

/// Once more than the expiration window has passed since the last
/// transmission, the delivery queue transmits again if anything is pending:
/// progress is never blocked for good.
pub proof fn lemma_gate_opens_after_window(
    id: Seq<char>,
    sent_at: u64,
    now: u64,
    pending_len: nat,
)
    requires
        sent_at + QUEUE_MESSAGE_EXPIRATION < now,
        pending_len > 0,
    ensures
        may_transmit((Some(id), Some(sent_at)), pending_len, now),
{
}

/// The delivery queue keeps order over any run of queuing and transmitting.
/// Say that everything queued so far equals what was transmitted, in order,
/// followed by what is pending. `enqueue_call` pushes a call at the back of
/// the pending calls, and a transmission by `drain` or `on_timer` sends
/// `pending[0]` and leaves `pending.drop_first()`. Either step keeps the
/// equality, so calls go out exactly in the order they were queued.
pub proof fn lemma_fifo_run(
    queued: Seq<Seq<char>>,
    sent: Seq<Seq<char>>,
    pending: Seq<Seq<char>>,
    call: Seq<char>,
)
    requires
        queued == sent + pending,
    ensures
        queued.push(call) == sent + pending.push(call),
        pending.len() > 0 ==> queued == sent.push(pending[0]) + pending.drop_first(),
{
    assert(queued.push(call) =~= sent + pending.push(call));
    if pending.len() > 0 {
        assert(queued =~= sent.push(pending[0]) + pending.drop_first());
    }
}

/// A station session.
pub struct Client {
    pub storage: Storage,
    /// The heartbeat period in milliseconds; zero until a BootNotification is
    /// accepted.
    pub heartbeat_interval: u64,
}

/// What a remote start does to the session. When it is allowed, the
/// connector becomes occupied, the three start calls are recorded and queued
/// in order, and the request's payload is stored under the fresh transaction
/// id; otherwise nothing changes.
pub open spec fn start_outcome(
    before: Client,
    after: Client,
    fresh: Fresh,
    evse_id: u64,
    remote_start_id: u64,
    payload: Seq<char>,
) -> bool {
    if start_allowed(before.storage.grid(), evse_id) {
        &&& after.storage.grid() == with_status(
            before.storage.grid(),
            evse_id - 1,
            0,
            ConnectorStatus::Occupied,
        )
        &&& after.storage.pending() == before.storage.pending() + start_calls(
            fresh,
            evse_id,
            remote_start_id,
        )
        &&& after.storage.messages() == record_three(
            before.storage.messages(),
            fresh,
            start_calls(fresh, evse_id, remote_start_id),
        )
        &&& after.storage.transactions() == before.storage.transactions().insert(
            fresh.transaction_id@,
            payload,
        )
        &&& after.storage.last_sent() == before.storage.last_sent()
        &&& after.heartbeat_interval == before.heartbeat_interval
    } else {
        after == before
    }
}

/// What a remote stop does to the session. When the transaction is live, the
/// three stop calls are recorded and queued in order, the transaction is
/// forgotten and the first connector of its EVSE becomes available; otherwise
/// nothing changes.
pub open spec fn stop_outcome(
    before: Client,
    after: Client,
    fresh: Fresh,
    transaction_id: Seq<char>,
) -> bool {
    let evse_id = transaction_evse(before.storage.transactions()[transaction_id]);
    if before.storage.transactions().contains_key(transaction_id) {
        &&& after.storage.grid() == if evse_id >= 1 && in_grid(before.storage.grid(), evse_id - 1, 0) {
            with_status(before.storage.grid(), evse_id - 1, 0, ConnectorStatus::Available)
        } else {
            before.storage.grid()
        }
        &&& after.storage.pending() == before.storage.pending() + stop_calls(
            fresh,
            transaction_id,
            evse_id,
        )
        &&& after.storage.messages() == record_three(
            before.storage.messages(),
            fresh,
            stop_calls(fresh, transaction_id, evse_id),
        )
        &&& after.storage.transactions() == before.storage.transactions().remove(transaction_id)
        &&& after.storage.last_sent() == before.storage.last_sent()
        &&& after.heartbeat_interval == before.heartbeat_interval
    } else {
        after == before
    }
}

/// An inbound call whose payload has been read.
pub enum CallRequest {
    /// Variables to write, by (component, variable) name.
    SetVariables { names: Vec<(String, String)> },
    /// Variables to read, by (component, variable) name.
    GetVariables { names: Vec<(String, String)> },
    /// A remote start on an EVSE, with the request's payload as JSON text.
    RequestStartTransaction { remote_start_id: u64, evse_id: u64, payload: String },
    /// A remote stop of a transaction.
    RequestStopTransaction { transaction_id: String },
}

/// A read call as plain values.
pub enum RequestView {
    SetVariables { names: Seq<(Seq<char>, Seq<char>)> },
    GetVariables { names: Seq<(Seq<char>, Seq<char>)> },
    RequestStartTransaction { remote_start_id: u64, evse_id: u64, payload: Seq<char> },
    RequestStopTransaction { transaction_id: Seq<char> },
}

impl View for CallRequest {
    type V = RequestView;

    open spec fn view(&self) -> RequestView {
        match self {
            CallRequest::SetVariables { names } => RequestView::SetVariables {
                names: names_view(names@),
            },
            CallRequest::GetVariables { names } => RequestView::GetVariables {
                names: names_view(names@),
            },
            CallRequest::RequestStartTransaction { remote_start_id, evse_id, payload } => {
                RequestView::RequestStartTransaction {
                    remote_start_id: *remote_start_id,
                    evse_id: *evse_id,
                    payload: payload@,
                }
            },
            CallRequest::RequestStopTransaction { transaction_id } => {
                RequestView::RequestStopTransaction { transaction_id: transaction_id@ }
            },
        }
    }
}

/// Why an inbound call cannot be handled.
#[derive(Clone, Copy, Debug, PartialEq, Eq, Structural)]
pub enum RequestError {
    /// The session has no handler for the action.
    NotImplemented,
    /// A field that the action needs is missing or has the wrong type.
    FormationViolation,
}

/// The code of a call error on the wire.
pub open spec fn error_code(e: RequestError) -> Seq<char> {
    match e {
        RequestError::NotImplemented => "NotImplemented"@,
        RequestError::FormationViolation => "FormationViolation"@,
    }
}

/// The description of a call error on the wire.
pub open spec fn error_description(e: RequestError) -> Seq<char> {
    match e {
        RequestError::NotImplemented => "No handler for this action"@,
        RequestError::FormationViolation => "A required field is missing"@,
    }
}

impl RequestError {
    /// The code of the call error on the wire.
    pub fn code(&self) -> (r: &'static str)
        ensures
            r@ == error_code(*self),
    {
        match self {
            RequestError::NotImplemented => "NotImplemented",
            RequestError::FormationViolation => "FormationViolation",
        }
    }

    /// The description of the call error on the wire.
    pub fn description(&self) -> (r: &'static str)
        ensures
            r@ == error_description(*self),
    {
        match self {
            RequestError::NotImplemented => "No handler for this action",
            RequestError::FormationViolation => "A required field is missing",
        }
    }
}

/// Answers a call that cannot be handled with a call error.
pub fn answer_error(msg_id: &str, error: RequestError) -> (r: String)
    ensures
        r@ == call_error_text(msg_id@, error_code(error), error_description(error)),
{
    wrap_call_error(msg_id, error.code(), error.description())
}

/// The four handled actions have four different names.
proof fn lemma_action_names_differ()
    ensures
        "SetVariables"@ != "GetVariables"@,
        "SetVariables"@ != "RequestStartTransaction"@,
        "SetVariables"@ != "RequestStopTransaction"@,
        "GetVariables"@ != "RequestStartTransaction"@,
        "GetVariables"@ != "RequestStopTransaction"@,
        "RequestStartTransaction"@ != "RequestStopTransaction"@,
{
    reveal_strlit("SetVariables");
    reveal_strlit("GetVariables");
    reveal_strlit("RequestStartTransaction");
    reveal_strlit("RequestStopTransaction");
    assert("SetVariables"@[0] != "GetVariables"@[0]);
    assert("SetVariables"@.len() != "RequestStartTransaction"@.len());
    assert("SetVariables"@.len() != "RequestStopTransaction"@.len());
    assert("RequestStartTransaction"@.len() != "RequestStopTransaction"@.len());
}

/// What reading the payload of a call gives for its action. An action that
/// the session does not handle is refused whatever the payload; a remote
/// start needs a numeric remote start id and EVSE id.
pub open spec fn request_of(action: Seq<char>, payload: Seq<char>) -> Result<RequestView, RequestError> {
    if action == "SetVariables"@ {
        Ok(RequestView::SetVariables { names: variable_names_of(payload, "setVariableData"@) })
    } else if action == "GetVariables"@ {
        Ok(RequestView::GetVariables { names: variable_names_of(payload, "getVariableData"@) })
    } else if action == "RequestStartTransaction"@ {
        match (json_member_u64(payload, "remoteStartId"@), json_member_u64(payload, "evseId"@)) {
            (Some(remote_start_id), Some(evse_id)) => Ok(
                RequestView::RequestStartTransaction { remote_start_id, evse_id, payload },
            ),
            _ => Err(RequestError::FormationViolation),
        }
    } else if action == "RequestStopTransaction"@ {
        Ok(
            RequestView::RequestStopTransaction {
                transaction_id: json_member_text(payload, "transactionId"@),
            },
        )
    } else {
        Err(RequestError::NotImplemented)
    }
}

/// The plain values of a read result.
pub open spec fn read_view(r: Result<CallRequest, RequestError>) -> Result<RequestView, RequestError> {
    match r {
        Ok(req) => Ok(req@),
        Err(e) => Err(e),
    }
}

/// Reads the payload of an inbound call, given as JSON text, for its action.
pub fn read_request(action: &str, payload: &str) -> (r: Result<CallRequest, RequestError>)
    ensures
        read_view(r) == request_of(action@, payload@),
{
    proof {
        lemma_action_names_differ();
    }
    if same_text(action, "SetVariables") {
        Ok(CallRequest::SetVariables { names: variable_names(payload, "setVariableData") })
    } else if same_text(action, "GetVariables") {
        Ok(CallRequest::GetVariables { names: variable_names(payload, "getVariableData") })
    } else if same_text(action, "RequestStartTransaction") {
        let remote_start_id = member_u64(payload, "remoteStartId");
        let evse_id = member_u64(payload, "evseId");
        match (remote_start_id, evse_id) {
            (Some(remote_start_id), Some(evse_id)) => Ok(
                CallRequest::RequestStartTransaction {
                    remote_start_id,
                    evse_id,
                    payload: String::from_str(payload),
                },
            ),
            _ => Err(RequestError::FormationViolation),
        }
    } else if same_text(action, "RequestStopTransaction") {
        Ok(
            CallRequest::RequestStopTransaction {
                transaction_id: member_text(payload, "transactionId"),
            },
        )
    } else {
        Err(RequestError::NotImplemented)
    }
}

/// Why a step of the session fails; nothing changes when one does.
#[derive(Clone, Copy, Debug, PartialEq, Eq, Structural)]
pub enum SessionError {
    /// The inbound text is not JSON.
    Malformed,
    /// The inbound text's first element is not one of the three type ids.
    UnknownType,
    /// The clock could not be read.
    ClockUnavailable,
    /// A response lacks a field that the session needs.
    MissingField,
}

/// A step that succeeded with nothing for the transport to do.
pub open spec fn no_effects(r: Result<Effects, SessionError>) -> bool {
    r matches Ok(e) && e.send@.len() == 0 && e.timers@.len() == 0
}

/// Whether the four ids of a set of fresh values are hyphenated version 4
/// UUIDs.
pub open spec fn fresh_ids(f: Fresh) -> bool {
    &&& is_uuid_text(f.transaction_id@)
    &&& is_uuid_text(f.first_id@)
    &&& is_uuid_text(f.second_id@)
    &&& is_uuid_text(f.third_id@)
}

/// What the response to a BootNotification does to the session. A refusal
/// changes nothing. An acceptance with an interval whose milliseconds fit in
/// a u64 makes the station's connector available, records and queues a
/// StatusNotification and arms the heartbeat with that period. An acceptance
/// without such an interval is a missing field, and changes nothing.
pub open spec fn boot_handled(
    before: Client,
    after: Client,
    fresh: Fresh,
    status: Seq<char>,
    interval: Option<u64>,
    r: Result<Effects, SessionError>,
) -> bool {
    if status != "Accepted"@ {
        after == before && no_effects(r)
    } else {
        match interval {
            Some(n) if n * 1000 <= u64::MAX => {
                &&& r matches Ok(e)
                &&& e.send@.len() == 0
                &&& e.timers@ == seq![
                    TimerRequest { timer: Timer::Heartbeat, delay_ms: (n * 1000) as u64 },
                ]
                &&& after.heartbeat_interval == n * 1000
                &&& after.storage.grid() == if in_grid(before.storage.grid(), 0, 0) {
                    with_status(before.storage.grid(), 0, 0, ConnectorStatus::Available)
                } else {
                    before.storage.grid()
                }
                &&& after.storage.pending() == before.storage.pending().push(
                    status_notification_text(fresh.first_id@, fresh.timestamp@, 1, 1, "Available"@),
                )
                &&& after.storage.messages() == before.storage.messages().insert(
                    fresh.first_id@,
                    status_notification_text(fresh.first_id@, fresh.timestamp@, 1, 1, "Available"@),
                )
                &&& after.storage.transactions() == before.storage.transactions()
                &&& after.storage.last_sent() == before.storage.last_sent()
            },
            _ => r == Err::<Effects, SessionError>(SessionError::MissingField) && after == before,
        }
    }
}

/// What a read call does to the session, and its reply.
pub open spec fn handled(
    before: Client,
    after: Client,
    fresh: Fresh,
    msg_id: Seq<char>,
    request: RequestView,
    reply: Seq<char>,
) -> bool {
    match request {
        RequestView::SetVariables { names } => {
            &&& reply == call_result_text(msg_id, set_variables_payload(write_results(names)))
            &&& after == before
        },
        RequestView::GetVariables { names } => {
            &&& reply == call_result_text(msg_id, get_variables_payload(read_results(names)))
            &&& after == before
        },
        RequestView::RequestStartTransaction { remote_start_id, evse_id, payload } => {
            &&& reply == call_result_text(
                msg_id,
                start_transaction_payload(
                    remote_start_id,
                    verdict(start_allowed(before.storage.grid(), evse_id)),
                ),
            )
            &&& start_outcome(before, after, fresh, evse_id, remote_start_id, payload)
        },
        RequestView::RequestStopTransaction { transaction_id } => {
            &&& reply == call_result_text(
                msg_id,
                stop_transaction_payload(
                    verdict(before.storage.transactions().contains_key(transaction_id)),
                ),
            )
            &&& stop_outcome(before, after, fresh, transaction_id)
        },
    }
}

/// What an inbound call does to the session, and its reply: the read call's
/// effect, or a call error and no change when it cannot be read.
pub open spec fn call_handled(
    before: Client,
    after: Client,
    fresh: Fresh,
    msg_id: Seq<char>,
    action: Seq<char>,
    payload: Seq<char>,
    reply: Seq<char>,
) -> bool {
    match request_of(action, payload) {
        Ok(request) => handled(before, after, fresh, msg_id, request, reply),
        Err(e) => reply == call_error_text(msg_id, error_code(e), error_description(e)) && after
            == before,
    }
}

/// What a call result does to the session: when it answers a recorded
/// BootNotification, what `boot_handled` says for the status and interval of
/// its payload; otherwise nothing.
pub open spec fn result_handled(
    before: Client,
    after: Client,
    fresh: Fresh,
    msg_id: Seq<char>,
    payload: Seq<char>,
    r: Result<Effects, SessionError>,
) -> bool {
    if before.storage.messages().contains_key(msg_id) && json_element_text(
        before.storage.messages()[msg_id],
        2,
    ) == "BootNotification"@ {
        boot_handled(
            before,
            after,
            fresh,
            json_member_text(payload, "status"@),
            json_member_u64(payload, "interval"@),
            r,
        )
    } else {
        after == before && no_effects(r)
    }
}

/// What an inbound envelope does to the session. A call gets exactly one
/// reply, sent at once and carrying its message id; a call result goes by
/// `result_handled`; a call error changes nothing.
pub open spec fn envelope_handled(
    before: Client,
    after: Client,
    fresh: Fresh,
    envelope: Envelope,
    r: Result<Effects, SessionError>,
) -> bool {
    match envelope {
        Envelope::Call { message_id, action, payload } => {
            &&& r matches Ok(e)
            &&& e.send@.len() == 1
            &&& e.timers@.len() == 0
            &&& is_reply_to(e.send@[0]@, message_id@)
            &&& call_handled(before, after, fresh, message_id@, action@, payload@, e.send@[0]@)
        },
        Envelope::CallResult { message_id, payload } => result_handled(
            before,
            after,
            fresh,
            message_id@,
            payload@,
            r,
        ),
        Envelope::CallError { .. } => after == before && no_effects(r),
    }
}

/// Whether a type id is one of the three envelope kinds.
pub open spec fn is_type_id(t: Option<u64>) -> bool {
    t == Some(CALL) || t == Some(CALLRESULT) || t == Some(CALLERROR)
}

impl Client {
    /// A session for a grid of connectors, all inoperative, with empty stores.
    pub fn new(evse_count: usize, connectors_per_evse: usize) -> (r: Client)
        ensures
            r.storage.grid() == initial_grid(
                evse_count as nat,
                connectors_per_evse as nat,
            ),
            r.storage.messages() == Map::<Seq<char>, Seq<char>>::empty(),
            r.storage.transactions() == Map::<Seq<char>, Seq<char>>::empty(),
            r.storage.pending() == Seq::<Seq<char>>::empty(),
            r.storage.last_sent() == (None::<Seq<char>>, None::<u64>),
            r.heartbeat_interval == 0,
    {
        Client { storage: Storage::new(evse_count, connectors_per_evse), heartbeat_interval: 0 }
    }

    /// Records a call under its message id and puts it at the back of the
    /// queue.
    pub fn enqueue_call(&mut self, msg_id: String, text: String)
        ensures
            final(self).storage.messages() == old(self).storage.messages().insert(msg_id@, text@),
            final(self).storage.pending() == old(self).storage.pending().push(text@),
            final(self).storage.grid() == old(self).storage.grid(),
            final(self).storage.transactions() == old(self).storage.transactions(),
            final(self).storage.last_sent() == old(self).storage.last_sent(),
            final(self).heartbeat_interval == old(self).heartbeat_interval,
    {
        set_message(&mut self.storage, msg_id, text.clone());
        queue_add(&mut self.storage, text);
    }

    /// Opens the session: queues a BootNotification under `msg_id` and starts
    /// the delivery queue.
    pub fn open_with(&mut self, msg_id: String, serial_number: &str, model: &str, vendor_name: &str) -> (r:
        Effects)
        ensures
            final(self).storage.messages() == old(self).storage.messages().insert(
                msg_id@,
                boot_notification_text(msg_id@, serial_number@, model@, vendor_name@),
            ),
            final(self).storage.pending() == old(self).storage.pending().push(
                boot_notification_text(msg_id@, serial_number@, model@, vendor_name@),
            ),
            final(self).storage.grid() == old(self).storage.grid(),
            final(self).storage.transactions() == old(self).storage.transactions(),
            final(self).storage.last_sent() == old(self).storage.last_sent(),
            final(self).heartbeat_interval == old(self).heartbeat_interval,
            r.send@.len() == 0,
            r.timers@ == seq![TimerRequest { timer: Timer::QueueFetch, delay_ms: QUEUE_FETCH_INTERVAL }],
    {
        let text = boot_notification(msg_id.as_str(), serial_number, model, vendor_name);
        self.enqueue_call(msg_id, text);
        Effects::arm(Timer::QueueFetch, QUEUE_FETCH_INTERVAL)
    }

    /// Runs the delivery queue once at time `now`, in seconds: when it may
    /// transmit, it takes the oldest pending call out, records the
    /// transmission and returns the call to send.
    pub fn drain(&mut self, now: u64) -> (r: Option<String>)
        ensures
            may_transmit(old(self).storage.last_sent(), old(self).storage.pending().len(), now) ==> {
                &&& r is Some
                &&& r->0@ == old(self).storage.pending()[0]
                &&& final(self).storage.pending() == old(self).storage.pending().drop_first()
                &&& final(self).storage.last_sent().0 is Some
                &&& final(self).storage.last_sent().1 == Some(now)
                &&& final(self).storage.grid() == old(self).storage.grid()
                &&& final(self).storage.messages() == old(self).storage.messages()
                &&& final(self).storage.transactions() == old(self).storage.transactions()
                &&& final(self).heartbeat_interval == old(self).heartbeat_interval
            },
            !may_transmit(old(self).storage.last_sent(), old(self).storage.pending().len(), now) ==> r
                is None && *final(self) == *old(self),
    {
        let last = get_last_sent_message(&self.storage);
        let expired = match last.timestamp {
            Some(t) => t < now && now - t > QUEUE_MESSAGE_EXPIRATION,
            None => true,
        };
        if queue_size(&self.storage) > 0 && (last.id.is_none() || expired) {
            let msg = queue_pop(&mut self.storage);
            let id = element_text(msg.as_str(), 1);
            set_last_sent_message(&mut self.storage, id, now);
            Some(msg)
        } else {
            None
        }
    }

    /// Answers RequestStartTransaction. When the EVSE's first connector is
    /// available, the connector becomes occupied, three calls are queued and
    /// the transaction is stored under the fresh transaction id with the
    /// request's payload; otherwise nothing changes.
    pub fn start_transaction(
        &mut self,
        msg_id: &str,
        remote_start_id: u64,
        evse_id: u64,
        payload: String,
        fresh: &Fresh,
    ) -> (r: String)
        ensures
            r@ == call_result_text(
                msg_id@,
                start_transaction_payload(
                    remote_start_id,
                    verdict(start_allowed(old(self).storage.grid(), evse_id)),
                ),
            ),
            start_outcome(*old(self), *final(self), *fresh, evse_id, remote_start_id, payload@),
    {
        let mut allowed = false;
        if evse_id >= 1 && evse_id - 1 < evse_count(&self.storage) as u64 {
            match find_connector(&self.storage, (evse_id - 1) as usize, 0) {
                Some(c) => {
                    allowed = c.status == ConnectorStatus::Available;
                },
                None => {},
            }
        }
        let response = request_start_transaction(msg_id, remote_start_id, verdict_str(allowed));
        if !allowed {
            return response;
        }
        let ghost calls = start_calls(*fresh, evse_id, remote_start_id);
        let ts = fresh.timestamp.as_str();
        let tx = fresh.transaction_id.as_str();
        let occupied = ConnectorStatus::Occupied;
        let t1 = status_notification_at(fresh.first_id.as_str(), ts, evse_id, 1, occupied.as_str());
        self.enqueue_call(fresh.first_id.clone(), t1);
        set_connector_status(&mut self.storage, (evse_id - 1) as usize, 0, occupied);
        let t2 = transaction_event_at(
            fresh.second_id.as_str(),
            tx,
            ts,
            "Started",
            "RemoteStart",
            None,
            Some(remote_start_id),
            None,
        );
        self.enqueue_call(fresh.second_id.clone(), t2);
        set_transaction(&mut self.storage, fresh.transaction_id.clone(), payload);
        let t3 = transaction_event_at(
            fresh.third_id.as_str(),
            tx,
            ts,
            "Updated",
            "CablePluggedIn",
            Some("Charging"),
            None,
            None,
        );
        self.enqueue_call(fresh.third_id.clone(), t3);
        assert(self.storage.pending() =~= old(self).storage.pending() + calls);
        response
    }

    /// Answers RequestStopTransaction. When the transaction is live, two
    /// TransactionEvent calls are queued, the transaction is forgotten, the
    /// first connector of its EVSE becomes available and a StatusNotification
    /// is queued; otherwise nothing changes.
    pub fn stop_transaction(&mut self, msg_id: &str, transaction_id: &str, fresh: &Fresh) -> (r:
        String)
        ensures
            r@ == call_result_text(
                msg_id@,
                stop_transaction_payload(
                    verdict(old(self).storage.transactions().contains_key(transaction_id@)),
                ),
            ),
            stop_outcome(*old(self), *final(self), *fresh, transaction_id@),
    {
        let known = has_transaction(&self.storage, transaction_id);
        let response = request_stop_transaction(msg_id, verdict_str(known));
        if !known {
            return response;
        }
        let payload = get_transaction(&self.storage, transaction_id);
        let evse_id = match member_u64(payload.as_str(), "evseId") {
            Some(n) => n,
            None => 1,
        };
        let ghost calls = stop_calls(*fresh, transaction_id@, evse_id);
        let ts = fresh.timestamp.as_str();
        let t1 = transaction_event_at(
            fresh.first_id.as_str(),
            transaction_id,
            ts,
            "Updated",
            "RemoteStop",
            None,
            None,
            None,
        );
        self.enqueue_call(fresh.first_id.clone(), t1);
        let t2 = transaction_event_at(
            fresh.second_id.as_str(),
            transaction_id,
            ts,
            "Ended",
            "RemoteStop",
            None,
            None,
            Some("Remote"),
        );
        self.enqueue_call(fresh.second_id.clone(), t2);
        delete_transaction(&mut self.storage, transaction_id);
        let available = ConnectorStatus::Available;
        if evse_id >= 1 && evse_id - 1 < evse_count(&self.storage) as u64 {
            if find_connector(&self.storage, (evse_id - 1) as usize, 0).is_some() {
                set_connector_status(&mut self.storage, (evse_id - 1) as usize, 0, available);
            }
        }
        let t3 = status_notification_at(fresh.third_id.as_str(), ts, evse_id, 1, available.as_str());
        self.enqueue_call(fresh.third_id.clone(), t3);
        assert(self.storage.pending() =~= old(self).storage.pending() + calls);
        response
    }

    /// Handles the response to an accepted or refused BootNotification.
    pub fn boot_result(&mut self, status: &str, interval: Option<u64>, fresh: &Fresh) -> (r: Result<
        Effects,
        SessionError,
    >)
        ensures
            boot_handled(*old(self), *final(self), *fresh, status@, interval, r),
    {
        if !same_text(status, "Accepted") {
            return Ok(Effects::none());
        }
        let n = match interval {
            Some(n) => {
                if n <= u64::MAX / 1000 {
                    n
                } else {
                    return Err(SessionError::MissingField);
                }
            },
            None => return Err(SessionError::MissingField),
        };
        let available = ConnectorStatus::Available;
        let text = status_notification_at(
            fresh.first_id.as_str(),
            fresh.timestamp.as_str(),
            1,
            1,
            available.as_str(),
        );
        self.enqueue_call(fresh.first_id.clone(), text);
        if find_connector(&self.storage, 0, 0).is_some() {
            set_connector_status(&mut self.storage, 0, 0, available);
        }
        self.heartbeat_interval = n * 1000;
        Ok(Effects::arm(Timer::Heartbeat, n * 1000))
    }

    /// Handles a call whose payload has been read, and returns its call
    /// result.
    pub fn handle_request(&mut self, msg_id: &str, request: CallRequest, fresh: &Fresh) -> (r:
        String)
        ensures
            handled(*old(self), *final(self), *fresh, msg_id@, request@, r@),
            is_reply_to(r@, msg_id@),
    {
        match request {
            CallRequest::SetVariables { names } => {
                let r = answer_set_variables(msg_id, &names);
                proof {
                    lemma_result_replies(msg_id@, set_variables_payload(write_results(names_view(names@))));
                }
                r
            },
            CallRequest::GetVariables { names } => {
                let r = answer_get_variables(msg_id, &names);
                proof {
                    lemma_result_replies(msg_id@, get_variables_payload(read_results(names_view(names@))));
                }
                r
            },
            CallRequest::RequestStartTransaction { remote_start_id, evse_id, payload } => {
                let ghost allowed = start_allowed(self.storage.grid(), evse_id);
                let r = self.start_transaction(msg_id, remote_start_id, evse_id, payload, fresh);
                proof {
                    lemma_result_replies(msg_id@, start_transaction_payload(remote_start_id, verdict(allowed)));
                }
                r
            },
            CallRequest::RequestStopTransaction { transaction_id } => {
                let ghost known = self.storage.transactions().contains_key(transaction_id@);
                let r = self.stop_transaction(msg_id, transaction_id.as_str(), fresh);
                proof {
                    lemma_result_replies(msg_id@, stop_transaction_payload(verdict(known)));
                }
                r
            },
        }
    }

    /// Answers an inbound call, whose payload is JSON text, with exactly one
    /// call result or call error that carries its message id.
    pub fn answer_call(&mut self, msg_id: &str, action: &str, payload: &str, fresh: &Fresh) -> (r:
        String)
        ensures
            call_handled(*old(self), *final(self), *fresh, msg_id@, action@, payload@, r@),
            is_reply_to(r@, msg_id@),
    {
        match read_request(action, payload) {
            Ok(request) => self.handle_request(msg_id, request, fresh),
            Err(e) => {
                let r = answer_error(msg_id, e);
                proof {
                    lemma_error_replies(msg_id@, error_code(e), error_description(e));
                }
                r
            },
        }
    }

    /// Handles a call result whose payload is JSON text. One whose message id
    /// was never sent, or that answers anything but a BootNotification,
    /// changes nothing.
    pub fn on_call_result(&mut self, msg_id: &str, payload: &str, fresh: &Fresh) -> (r: Result<
        Effects,
        SessionError,
    >)
        ensures
            result_handled(*old(self), *final(self), *fresh, msg_id@, payload@, r),
    {
        let request = match find_message(&self.storage, msg_id) {
            Some(t) => t,
            None => return Ok(Effects::none()),
        };
        let action = element_text(request.as_str(), 2);
        if same_text(action.as_str(), "BootNotification") {
            let status = member_text(payload, "status");
            let interval = member_u64(payload, "interval");
            self.boot_result(status.as_str(), interval, fresh)
        } else {
            Ok(Effects::none())
        }
    }

    /// Handles one inbound envelope with the given fresh values.
    pub fn on_envelope(&mut self, envelope: Envelope, fresh: &Fresh) -> (r: Result<
        Effects,
        SessionError,
    >)
        ensures
            envelope_handled(*old(self), *final(self), *fresh, envelope, r),
    {
        match envelope {
            Envelope::Call { message_id, action, payload } => {
                let reply = self.answer_call(
                    message_id.as_str(),
                    action.as_str(),
                    payload.as_str(),
                    fresh,
                );
                let mut r = Effects::none();
                r.send.push(reply);
                Ok(r)
            },
            Envelope::CallResult { message_id, payload } => {
                self.on_call_result(message_id.as_str(), payload.as_str(), fresh)
            },
            Envelope::CallError { .. } => Ok(Effects::none()),
        }
    }

    /// Draws the fresh values for one step: four new ids and the current time,
    /// or nothing when the clock cannot be read.
    pub fn fresh_values() -> (r: Option<Fresh>)
        ensures
            r matches Some(f) ==> fresh_ids(f) && exists|seconds: int|
                f.timestamp@ == #[trigger] rfc3339_text(seconds),
    {
        let now = match utc_now() {
            Some(now) => now,
            None => return None,
        };
        Some(
            Fresh {
                transaction_id: fresh_id(),
                first_id: fresh_id(),
                second_id: fresh_id(),
                third_id: fresh_id(),
                timestamp: now.text,
            },
        )
    }

    /// Opens the session: queues a BootNotification under a fresh message id
    /// and starts the delivery queue.
    pub fn on_open(&mut self, serial_number: &str, model: &str, vendor_name: &str) -> (r: Effects)
        ensures
            exists|id: Seq<char>|
                #![trigger boot_notification_text(id, serial_number@, model@, vendor_name@)]
                {
                    &&& is_uuid_text(id)
                    &&& final(self).storage.pending() == old(self).storage.pending().push(
                        boot_notification_text(id, serial_number@, model@, vendor_name@),
                    )
                    &&& final(self).storage.messages() == old(self).storage.messages().insert(
                        id,
                        boot_notification_text(id, serial_number@, model@, vendor_name@),
                    )
                },
            final(self).storage.grid() == old(self).storage.grid(),
            final(self).storage.transactions() == old(self).storage.transactions(),
            final(self).storage.last_sent() == old(self).storage.last_sent(),
            final(self).heartbeat_interval == old(self).heartbeat_interval,
            r.send@.len() == 0,
            r.timers@ == seq![TimerRequest { timer: Timer::QueueFetch, delay_ms: QUEUE_FETCH_INTERVAL }],
    {
        let id = fresh_id();
        let ghost v = id@;
        let r = self.open_with(id, serial_number, model, vendor_name);
        assert(is_uuid_text(v));
        r
    }

    /// Handles one inbound text: decodes it and handles the envelope with
    /// fresh values. A text that is no envelope, or a step for which the clock
    /// cannot be read, changes nothing.
    pub fn on_message(&mut self, text: &str) -> (r: Result<Effects, SessionError>)
        ensures
            !json_accepts(text@) ==> r == Err::<Effects, SessionError>(SessionError::Malformed),
            json_accepts(text@) && !is_type_id(json_element_u64(text@, 0)) ==> r == Err::<
                Effects,
                SessionError,
            >(SessionError::UnknownType),
            r == Err::<Effects, SessionError>(SessionError::Malformed) || r == Err::<
                Effects,
                SessionError,
            >(SessionError::UnknownType) || r == Err::<Effects, SessionError>(
                SessionError::ClockUnavailable,
            ) ==> *final(self) == *old(self),
            json_accepts(text@) && is_type_id(json_element_u64(text@, 0)) ==> r == Err::<
                Effects,
                SessionError,
            >(SessionError::ClockUnavailable) || exists|envelope: Envelope, fresh: Fresh|
                {
                    &&& decodes_to(text@, Ok(envelope))
                    &&& fresh_ids(fresh)
                    &&& #[trigger] envelope_handled(*old(self), *final(self), fresh, envelope, r)
                },
    {
        let decoded = decode(text);
        let envelope = match decoded {
            Ok(e) => e,
            Err(DecodeError::Malformed) => return Err(SessionError::Malformed),
            Err(DecodeError::UnknownType) => return Err(SessionError::UnknownType),
        };
        let fresh = match Self::fresh_values() {
            Some(f) => f,
            None => return Err(SessionError::ClockUnavailable),
        };
        let ghost env = envelope;
        let r = self.on_envelope(envelope, &fresh);
        assert(decodes_to(text@, Ok(env)));
        assert(envelope_handled(*old(self), *self, fresh, env, r));
        r
    }

    /// Handles a timer firing now. A heartbeat takes a fresh message id; a
    /// queue fetch reads the clock, and changes nothing when it cannot.
    pub fn on_timeout(&mut self, timer: Timer) -> (r: Result<Effects, SessionError>)
        ensures
            timer == Timer::Heartbeat ==> {
                &&& r matches Ok(e)
                &&& e.send@.len() == 0
                &&& e.timers@ == seq![
                    TimerRequest { timer: Timer::Heartbeat, delay_ms: old(self).heartbeat_interval },
                ]
                &&& exists|id: Seq<char>|
                    {
                        &&& is_uuid_text(id)
                        &&& final(self).storage.pending() == old(self).storage.pending().push(
                            #[trigger] heartbeat_text(id),
                        )
                        &&& final(self).storage.messages() == old(self).storage.messages().insert(
                            id,
                            heartbeat_text(id),
                        )
                    }
                &&& final(self).storage.grid() == old(self).storage.grid()
                &&& final(self).storage.transactions() == old(self).storage.transactions()
                &&& final(self).storage.last_sent() == old(self).storage.last_sent()
                &&& final(self).heartbeat_interval == old(self).heartbeat_interval
            },
            timer == Timer::QueueFetch ==> match r {
                Err(e) => e == SessionError::ClockUnavailable && *final(self) == *old(self),
                Ok(e) => {
                    &&& e.timers@ == seq![
                        TimerRequest { timer: Timer::QueueFetch, delay_ms: QUEUE_FETCH_INTERVAL },
                    ]
                    &&& e.send@.len() <= 1
                    &&& e.send@.len() == 1 ==> {
                        &&& texts(e.send@) == seq![old(self).storage.pending()[0]]
                        &&& final(self).storage.pending() == old(self).storage.pending().drop_first()
                        &&& final(self).storage.last_sent().0 is Some
                        &&& final(self).storage.grid() == old(self).storage.grid()
                        &&& final(self).storage.messages() == old(self).storage.messages()
                        &&& final(self).storage.transactions() == old(self).storage.transactions()
                        &&& final(self).heartbeat_interval == old(self).heartbeat_interval
                    }
                    &&& e.send@.len() == 0 ==> *final(self) == *old(self)
                    &&& old(self).storage.last_sent().0 is None && old(self).storage.pending().len()
                        > 0 ==> e.send@.len() == 1
                },
            },
    {
        match timer {
            Timer::Heartbeat => {
                let id = fresh_id();
                let ghost v = id@;
                let r = self.on_timer(timer, id, 0);
                assert(is_uuid_text(v));
                Ok(r)
            },
            Timer::QueueFetch => {
                let now = match utc_now() {
                    Some(now) => now,
                    None => return Err(SessionError::ClockUnavailable),
                };
                Ok(self.on_timer(timer, String::new(), now.seconds))
            },
        }
    }

    /// Handles a timer firing at time `now`, in seconds. A heartbeat queues a
    /// Heartbeat call under `msg_id` and re-arms itself; a queue fetch runs the
    /// delivery queue and re-arms itself.
    pub fn on_timer(&mut self, timer: Timer, msg_id: String, now: u64) -> (r: Effects)
        ensures
            timer == Timer::Heartbeat ==> {
                &&& final(self).storage.messages() == old(self).storage.messages().insert(
                    msg_id@,
                    heartbeat_text(msg_id@),
                )
                &&& final(self).storage.pending() == old(self).storage.pending().push(heartbeat_text(msg_id@))
                &&& final(self).storage.grid() == old(self).storage.grid()
                &&& final(self).storage.transactions() == old(self).storage.transactions()
                &&& final(self).storage.last_sent() == old(self).storage.last_sent()
                &&& final(self).heartbeat_interval == old(self).heartbeat_interval
                &&& r.send@.len() == 0
                &&& r.timers@ == seq![
                    TimerRequest { timer: Timer::Heartbeat, delay_ms: old(self).heartbeat_interval },
                ]
            },
            timer == Timer::QueueFetch ==> {
                &&& r.send@.len() <= 1
                &&& r.timers@ == seq![
                    TimerRequest { timer: Timer::QueueFetch, delay_ms: QUEUE_FETCH_INTERVAL },
                ]
                &&& may_transmit(old(self).storage.last_sent(), old(self).storage.pending().len(), now)
                    ==> {
                    &&& r.send@.len() == 1
                    &&& texts(r.send@) == seq![old(self).storage.pending()[0]]
                    &&& final(self).storage.pending() == old(self).storage.pending().drop_first()
                    &&& final(self).storage.last_sent().0 is Some
                    &&& final(self).storage.last_sent().1 == Some(now)
                    &&& final(self).heartbeat_interval == old(self).heartbeat_interval
                    &&& final(self).storage.grid() == old(self).storage.grid()
                    &&& final(self).storage.messages() == old(self).storage.messages()
                    &&& final(self).storage.transactions() == old(self).storage.transactions()
                }
                &&& !may_transmit(old(self).storage.last_sent(), old(self).storage.pending().len(), now)
                    ==> r.send@.len() == 0 && *final(self) == *old(self)
            },
    {
        match timer {
            Timer::Heartbeat => {
                let text = heartbeat(msg_id.as_str());
                self.enqueue_call(msg_id, text);
                Effects::arm(Timer::Heartbeat, self.heartbeat_interval)
            },
            Timer::QueueFetch => {
                let mut r = Effects::arm(Timer::QueueFetch, QUEUE_FETCH_INTERVAL);
                match self.drain(now) {
                    Some(msg) => {
                        r.send.push(msg);
                        assert(texts(r.send@) =~= seq![old(self).storage.pending()[0]]);
                    },
                    None => {},
                }
                r
            },
        }
    }
}

} // verus!
