//! Call results that the station sends back for the calls it answers.

use crate::wire::{
    call_result_text, decimal, decimal_text, json_quoted, quote_json, wrap_call_result,
};
use vstd::prelude::*;

verus! {

/// The outcome for one variable of a SetVariables or GetVariables call.
pub struct VariableResult {
    pub attribute_status: String,
    pub component: String,
    pub variable: String,
    pub attribute_value: Option<String>,
}

/// A result as plain values: attribute status, component name, variable name
/// and the attribute value when there is one.
pub type ResultView = (Seq<char>, Seq<char>, Seq<char>, Option<Seq<char>>);

/// The plain values of a result.
pub open spec fn result_view(r: VariableResult) -> ResultView {
    (
        r.attribute_status@,
        r.component@,
        r.variable@,
        match r.attribute_value {
            Some(v) => Some(v@),
            None => None,
        },
    )
}

/// The plain values of a list of results.
pub open spec fn results_view(s: Seq<VariableResult>) -> Seq<ResultView> {
    s.map_values(|r: VariableResult| result_view(r))
}

/// One result as a JSON object.
pub open spec fn variable_result_json(r: ResultView) -> Seq<char> {
    "{\"attributeStatus\":"@ + json_quoted(r.0) + ",\"component\":{\"name\":"@ + json_quoted(r.1)
        + "},\"variable\":{\"name\":"@ + json_quoted(r.2) + "}"@ + match r.3 {
        Some(v) => ",\"attributeValue\":"@ + json_quoted(v),
        None => Seq::empty(),
    } + "}"@
}

/// The results as the elements of a JSON array, comma separated.
pub open spec fn variable_results_json(s: Seq<ResultView>) -> Seq<char>
    decreases s.len(),
{
    if s.len() == 0 {
        Seq::empty()
    } else if s.len() == 1 {
        variable_result_json(s[0])
    } else {
        variable_results_json(s.drop_last()) + ","@ + variable_result_json(s.last())
    }
}

/// Payload that answers SetVariables.
pub open spec fn set_variables_payload(s: Seq<ResultView>) -> Seq<char> {
    "{\"setVariableResult\":["@ + variable_results_json(s) + "]}"@
}

/// Payload that answers GetVariables.
pub open spec fn get_variables_payload(s: Seq<ResultView>) -> Seq<char> {
    "{\"getVariableResult\":["@ + variable_results_json(s) + "]}"@
}

/// Payload that answers RequestStartTransaction.
pub open spec fn start_transaction_payload(remote_start_id: u64, status: Seq<char>) -> Seq<char> {
    "{\"remoteStartId\":"@ + decimal(remote_start_id as nat) + ",\"status\":"@ + json_quoted(status)
        + "}"@
}

/// Payload that answers RequestStopTransaction.
pub open spec fn stop_transaction_payload(status: Seq<char>) -> Seq<char> {
    "{\"status\":"@ + json_quoted(status) + "}"@
}

fn result_json(r: &VariableResult) -> (t: String)
    ensures
        t@ == variable_result_json(result_view(*r)),
{
    let mut t = String::from_str("{\"attributeStatus\":");
    let q = quote_json(r.attribute_status.as_str());
    t.append(q.as_str());
    t.append(",\"component\":{\"name\":");
    let q = quote_json(r.component.as_str());
    t.append(q.as_str());
    t.append("},\"variable\":{\"name\":");
    let q = quote_json(r.variable.as_str());
    t.append(q.as_str());
    t.append("}");
    match &r.attribute_value {
        Some(v) => {
            t.append(",\"attributeValue\":");
            let q = quote_json(v.as_str());
            t.append(q.as_str());
        },
        None => {},
    }
    t.append("}");
    t
}

fn results_json(results: &Vec<VariableResult>) -> (t: String)
    ensures
        t@ == variable_results_json(results_view(results@)),
{
    let mut t = String::new();
    let mut i: usize = 0;
    while i < results.len()
        invariant
            i <= results@.len(),
            t@ == variable_results_json(results_view(results@.subrange(0, i as int))),
        decreases results@.len() - i,
    {
        let e = result_json(&results[i]);
        assert(results_view(results@.subrange(0, i + 1)).drop_last() =~= results_view(
            results@.subrange(0, i as int),
        ));
        if i > 0 {
            t.append(",");
        }
        t.append(e.as_str());
        i = i + 1;
    }
    assert(results@.subrange(0, results@.len() as int) =~= results@);
    t
}

/// Answers SetVariables with one result per variable.
pub fn set_variables(msg_id: &str, results: &Vec<VariableResult>) -> (r: String)
    ensures
        r@ == call_result_text(msg_id@, set_variables_payload(results_view(results@))),
{
    let mut p = String::from_str("{\"setVariableResult\":[");
    let t = results_json(results);
    p.append(t.as_str());
    p.append("]}");
    wrap_call_result(msg_id, p.as_str())
}

/// Answers GetVariables with one result per variable.
pub fn get_variables(msg_id: &str, results: &Vec<VariableResult>) -> (r: String)
    ensures
        r@ == call_result_text(msg_id@, get_variables_payload(results_view(results@))),
{
    let mut p = String::from_str("{\"getVariableResult\":[");
    let t = results_json(results);
    p.append(t.as_str());
    p.append("]}");
    wrap_call_result(msg_id, p.as_str())
}

/// Answers RequestStartTransaction.
pub fn request_start_transaction(msg_id: &str, remote_start_id: u64, status: &str) -> (r: String)
    ensures
        r@ == call_result_text(msg_id@, start_transaction_payload(remote_start_id, status@)),
{
    let mut p = String::from_str("{\"remoteStartId\":");
    let d = decimal_text(remote_start_id);
    p.append(d.as_str());
    p.append(",\"status\":");
    let q = quote_json(status);
    p.append(q.as_str());
    p.append("}");
    wrap_call_result(msg_id, p.as_str())
}

/// Answers RequestStopTransaction.
pub fn request_stop_transaction(msg_id: &str, status: &str) -> (r: String)
    ensures
        r@ == call_result_text(msg_id@, stop_transaction_payload(status@)),
{
    let mut p = String::from_str("{\"status\":");
    let q = quote_json(status);
    p.append(q.as_str());
    p.append("}");
    wrap_call_result(msg_id, p.as_str())
}

} // verus!
