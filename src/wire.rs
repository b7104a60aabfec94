//! The OCPP wire envelope: `[2, id, action, payload]` for a call,
//! `[3, id, payload]` for a call result, `[4, id, code, description, details]`
//! for a call error.

use vstd::prelude::*;

verus! {

/// Text of an outbound call.
pub open spec fn call_text(id: Seq<char>, action: Seq<char>, payload: Seq<char>) -> Seq<char> {
    "[2, \""@ + id + "\", \""@ + action + "\", "@ + payload + "]"@
}

/// Text of a call result answering the call `id`.
pub open spec fn call_result_text(id: Seq<char>, payload: Seq<char>) -> Seq<char> {
    "[3, \""@ + id + "\", "@ + payload + "]"@
}

/// Text of a call error answering the call `id`; the code and the description
/// are JSON string literals, the details an empty object.
pub open spec fn call_error_text(id: Seq<char>, code: Seq<char>, description: Seq<char>) -> Seq<char> {
    "[4, \""@ + id + "\", "@ + json_quoted(code) + ", "@ + json_quoted(description) + ", {}]"@
}

/// The lowercase hexadecimal digit of `d`, for `d` below 16.
pub open spec fn hex_digit(d: int) -> char {
    if d < 10 {
        digit_char(d as nat)
    } else if d == 10 {
        'a'
    } else if d == 11 {
        'b'
    } else if d == 12 {
        'c'
    } else if d == 13 {
        'd'
    } else if d == 14 {
        'e'
    } else {
        'f'
    }
}

/// How json writes one character inside a string literal: the quote, the
/// backslash and the control characters are escaped, every other character
/// stands as it is.
pub open spec fn escaped_char(c: char) -> Seq<char> {
    if c == '"' {
        seq!['\\', '"']
    } else if c == '\\' {
        seq!['\\', '\\']
    } else if c == '\u{8}' {
        seq!['\\', 'b']
    } else if c == '\t' {
        seq!['\\', 't']
    } else if c == '\n' {
        seq!['\\', 'n']
    } else if c == '\u{c}' {
        seq!['\\', 'f']
    } else if c == '\r' {
        seq!['\\', 'r']
    } else if (c as u32) < 0x20 {
        seq!['\\', 'u', '0', '0', hex_digit((c as u32) as int / 16), hex_digit((c as u32) as int % 16)]
    } else {
        seq![c]
    }
}

/// The characters of `s`, each written as json writes it inside a string.
pub open spec fn escaped(s: Seq<char>) -> Seq<char>
    decreases s.len(),
{
    if s.len() == 0 {
        Seq::empty()
    } else {
        escaped(s.drop_last()) + escaped_char(s.last())
    }
}

/// The JSON string literal that encodes `s`, quotes and escapes included.
pub open spec fn json_quoted(s: Seq<char>) -> Seq<char> {
    seq!['"'] + escaped(s) + seq!['"']
}

/// Whether `text` is one JSON document that json's parser accepts; the
/// parser also refuses arrays and objects nested deeper than 512 levels.
pub uninterp spec fn json_accepts(text: Seq<char>) -> bool;

/// Relies on json::stringify of a string slice, which writes it through
/// json's generator: a quote, each character escaped by the table in
/// codegen.rs (`\"`, `\\`, `\b`, `\t`, `\n`, `\f`, `\r`, `\u00xx` for the other
/// control characters, anything else unchanged), and a closing quote.
#[verifier::external_body]
pub(crate) fn quote_json(s: &str) -> (r: String)
    ensures
        r@ == json_quoted(s@),
{
    json::stringify(s)
}

/// Relies on json::parse: whether it accepts a text depends on the text alone.
#[verifier::external_body]
pub(crate) fn json_valid(text: &str) -> (r: bool)
    ensures
        r == json_accepts(text@),
{
    json::parse(text).is_ok()
}

/// What json's `Display` writes for element `i` of the array that `text`
/// holds (a string as it stands, any other value as JSON text, `null` where
/// there is no such element), or nothing when `text` is not JSON.
pub uninterp spec fn json_element_text(text: Seq<char>, i: int) -> Seq<char>;

/// Element `i` of the array that `text` holds, when it is a whole number that
/// fits in a u64.
pub uninterp spec fn json_element_u64(text: Seq<char>, i: int) -> Option<u64>;

/// Element `i` of the array that `text` holds, as compact JSON text (`null`
/// where there is no such element), or nothing when `text` is not JSON.
pub uninterp spec fn json_element_dump(text: Seq<char>, i: int) -> Seq<char>;

/// What json's `Display` writes for the member `key` of the object that
/// `text` holds (`null` where there is no such member), or nothing when
/// `text` is not JSON.
pub uninterp spec fn json_member_text(text: Seq<char>, key: Seq<char>) -> Seq<char>;

/// The member `key` of the object that `text` holds, when it is a whole
/// number that fits in a u64.
pub uninterp spec fn json_member_u64(text: Seq<char>, key: Seq<char>) -> Option<u64>;

/// The member `key` of the object that `text` holds, as compact JSON text
/// (`null` where there is no such member), or nothing when `text` is not JSON.
pub uninterp spec fn json_member_dump(text: Seq<char>, key: Seq<char>) -> Seq<char>;

/// How many elements or members the array or object that `text` holds has;
/// zero for any other value and when `text` is not JSON.
pub uninterp spec fn json_length(text: Seq<char>) -> nat;

/// Relies on json::parse, indexing a JsonValue by position (null past the end
/// or on a non-array) and JsonValue's Display.
#[verifier::external_body]
pub(crate) fn element_text(text: &str, i: usize) -> (r: String)
    ensures
        r@ == json_element_text(text@, i as int),
{
    match json::parse(text) {
        Ok(v) => v[i].to_string(),
        Err(_) => String::new(),
    }
}

/// Relies on json::parse, indexing by position and JsonValue::as_u64.
#[verifier::external_body]
pub(crate) fn element_u64(text: &str, i: usize) -> (r: Option<u64>)
    ensures
        r == json_element_u64(text@, i as int),
{
    match json::parse(text) {
        Ok(v) => v[i].as_u64(),
        Err(_) => None,
    }
}

/// Relies on json::parse, indexing by position and JsonValue::dump.
#[verifier::external_body]
pub(crate) fn element_dump(text: &str, i: usize) -> (r: String)
    ensures
        r@ == json_element_dump(text@, i as int),
{
    match json::parse(text) {
        Ok(v) => v[i].dump(),
        Err(_) => String::new(),
    }
}

/// Relies on json::parse, indexing by key (null when missing or on a
/// non-object) and JsonValue's Display.
#[verifier::external_body]
pub(crate) fn member_text(text: &str, key: &str) -> (r: String)
    ensures
        r@ == json_member_text(text@, key@),
{
    match json::parse(text) {
        Ok(v) => v[key].to_string(),
        Err(_) => String::new(),
    }
}

/// Relies on json::parse, indexing by key and JsonValue::as_u64.
#[verifier::external_body]
pub(crate) fn member_u64(text: &str, key: &str) -> (r: Option<u64>)
    ensures
        r == json_member_u64(text@, key@),
{
    match json::parse(text) {
        Ok(v) => v[key].as_u64(),
        Err(_) => None,
    }
}

/// Relies on json::parse, indexing by key and JsonValue::dump.
#[verifier::external_body]
pub(crate) fn member_dump(text: &str, key: &str) -> (r: String)
    ensures
        r@ == json_member_dump(text@, key@),
{
    match json::parse(text) {
        Ok(v) => v[key].dump(),
        Err(_) => String::new(),
    }
}

/// Relies on json::parse and JsonValue::len.
#[verifier::external_body]
pub(crate) fn length(text: &str) -> (r: usize)
    ensures
        r as nat == json_length(text@),
{
    match json::parse(text) {
        Ok(v) => v.len(),
        Err(_) => 0,
    }
}

/// The character of a decimal digit.
pub open spec fn digit_char(d: nat) -> char {
    if d == 0 { '0' }
    else if d == 1 { '1' }
    else if d == 2 { '2' }
    else if d == 3 { '3' }
    else if d == 4 { '4' }
    else if d == 5 { '5' }
    else if d == 6 { '6' }
    else if d == 7 { '7' }
    else if d == 8 { '8' }
    else { '9' }
}

/// The decimal numeral of `n`, as JSON writes a non-negative integer.
pub open spec fn decimal(n: nat) -> Seq<char>
    decreases n,
{
    if n < 10 {
        seq![digit_char(n)]
    } else {
        decimal(n / 10).push(digit_char(n % 10))
    }
}

fn digit_str(d: u64) -> (r: &'static str)
    requires
        d < 10,
    ensures
        r@ == seq![digit_char(d as nat)],
{
    proof {
        reveal_strlit("0");
        reveal_strlit("1");
        reveal_strlit("2");
        reveal_strlit("3");
        reveal_strlit("4");
        reveal_strlit("5");
        reveal_strlit("6");
        reveal_strlit("7");
        reveal_strlit("8");
        reveal_strlit("9");
    }
    if d == 0 { "0" }
    else if d == 1 { "1" }
    else if d == 2 { "2" }
    else if d == 3 { "3" }
    else if d == 4 { "4" }
    else if d == 5 { "5" }
    else if d == 6 { "6" }
    else if d == 7 { "7" }
    else if d == 8 { "8" }
    else { "9" }
}

/// Writes `n` in decimal.
pub fn decimal_text(n: u64) -> (r: String)
    ensures
        r@ == decimal(n as nat),
    decreases n,
{
    if n < 10 {
        String::from_str(digit_str(n))
    } else {
        let mut r = decimal_text(n / 10);
        r.append(digit_str(n % 10));
        r
    }
}

/// Whether two texts are the same, character for character.
pub fn same_text(a: &str, b: &str) -> (r: bool)
    ensures
        r == (a@ == b@),
{
    let n = a.unicode_len();
    if n != b.unicode_len() {
        return false;
    }
    let mut i: usize = 0;
    while i < n
        invariant
            n == a@.len(),
            n == b@.len(),
            i <= n,
            forall|j: int| 0 <= j < i ==> a@[j] == b@[j],
        decreases n - i,
    {
        if a.get_char(i) != b.get_char(i) {
            return false;
        }
        i = i + 1;
    }
    assert(a@ =~= b@);
    true
}

/// Builds the text of a call.
pub fn wrap_call(msg_id: &str, action: &str, payload: &str) -> (r: String)
    ensures
        r@ == call_text(msg_id@, action@, payload@),
{
    let mut r = String::from_str("[2, \"");
    r.append(msg_id);
    r.append("\", \"");
    r.append(action);
    r.append("\", ");
    r.append(payload);
    r.append("]");
    r
}

/// Builds the text of a call result.
pub fn wrap_call_result(msg_id: &str, payload: &str) -> (r: String)
    ensures
        r@ == call_result_text(msg_id@, payload@),
{
    let mut r = String::from_str("[3, \"");
    r.append(msg_id);
    r.append("\", ");
    r.append(payload);
    r.append("]");
    r
}

/// Builds the text of a call error with empty details.
pub fn wrap_call_error(msg_id: &str, code: &str, description: &str) -> (r: String)
    ensures
        r@ == call_error_text(msg_id@, code@, description@),
{
    let mut r = String::from_str("[4, \"");
    r.append(msg_id);
    r.append("\", ");
    let c = quote_json(code);
    r.append(c.as_str());
    r.append(", ");
    let d = quote_json(description);
    r.append(d.as_str());
    r.append(", {}]");
    r
}

/// An inbound envelope, decoded by position. Payloads and error details are
/// kept as compact JSON text.
pub enum Envelope {
    Call { message_id: String, action: String, payload: String },
    CallResult { message_id: String, payload: String },
    CallError {
        message_id: String,
        error_code: String,
        error_description: String,
        error_details: String,
    },
}

/// Why an inbound text is not an envelope.
#[derive(Clone, Copy, Debug, PartialEq, Eq, Structural)]
pub enum DecodeError {
    /// The text is not JSON.
    Malformed,
    /// The first element is not one of the three type ids.
    UnknownType,
}

pub const CALL: u64 = 2;

pub const CALLRESULT: u64 = 3;

pub const CALLERROR: u64 = 4;

/// What decoding `text` gives: the envelope that its elements make, read by
/// position according to the type id in front.
pub open spec fn decodes_to(text: Seq<char>, r: Result<Envelope, DecodeError>) -> bool {
    if !json_accepts(text) {
        r == Err::<Envelope, DecodeError>(DecodeError::Malformed)
    } else if json_element_u64(text, 0) == Some(CALL) {
        &&& r matches Ok(Envelope::Call { message_id, action, payload })
        &&& message_id@ == json_element_text(text, 1)
        &&& action@ == json_element_text(text, 2)
        &&& payload@ == json_element_dump(text, 3)
    } else if json_element_u64(text, 0) == Some(CALLRESULT) {
        &&& r matches Ok(Envelope::CallResult { message_id, payload })
        &&& message_id@ == json_element_text(text, 1)
        &&& payload@ == json_element_dump(text, 2)
    } else if json_element_u64(text, 0) == Some(CALLERROR) {
        &&& r matches Ok(
            Envelope::CallError { message_id, error_code, error_description, error_details },
        )
        &&& message_id@ == json_element_text(text, 1)
        &&& error_code@ == json_element_text(text, 2)
        &&& error_description@ == json_element_text(text, 3)
        &&& error_details@ == json_element_text(text, 4)
    } else {
        r == Err::<Envelope, DecodeError>(DecodeError::UnknownType)
    }
}

/// Decodes an inbound text into an envelope.
pub fn decode(text: &str) -> (r: Result<Envelope, DecodeError>)
    ensures
        decodes_to(text@, r),
{
    if !json_valid(text) {
        return Err(DecodeError::Malformed);
    }
    let message_id = element_text(text, 1);
    match element_u64(text, 0) {
        Some(t) => {
            if t == CALL {
                let action = element_text(text, 2);
                let payload = element_dump(text, 3);
                Ok(Envelope::Call { message_id, action, payload })
            } else if t == CALLRESULT {
                let payload = element_dump(text, 2);
                Ok(Envelope::CallResult { message_id, payload })
            } else if t == CALLERROR {
                Ok(Envelope::CallError {
                    message_id,
                    error_code: element_text(text, 2),
                    error_description: element_text(text, 3),
                    error_details: element_text(text, 4),
                })
            } else {
                Err(DecodeError::UnknownType)
            }
        },
        None => Err(DecodeError::UnknownType),
    }
}

} // verus!
