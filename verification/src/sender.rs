//! The sender's part that computes: it checks a number, builds the envelope
//! and its datagram, and words what went wrong. Opening the local endpoint,
//! reading the clock and transmitting are the caller's.

use vstd::prelude::*;
use vstd::string::*;
use crate::envelope::{encode, encoded, Envelope, EnvelopeModel};
use crate::json::{
    json_model, new_object, no_entries, object_insert, object_value, u64_value, Json, JsonNumber,
};
use crate::text::{decimal, joined, port_text};

verus! {

/// The largest number that may be sent.
pub const MAX_NUMBER: u32 = 1_000_000;

/// Why a send did not happen.
#[derive(Debug)]
pub enum SendError {
    /// The number is above `MAX_NUMBER`.
    Validation,
    /// The local endpoint could not be opened; the cause in words.
    Bind(String),
    /// The envelope could not be written; the cause in words.
    Encode(String),
    /// The datagram could not be transmitted; the cause in words.
    Transport(String),
}

/// The kind of a number message.
pub open spec fn number_kind() -> Seq<char> {
    "number"@
}

/// The payload of a number message: an object whose one member `value` is
/// the number.
pub open spec fn number_model(value: u32) -> Json {
    Json::Object(no_entries().insert("value"@, Json::Number(JsonNumber::Unsigned(value as u64))))
}

/// The envelope of a number message made at `now_ms`.
pub open spec fn number_envelope_model(value: u32, now_ms: u64) -> EnvelopeModel {
    EnvelopeModel { kind: number_kind(), payload: number_model(value), timestamp: now_ms }
}

/// What a send error says to the caller.
pub open spec fn error_message(e: SendError) -> Seq<char> {
    match e {
        SendError::Validation => "Number must be between 0-1000000"@,
        SendError::Bind(cause) => "Failed to create socket: "@ + cause@,
        SendError::Encode(cause) => "Failed to serialize: "@ + cause@,
        SendError::Transport(cause) => "Failed to send: "@ + cause@,
    }
}

/// The address of the loopback endpoint on a port, as text.
pub open spec fn loopback_text(port: u16) -> Seq<char> {
    "127.0.0.1:"@ + decimal(port as nat)
}

/// Where a datagram leaves from and where it goes.
#[derive(Debug, Clone, PartialEq, Eq)]
pub struct Route {
    /// The address to open the local endpoint on.
    pub local: String,
    /// The address to transmit to.
    pub target: String,
}

/// What the caller is told at the end of a send.
pub open spec fn send_reply_text(outcome: Result<(), SendError>) -> Result<Seq<char>, Seq<char>> {
    match outcome {
        Ok(_) => Ok("Sent"@),
        Err(e) => Err(error_message(e)),
    }
}

/// The kind of a number message is not empty.
pub proof fn lemma_number_kind_is_not_empty()
    ensures
        number_kind().len() > 0,
{
    reveal_strlit("number");
}

impl SendError {
    /// The error in words: what failed, and the cause where there is one.
    pub fn message(&self) -> (r: String)
        ensures
            r@ == error_message(*self),
    {
        match self {
            SendError::Validation => String::from_str("Number must be between 0-1000000"),
            SendError::Bind(cause) => joined("Failed to create socket: ", cause.as_str()),
            SendError::Encode(cause) => joined("Failed to serialize: ", cause.as_str()),
            SendError::Transport(cause) => joined("Failed to send: ", cause.as_str()),
        }
    }
}

/// The loopback address on `port`, to bind or to send to; port 0 asks the
/// system for an ephemeral port.
pub fn loopback_address(port: u16) -> (r: String)
    ensures
        r@ == loopback_text(port),
{
    let digits = port_text(port);
    joined("127.0.0.1:", digits.as_str())
}

/// The route of a send to `port`: from an ephemeral loopback port, which
/// port 0 asks the system for, to the loopback endpoint on `port`.
pub fn route(port: u16) -> (r: Route)
    ensures
        r.local@ == loopback_text(0),
        r.target@ == loopback_text(port),
{
    Route { local: loopback_address(0), target: loopback_address(port) }
}

/// The route of a number message, given only for a number in range: an
/// invalid number leads to no network action.
pub fn number_route(value: u32, port: u16) -> (r: Result<Route, SendError>)
    ensures
        r is Ok <==> value <= MAX_NUMBER,
        r is Ok ==> r->Ok_0.local@ == loopback_text(0) && r->Ok_0.target@ == loopback_text(port),
        r is Err ==> r->Err_0 is Validation,
{
    match check_number(value) {
        Err(e) => Err(e),
        Ok(_) => Ok(route(port)),
    }
}

/// Accepts the numbers from 0 to `MAX_NUMBER`, both included.
pub fn check_number(value: u32) -> (r: Result<(), SendError>)
    ensures
        r is Ok <==> value <= MAX_NUMBER,
        r is Err ==> r->Err_0 is Validation,
{
    if value > MAX_NUMBER {
        Err(SendError::Validation)
    } else {
        Ok(())
    }
}

/// The payload of a number message.
pub fn number_payload(value: u32) -> (r: serde_json::Value)
    ensures
        json_model(r) == number_model(value),
{
    let mut object = new_object();
    object_insert(&mut object, String::from_str("value"), u64_value(value as u64));
    object_value(object)
}

/// The envelope of a message of any kind, stamped with the sender's time.
pub fn message_envelope(kind: String, payload: serde_json::Value, now_ms: u64) -> (r: Envelope)
    ensures
        r@ == (EnvelopeModel { kind: kind@, payload: json_model(payload), timestamp: now_ms }),
{
    Envelope { kind, payload, timestamp: now_ms }
}

/// The envelope of a number message, or the validation error where the
/// number is out of range.
pub fn number_envelope(value: u32, now_ms: u64) -> (r: Result<Envelope, SendError>)
    ensures
        r is Ok <==> value <= MAX_NUMBER,
        r is Ok ==> r->Ok_0@ == number_envelope_model(value, now_ms),
        r is Err ==> r->Err_0 is Validation,
{
    match check_number(value) {
        Err(e) => Err(e),
        Ok(_) => Ok(message_envelope(String::from_str("number"), number_payload(value), now_ms)),
    }
}

/// The datagram of an envelope, or the encode error with its cause.
pub fn datagram(envelope: &Envelope) -> (r: Result<Vec<u8>, SendError>)
    ensures
        match r {
            Ok(bytes) => encoded(envelope@) == Some(bytes@),
            Err(e) => encoded(envelope@) is None && e is Encode,
        },
{
    match encode(envelope) {
        Ok(bytes) => Ok(bytes),
        Err(e) => Err(SendError::Encode(e.cause)),
    }
}

/// The datagram of a message of any kind.
pub fn message_datagram(kind: String, payload: serde_json::Value, now_ms: u64) -> (r: Result<
    Vec<u8>,
    SendError,
>)
    ensures
        match r {
            Ok(bytes) => encoded(
                EnvelopeModel { kind: kind@, payload: json_model(payload), timestamp: now_ms },
            ) == Some(bytes@),
            Err(e) => e is Encode && encoded(
                EnvelopeModel { kind: kind@, payload: json_model(payload), timestamp: now_ms },
            ) is None,
        },
{
    let envelope = message_envelope(kind, payload, now_ms);
    datagram(&envelope)
}

/// The datagram of a number message: the validation error where the number
/// is out of range, without anything else being done; else the wire form of
/// the envelope with kind `number`.
pub fn number_datagram(value: u32, now_ms: u64) -> (r: Result<Vec<u8>, SendError>)
    ensures
        value > MAX_NUMBER ==> r is Err && r->Err_0 is Validation,
        value <= MAX_NUMBER ==> match r {
            Ok(bytes) => encoded(number_envelope_model(value, now_ms)) == Some(bytes@),
            Err(e) => e is Encode && encoded(number_envelope_model(value, now_ms)) is None,
        },
{
    match number_envelope(value, now_ms) {
        Err(e) => Err(e),
        Ok(envelope) => datagram(&envelope),
    }
}

/// What the caller is told after a datagram went out.
pub fn sent_ack() -> (r: String)
    ensures
        r@ == "Sent"@,
{
    String::from_str("Sent")
}

/// What the caller is told at the end of a send: the acknowledgment, or the
/// error in words.
pub fn send_reply(outcome: Result<(), SendError>) -> (r: Result<String, String>)
    ensures
        match r {
            Ok(text) => send_reply_text(outcome) == Ok::<Seq<char>, Seq<char>>(text@),
            Err(text) => send_reply_text(outcome) == Err::<Seq<char>, Seq<char>>(text@),
        },
{
    match outcome {
        Ok(_) => Ok(sent_ack()),
        Err(e) => Err(e.message()),
    }
}

} // verus!
