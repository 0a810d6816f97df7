//! The envelope and its wire form: a JSON object with the members `type`,
//! `data` and `timestamp`, as UTF-8 text.

use vstd::prelude::*;
use vstd::string::*;
use vstd::utf8::*;
use crate::json::{
    as_text, as_u64, error_text, json_model, member, new_object, no_entries, object_insert,
    object_value, parse_text, parsed_text, print_value, printed_text, text_value, u64_value,
    utf8_text, value_member, value_text, value_u64, Json, JsonNumber,
};

verus! {

/// A message as it travels: what kind it is, what it carries, and when the
/// sender made it (milliseconds since the epoch).
#[derive(Debug, Clone, PartialEq, Eq)]
pub struct Envelope {
    pub kind: String,
    pub payload: serde_json::Value,
    pub timestamp: u64,
}

/// The mathematical value of an `Envelope`.
pub struct EnvelopeModel {
    pub kind: Seq<char>,
    pub payload: Json,
    pub timestamp: u64,
}

impl View for Envelope {
    type V = EnvelopeModel;

    open spec fn view(&self) -> EnvelopeModel {
        EnvelopeModel {
            kind: self.kind@,
            payload: json_model(self.payload),
            timestamp: self.timestamp,
        }
    }
}

/// Why an envelope could not be written.
#[derive(Debug)]
pub struct EncodeError {
    /// What the JSON writer said.
    pub cause: String,
}

/// Why a datagram is no envelope.
#[derive(Debug, Clone, Copy, PartialEq, Eq)]
pub enum DecodeError {
    /// The bytes are not UTF-8 text.
    NotText,
    /// The text is not JSON.
    NotJson,
    /// No member `type`, or it is no string.
    MissingKind,
    /// No member `data`.
    MissingPayload,
    /// No member `timestamp`, or it is no non-negative integer of 64 bits.
    MissingTimestamp,
}

/// The name of the member that holds the kind.
pub open spec fn kind_key() -> Seq<char> {
    "type"@
}

/// The name of the member that holds the payload.
pub open spec fn payload_key() -> Seq<char> {
    "data"@
}

/// The name of the member that holds the timestamp.
pub open spec fn timestamp_key() -> Seq<char> {
    "timestamp"@
}

/// The JSON object that stands for an envelope on the wire.
pub open spec fn wire_model(e: EnvelopeModel) -> Json {
    Json::Object(
        no_entries().insert(kind_key(), Json::Text(e.kind)).insert(payload_key(), e.payload).insert(
            timestamp_key(),
            Json::Number(JsonNumber::Unsigned(e.timestamp)),
        ),
    )
}

/// The envelope that a JSON value stands for. The members are looked at in
/// the order kind, payload, timestamp; other members are ignored.
pub open spec fn envelope_of(v: Json) -> Result<EnvelopeModel, DecodeError> {
    match member(v, kind_key()) {
        None => Err(DecodeError::MissingKind),
        Some(k) => match as_text(k) {
            None => Err(DecodeError::MissingKind),
            Some(kind) => match member(v, payload_key()) {
                None => Err(DecodeError::MissingPayload),
                Some(payload) => match member(v, timestamp_key()) {
                    None => Err(DecodeError::MissingTimestamp),
                    Some(t) => match as_u64(t) {
                        None => Err(DecodeError::MissingTimestamp),
                        Some(timestamp) => Ok(EnvelopeModel { kind, payload, timestamp }),
                    },
                },
            },
        },
    }
}

/// The bytes of an envelope's wire form; `None` where the JSON writer cannot
/// express the payload.
pub open spec fn encoded(e: EnvelopeModel) -> Option<Seq<u8>> {
    match printed_text(wire_model(e)) {
        Some(text) => Some(encode_utf8(text)),
        None => None,
    }
}

/// The envelope that a text holds, or why it holds none.
pub open spec fn decoded_text(text: Seq<char>) -> Result<EnvelopeModel, DecodeError> {
    match parsed_text(text) {
        None => Err(DecodeError::NotJson),
        Some(v) => envelope_of(v),
    }
}

/// The envelope that a datagram's bytes hold, or why they hold none.
pub open spec fn decoded(bytes: Seq<u8>) -> Result<EnvelopeModel, DecodeError> {
    if !valid_utf8(bytes) {
        Err(DecodeError::NotText)
    } else {
        decoded_text(decode_utf8(bytes))
    }
}

/// A JSON value that the JSON reader gives back from the text that the JSON
/// writer made of it.
pub open spec fn reads_back(v: Json) -> bool {
    printed_text(v) is Some && parsed_text(printed_text(v).unwrap()) == Some(v)
}

/// The three member names differ from each other.
pub proof fn lemma_keys_differ()
    ensures
        kind_key() != payload_key(),
        kind_key() != timestamp_key(),
        payload_key() != timestamp_key(),
{
    reveal_strlit("type");
    reveal_strlit("data");
    reveal_strlit("timestamp");
    assert("type"@[0] == 't');
    assert("data"@[0] == 'd');
    assert("type"@.len() == 4);
    assert("data"@.len() == 4);
    assert("timestamp"@.len() == 9);
}

/// Reading the wire object of an envelope gives that envelope back: kind,
/// payload and timestamp, each exactly.
pub proof fn lemma_wire_model_round_trip(e: EnvelopeModel)
    ensures
        envelope_of(wire_model(e)) == Ok::<EnvelopeModel, DecodeError>(e),
{
    lemma_keys_differ();
}

/// Decoding the bytes that encoding made gives the envelope back, kind,
/// payload and timestamp exactly, for every envelope whose wire object the
/// JSON reader gives back from the JSON writer's text.
pub proof fn lemma_decode_encode(e: EnvelopeModel)
    requires
        reads_back(wire_model(e)),
    ensures
        encoded(e) is Some,
        decoded(encoded(e).unwrap()) == Ok::<EnvelopeModel, DecodeError>(e),
{
    let text = printed_text(wire_model(e)).unwrap();
    encode_utf8_valid_utf8(text);
    encode_utf8_decode_utf8(text);
    lemma_wire_model_round_trip(e);
}

impl Envelope {
    /// The JSON object that stands for this envelope on the wire.
    pub fn to_value(&self) -> (r: serde_json::Value)
        ensures
            json_model(r) == wire_model(self@),
    {
        let mut object = new_object();
        object_insert(&mut object, String::from_str("type"), text_value(self.kind.clone()));
        object_insert(&mut object, String::from_str("data"), self.payload.clone());
        object_insert(&mut object, String::from_str("timestamp"), u64_value(self.timestamp));
        object_value(object)
    }

    /// Reads an envelope out of a JSON value: `Ok` exactly where the value is
    /// an object with a string `type`, any `data` and a `timestamp` that is a
    /// non-negative integer of 64 bits.
    pub fn from_value(v: &serde_json::Value) -> (r: Result<Envelope, DecodeError>)
        ensures
            match r {
                Ok(e) => envelope_of(json_model(*v)) == Ok::<EnvelopeModel, DecodeError>(e@),
                Err(x) => envelope_of(json_model(*v)) == Err::<EnvelopeModel, DecodeError>(x),
            },
    {
        let kind = match value_member(v, "type") {
            None => { return Err(DecodeError::MissingKind); },
            Some(k) => match value_text(k) {
                None => { return Err(DecodeError::MissingKind); },
                Some(kind) => kind,
            },
        };
        let payload = match value_member(v, "data") {
            None => { return Err(DecodeError::MissingPayload); },
            Some(p) => p.clone(),
        };
        let timestamp: u64 = match value_member(v, "timestamp") {
            None => { return Err(DecodeError::MissingTimestamp); },
            Some(t) => match value_u64(t) {
                None => { return Err(DecodeError::MissingTimestamp); },
                Some(n) => n,
            },
        };
        Ok(Envelope { kind, payload, timestamp })
    }
}

/// Writes an envelope as the text of its wire form. Fails exactly where the
/// JSON writer cannot express the payload.
pub fn encode_text(envelope: &Envelope) -> (r: Result<String, EncodeError>)
    ensures
        match r {
            Ok(text) => printed_text(wire_model(envelope@)) == Some(text@),
            Err(_) => printed_text(wire_model(envelope@)) is None,
        },
{
    let value = envelope.to_value();
    match print_value(&value) {
        Ok(text) => Ok(text),
        Err(e) => Err(EncodeError { cause: error_text(&e) }),
    }
}

/// Writes an envelope as the bytes of its wire form: the UTF-8 bytes of its
/// text. Fails exactly where the JSON writer cannot express the payload.
pub fn encode(envelope: &Envelope) -> (r: Result<Vec<u8>, EncodeError>)
    ensures
        match r {
            Ok(bytes) => encoded(envelope@) == Some(bytes@),
            Err(_) => encoded(envelope@) is None,
        },
{
    match encode_text(envelope) {
        Ok(text) => Ok(text.as_str().as_bytes_vec()),
        Err(e) => Err(e),
    }
}

/// Reads an envelope from a text, as a whole or not at all.
pub fn decode_text(text: &str) -> (r: Result<Envelope, DecodeError>)
    ensures
        match r {
            Ok(e) => decoded_text(text@) == Ok::<EnvelopeModel, DecodeError>(e@),
            Err(x) => decoded_text(text@) == Err::<EnvelopeModel, DecodeError>(x),
        },
{
    match parse_text(text) {
        Err(_) => Err(DecodeError::NotJson),
        Ok(value) => Envelope::from_value(&value),
    }
}

/// Reads an envelope from the bytes of a datagram, as a whole or not at all.
pub fn decode(bytes: &[u8]) -> (r: Result<Envelope, DecodeError>)
    ensures
        match r {
            Ok(e) => decoded(bytes@) == Ok::<EnvelopeModel, DecodeError>(e@),
            Err(x) => decoded(bytes@) == Err::<EnvelopeModel, DecodeError>(x),
        },
{
    match utf8_text(bytes) {
        None => Err(DecodeError::NotText),
        Some(text) => {
            proof {
                encode_utf8_decode_utf8(text@);
            }
            decode_text(text)
        },
    }
}

} // verus!
