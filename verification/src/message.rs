//! The protocol envelope: its opcodes, how a received text is read as an
//! envelope, and what each envelope asks of the session.

use crate::json::document_view;
use crate::json::json_document;
use crate::json::parse_document;
use crate::json::Json;
use crate::json::JsonValue;
use vstd::prelude::*;
use vstd::string::StringExecFns;

verus! {

/// The kinds of message a client can send. The set is closed: a tag that is
/// not listed here is not an opcode.
#[derive(Debug, Clone, Copy, PartialEq, Eq)]
pub enum Opcodes {
    Connect,
}

/// The opcode that a tag names, if it names one.
pub open spec fn opcode_of_tag(tag: Seq<char>) -> Option<Opcodes> {
    if tag == "Connect"@ {
        Some(Opcodes::Connect)
    } else {
        None
    }
}

impl Opcodes {
    /// Reads an opcode from its tag.
    pub fn from_tag(tag: &str) -> (opcode: Option<Opcodes>)
        ensures
            opcode == opcode_of_tag(tag@),
    {
        let tag = String::from_str(tag);
        if tag == String::from_str("Connect") {
            Some(Opcodes::Connect)
        } else {
            None
        }
    }
}

/// An envelope as a mathematical value: an opcode and a JSON tree.
pub ghost struct Envelope {
    pub t: Opcodes,
    pub d: JsonValue,
}

/// The unit that a client sends: an opcode `t` and a payload `d` whose shape
/// depends on the opcode.
#[derive(Debug, PartialEq, Eq)]
pub struct WSMessage {
    t: Opcodes,
    d: Json,
}

impl View for WSMessage {
    type V = Envelope;

    closed spec fn view(&self) -> Envelope {
        Envelope { t: self.t, d: self.d@ }
    }
}

/// Why a received text is no envelope.
#[derive(Debug, Clone, Copy, PartialEq, Eq)]
pub enum ParseError {
    /// The text is not one well-formed JSON value.
    Malformed,
    /// The document has no member `t`.
    MissingOpcode,
    /// The member `t` is not the tag of an opcode.
    UnknownOpcode,
    /// The document has no member `d`.
    MissingPayload,
}

/// The envelope that a document holds, or why it holds none. A document is
/// an envelope when it is an object whose member `t` is the tag of an opcode
/// and which has a member `d`; `t` is looked at first.
pub open spec fn envelope_of(doc: Option<JsonValue>) -> Result<Envelope, ParseError> {
    match doc {
        None => Err(ParseError::Malformed),
        Some(json) => match json.member("t"@) {
            None => Err(ParseError::MissingOpcode),
            Some(JsonValue::Text(tag)) => match opcode_of_tag(tag) {
                None => Err(ParseError::UnknownOpcode),
                Some(t) => match json.member("d"@) {
                    None => Err(ParseError::MissingPayload),
                    Some(d) => Ok(Envelope { t, d }),
                },
            },
            Some(_) => Err(ParseError::UnknownOpcode),
        },
    }
}

/// The outcome of reading, with the envelope as a mathematical value.
pub open spec fn envelope_view(read: Result<WSMessage, ParseError>) -> Result<
    Envelope,
    ParseError,
> {
    match read {
        Ok(message) => Ok(message@),
        Err(error) => Err(error),
    }
}

/// What an envelope asks of the session.
#[derive(Debug, Clone, Copy, PartialEq, Eq)]
pub enum Outcome {
    /// `Connect` without a payload: a protocol violation.
    MissingLoginData,
    /// `Connect` with a payload that names no `login_pkg`: a new user.
    FreshRegistration,
    /// `Connect` with a `login_pkg`: nothing is done.
    NoOp,
}

/// The outcome of an envelope. A payload names a `login_pkg` when it is an
/// object with a member of that name, whatever the member's value is, `null`
/// included. A payload that is no object names none.
pub open spec fn outcome_of(envelope: Envelope) -> Outcome {
    match envelope.t {
        Opcodes::Connect => if envelope.d is Null {
            Outcome::MissingLoginData
        } else {
            match envelope.d.member("login_pkg"@) {
                None => Outcome::FreshRegistration,
                Some(_) => Outcome::NoOp,
            }
        },
    }
}

impl Clone for WSMessage {
    /// A copy of the envelope, payload and all.
    fn clone(&self) -> (copy: WSMessage)
        ensures
            copy@ == self@,
    {
        WSMessage { t: self.t, d: self.d.clone() }
    }
}

impl WSMessage {
    /// An envelope of opcode `t` with payload `d`.
    pub fn new(t: Opcodes, d: Json) -> (message: WSMessage)
        ensures
            message@ == (Envelope { t, d: d@ }),
    {
        WSMessage { t, d }
    }

    /// The opcode.
    pub fn opcode(&self) -> (t: Opcodes)
        ensures
            t == self@.t,
    {
        self.t
    }

    /// The payload.
    pub fn payload(&self) -> (d: &Json)
        ensures
            d@ == self@.d,
    {
        &self.d
    }
}

/// Reads a parsed document as an envelope. `None` stands for a text that
/// could not be parsed.
pub fn read_envelope(doc: Option<Json>) -> (read: Result<WSMessage, ParseError>)
    ensures
        envelope_view(read) == envelope_of(document_view(doc)),
{
    let json = match doc {
        Some(json) => json,
        None => {
            return Err(ParseError::Malformed);
        },
    };
    let t = match json.get("t") {
        None => {
            return Err(ParseError::MissingOpcode);
        },
        Some(tag) => match tag.as_text() {
            None => {
                return Err(ParseError::UnknownOpcode);
            },
            Some(text) => match Opcodes::from_tag(text.as_str()) {
                None => {
                    return Err(ParseError::UnknownOpcode);
                },
                Some(t) => t,
            },
        },
    };
    match json.into_member("d") {
        None => Err(ParseError::MissingPayload),
        Some(d) => Ok(WSMessage { t, d }),
    }
}

/// Reads a received text as an envelope.
pub fn parse(raw_text: &str) -> (read: Result<WSMessage, ParseError>)
    ensures
        envelope_view(read) == envelope_of(json_document(raw_text@)),
{
    read_envelope(parse_document(raw_text))
}

/// Decides what an envelope asks for.
pub fn dispatch(message: &WSMessage) -> (outcome: Outcome)
    ensures
        outcome == outcome_of(message@),
{
    match message.t {
        Opcodes::Connect => {
            if message.d.is_null() {
                Outcome::MissingLoginData
            } else {
                match message.d.get("login_pkg") {
                    None => Outcome::FreshRegistration,
                    Some(_) => Outcome::NoOp,
                }
            }
        },
    }
}

} // verus!
