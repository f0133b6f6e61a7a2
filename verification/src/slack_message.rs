//! Inbound and outbound message shapes of the provider's socket-mode
//! channel, and the classifier that turns a raw text frame into a tagged
//! inbound message.
//!
//! Parsing of the carrier format is done by `serde_json` behind trusted
//! wrappers whose outcomes are named per field; the discriminant dispatch
//! and the assembly of the tagged message are verified.

use vstd::prelude::*;
use crate::text::str_eq;

verus! {

/// Envelope around any inbound command-style message.
pub struct Incoming<Payload> {
    pub payload: Payload,
    pub envelope_id: String,
    pub accepts_response_payload: bool,
}

/// The provider announces it is about to close the connection.
pub struct SlackDisconnectIncomingMessage {
    pub reason: String,
}

/// The provider confirms a successful connection.
pub struct SlackHelloIncomingMessage {
    pub num_connections: u32,
}

/// One slash-command invocation carried over the channel.
pub struct SlashCommandIncomingMessage {
    pub token: String,
    pub team_id: String,
    pub team_domain: String,
    pub channel_id: String,
    pub channel_name: String,
    pub user_id: String,
    pub user_name: String,
    pub command: String,
    pub text: String,
    pub response_url: String,
    pub trigger_id: String,
}

/// An inbound message, tagged by the discriminant field of the frame.
///
/// A known discriminant selects one of the three shapes; an unknown one is
/// kept as `Unrecognized` so that provider additions stay non-fatal.
pub enum SlackIncomingMessage {
    SlashCommands(Incoming<SlashCommandIncomingMessage>),
    Disconnect(SlackDisconnectIncomingMessage),
    Hello(SlackHelloIncomingMessage),
    Unrecognized,
}

/// The frame was not well-formed structured data, or a required field of a
/// known shape was missing or of the wrong type.
#[derive(Clone, Copy, Debug, PartialEq, Eq, Structural)]
pub struct DecodeError;

/// One text segment of a command response.
pub struct SlackCommandBlockText {
    pub kind: String,
    pub text: String,
}

/// One block of a command response.
pub struct SlackCommandBlock {
    pub kind: String,
    pub text: SlackCommandBlockText,
}

/// The displayable payload of a command response.
pub struct SlashCommandOutgoingMessage {
    pub blocks: Vec<SlackCommandBlock>,
    pub response_type: String,
}

/// An outbound message to be written back over the channel.
pub enum SlackOutgoingMessage {
    SlashCommand(Outgoing<SlashCommandOutgoingMessage>),
}

/// Envelope around any outbound message: the acknowledgment correlates to
/// the inbound envelope by its identifier, with an optional payload.
pub struct Outgoing<Payload> {
    pub envelope_id: String,
    pub payload: Option<Payload>,
}

impl<Payload> Outgoing<Payload> {
    /// Build an acknowledgment for the given envelope.
    pub fn new(envelope_id: String, payload: Option<Payload>) -> (r: Self)
        ensures
            r.envelope_id == envelope_id,
            r.payload == payload,
    {
        Self { envelope_id, payload }
    }
}

/// The string value of a top-level field of the frame, when the frame
/// parses as structured data and holds one.
pub uninterp spec fn json_str_field_of(s: Seq<char>, key: Seq<char>) -> Option<Seq<char>>;

/// The unsigned-integer value of a top-level field of the frame.
pub uninterp spec fn json_u64_field_of(s: Seq<char>, key: Seq<char>) -> Option<u64>;

/// The boolean value of a top-level field of the frame.
pub uninterp spec fn json_bool_field_of(s: Seq<char>, key: Seq<char>) -> Option<bool>;

/// The string value of a field nested one object deep in the frame.
pub uninterp spec fn json_nested_str_field_of(
    s: Seq<char>,
    outer: Seq<char>,
    key: Seq<char>,
) -> Option<Seq<char>>;

/// Relies on `serde_json::from_str`, `serde_json::Value::get` and
/// `serde_json::Value::as_str`: parsing and object lookup are functions of
/// the text and the key alone, so the outcome is named by
/// `json_str_field_of`.
#[verifier::external_body]
pub(crate) fn json_str_field(text: &str, key: &str) -> (r: Option<String>)
    ensures
        r is Some <==> json_str_field_of(text@, key@) is Some,
        r matches Some(v) ==> json_str_field_of(text@, key@) == Some(v@),
{
    let value: serde_json::Value = serde_json::from_str(text).ok()?;
    Some(value.get(key)?.as_str()?.to_string())
}

/// Relies on `serde_json::from_str`, `serde_json::Value::get` and
/// `serde_json::Value::as_u64`: the outcome is a function of the text and
/// the key alone, named by `json_u64_field_of`.
#[verifier::external_body]
fn json_u64_field(text: &str, key: &str) -> (r: Option<u64>)
    ensures
        r == json_u64_field_of(text@, key@),
{
    let value: serde_json::Value = serde_json::from_str(text).ok()?;
    value.get(key)?.as_u64()
}

/// Relies on `serde_json::from_str`, `serde_json::Value::get` and
/// `serde_json::Value::as_bool`: the outcome is a function of the text and
/// the key alone, named by `json_bool_field_of`.
#[verifier::external_body]
fn json_bool_field(text: &str, key: &str) -> (r: Option<bool>)
    ensures
        r == json_bool_field_of(text@, key@),
{
    let value: serde_json::Value = serde_json::from_str(text).ok()?;
    value.get(key)?.as_bool()
}

/// Relies on `serde_json::from_str`, `serde_json::Value::get` and
/// `serde_json::Value::as_str`: the outcome is a function of the text and
/// the two keys alone, named by `json_nested_str_field_of`.
#[verifier::external_body]
fn json_nested_str_field(text: &str, outer: &str, key: &str) -> (r: Option<String>)
    ensures
        r is Some <==> json_nested_str_field_of(text@, outer@, key@) is Some,
        r matches Some(v) ==> json_nested_str_field_of(text@, outer@, key@) == Some(v@),
{
    let value: serde_json::Value = serde_json::from_str(text).ok()?;
    Some(value.get(outer)?.get(key)?.as_str()?.to_string())
}

/// The discriminant field of a frame.
pub open spec fn tag_of(s: Seq<char>) -> Option<Seq<char>> {
    json_str_field_of(s, "type"@)
}

/// The required fields of a slash-command frame are all present.
pub open spec fn slash_fields_present(s: Seq<char>) -> bool {
    &&& json_str_field_of(s, "envelope_id"@) is Some
    &&& json_bool_field_of(s, "accepts_response_payload"@) is Some
    &&& json_nested_str_field_of(s, "payload"@, "command"@) is Some
    &&& json_nested_str_field_of(s, "payload"@, "user_id"@) is Some
    &&& json_nested_str_field_of(s, "payload"@, "text"@) is Some
}

/// The classifier rejects the frame: it is not structured data carrying a
/// string discriminant, or a known shape misses a required field.
pub open spec fn classify_fails(s: Seq<char>) -> bool {
    ||| tag_of(s) is None
    ||| (tag_of(s) == Some("hello"@) && !(json_u64_field_of(s, "num_connections"@) matches Some(
        n,
    ) && n <= u32::MAX))
    ||| (tag_of(s) == Some("disconnect"@) && json_str_field_of(s, "reason"@) is None)
    ||| (tag_of(s) == Some("slash_commands"@) && !slash_fields_present(s))
}

/// An optional field's text, or empty when absent.
pub open spec fn opt_or_empty(o: Option<Seq<char>>) -> Seq<char> {
    match o {
        Some(v) => v,
        None => Seq::empty(),
    }
}

/// The slash-command message carries exactly the fields of the frame, with
/// the optional descriptive fields empty when absent.
pub open spec fn slash_command_matches(s: Seq<char>, c: Incoming<SlashCommandIncomingMessage>) -> bool {
    &&& Some(c.envelope_id@) == json_str_field_of(s, "envelope_id"@)
    &&& Some(c.accepts_response_payload) == json_bool_field_of(s, "accepts_response_payload"@)
    &&& Some(c.payload.command@) == json_nested_str_field_of(s, "payload"@, "command"@)
    &&& Some(c.payload.user_id@) == json_nested_str_field_of(s, "payload"@, "user_id"@)
    &&& Some(c.payload.text@) == json_nested_str_field_of(s, "payload"@, "text"@)
    &&& c.payload.token@ == opt_or_empty(json_nested_str_field_of(s, "payload"@, "token"@))
    &&& c.payload.team_id@ == opt_or_empty(json_nested_str_field_of(s, "payload"@, "team_id"@))
    &&& c.payload.team_domain@ == opt_or_empty(
        json_nested_str_field_of(s, "payload"@, "team_domain"@),
    )
    &&& c.payload.channel_id@ == opt_or_empty(
        json_nested_str_field_of(s, "payload"@, "channel_id"@),
    )
    &&& c.payload.channel_name@ == opt_or_empty(
        json_nested_str_field_of(s, "payload"@, "channel_name"@),
    )
    &&& c.payload.user_name@ == opt_or_empty(json_nested_str_field_of(s, "payload"@, "user_name"@))
    &&& c.payload.response_url@ == opt_or_empty(
        json_nested_str_field_of(s, "payload"@, "response_url"@),
    )
    &&& c.payload.trigger_id@ == opt_or_empty(
        json_nested_str_field_of(s, "payload"@, "trigger_id"@),
    )
}

/// The classified message is the one the frame's discriminant and fields
/// demand.
pub open spec fn classified_ok(s: Seq<char>, m: SlackIncomingMessage) -> bool {
    match tag_of(s) {
        None => false,
        Some(t) => if t == "hello"@ {
            m matches SlackIncomingMessage::Hello(h) && Some(h.num_connections as u64)
                == json_u64_field_of(s, "num_connections"@)
        } else if t == "disconnect"@ {
            m matches SlackIncomingMessage::Disconnect(d) && Some(d.reason@) == json_str_field_of(
                s,
                "reason"@,
            )
        } else if t == "slash_commands"@ {
            m matches SlackIncomingMessage::SlashCommands(c) && slash_command_matches(s, c)
        } else {
            m is Unrecognized
        },
    }
}

fn opt_field_or_empty(text: &str, outer: &str, key: &str) -> (r: String)
    ensures
        r@ == opt_or_empty(json_nested_str_field_of(text@, outer@, key@)),
{
    match json_nested_str_field(text, outer, key) {
        Some(v) => v,
        None => String::new(),
    }
}

/// Classify a raw text frame into a tagged inbound message.
///
/// Fails exactly on frames that are not structured data with a string
/// discriminant, or whose known shape misses a required field; an unknown
/// discriminant is the `Unrecognized` message, not an error.
pub fn classify(text: &str) -> (r: Result<SlackIncomingMessage, DecodeError>)
    ensures
        r is Err <==> classify_fails(text@),
        r matches Ok(m) ==> classified_ok(text@, m),
{
    proof {
        reveal_strlit("type");
        reveal_strlit("hello");
        reveal_strlit("disconnect");
        reveal_strlit("slash_commands");
        assert("hello"@.len() == 5);
        assert("disconnect"@.len() == 10);
        assert("slash_commands"@.len() == 14);
        assert("hello"@ != "disconnect"@);
        assert("hello"@ != "slash_commands"@);
        assert("disconnect"@ != "slash_commands"@);
        reveal_strlit("num_connections");
        reveal_strlit("reason");
        reveal_strlit("envelope_id");
        reveal_strlit("accepts_response_payload");
        reveal_strlit("payload");
        reveal_strlit("command");
        reveal_strlit("user_id");
        reveal_strlit("text");
    }
    let tag = match json_str_field(text, "type") {
        Some(t) => t,
        None => {
            return Err(DecodeError);
        },
    };
    if str_eq(tag.as_str(), "hello") {
        match json_u64_field(text, "num_connections") {
            Some(n) => {
                if n <= u32::MAX as u64 {
                    Ok(
                        SlackIncomingMessage::Hello(
                            SlackHelloIncomingMessage { num_connections: n as u32 },
                        ),
                    )
                } else {
                    Err(DecodeError)
                }
            },
            None => Err(DecodeError),
        }
    } else if str_eq(tag.as_str(), "disconnect") {
        match json_str_field(text, "reason") {
            Some(reason) => Ok(
                SlackIncomingMessage::Disconnect(SlackDisconnectIncomingMessage { reason }),
            ),
            None => Err(DecodeError),
        }
    } else if str_eq(tag.as_str(), "slash_commands") {
        let envelope_id = match json_str_field(text, "envelope_id") {
            Some(v) => v,
            None => {
                return Err(DecodeError);
            },
        };
        let accepts_response_payload = match json_bool_field(text, "accepts_response_payload") {
            Some(v) => v,
            None => {
                return Err(DecodeError);
            },
        };
        let command = match json_nested_str_field(text, "payload", "command") {
            Some(v) => v,
            None => {
                return Err(DecodeError);
            },
        };
        let user_id = match json_nested_str_field(text, "payload", "user_id") {
            Some(v) => v,
            None => {
                return Err(DecodeError);
            },
        };
        let cmd_text = match json_nested_str_field(text, "payload", "text") {
            Some(v) => v,
            None => {
                return Err(DecodeError);
            },
        };
        let payload = SlashCommandIncomingMessage {
            token: opt_field_or_empty(text, "payload", "token"),
            team_id: opt_field_or_empty(text, "payload", "team_id"),
            team_domain: opt_field_or_empty(text, "payload", "team_domain"),
            channel_id: opt_field_or_empty(text, "payload", "channel_id"),
            channel_name: opt_field_or_empty(text, "payload", "channel_name"),
            user_id,
            user_name: opt_field_or_empty(text, "payload", "user_name"),
            command,
            text: cmd_text,
            response_url: opt_field_or_empty(text, "payload", "response_url"),
            trigger_id: opt_field_or_empty(text, "payload", "trigger_id"),
        };
        Ok(
            SlackIncomingMessage::SlashCommands(
                Incoming { payload, envelope_id, accepts_response_payload },
            ),
        )
    } else {
        Ok(SlackIncomingMessage::Unrecognized)
    }
}

} // verus!
