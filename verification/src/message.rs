//! Inbound envelopes: the tagged union that a text frame decodes to, and the
//! decoder.
//!
//! A frame is a JSON object whose string member `type` selects the variant.
//! Members that a variant does not name are ignored; a member that it names
//! must be present and hold a string.

use vstd::prelude::*;
use crate::json::document_of;
use crate::json::member;
use crate::json::member_of;
use crate::json::parse_document;
use crate::json::text_at;
use crate::json::text_member;
use crate::json::text_view;

verus! {

/// What a slash command carries: who invoked it, where, and the command
/// itself. Every value is opaque text.
#[derive(Clone, Debug, PartialEq, Eq)]
pub struct SocketModeMessagePayload {
    pub token: String,
    pub team_id: String,
    pub team_domain: String,
    pub channel_id: String,
    pub channel_name: String,
    pub user_id: String,
    pub user_name: String,
    pub command: String,
    pub text: String,
    pub api_app_id: String,
    pub is_enterprise_install: String,
    pub response_url: String,
    pub trigger_id: String,
}

/// An inbound envelope.
#[derive(Clone, Debug, PartialEq, Eq)]
pub enum SocketModeMessage {
    /// The peer's greeting after the connection opens.
    Hello {},
    /// The peer asks the client to leave.
    Disconnect { reason: String },
    /// A user invoked a command; the peer waits for an acknowledgement.
    SlashCommands { envelope_id: String, payload: SocketModeMessagePayload },
    /// A user touched an interactive element; the peer waits for an
    /// acknowledgement.
    Interactive { envelope_id: String },
}

/// Why a text frame is no envelope.
#[derive(Clone, Copy, Debug, PartialEq, Eq, Structural)]
pub enum DecodeError {
    /// The text is no JSON document.
    Malformed,
    /// The document has no string member `type`.
    Untagged,
    /// The `type` is none that this client knows.
    UnknownKind,
    /// A member that the variant names is absent or holds no string.
    Incomplete,
}

pub struct CommandView {
    pub token: Seq<char>,
    pub team_id: Seq<char>,
    pub team_domain: Seq<char>,
    pub channel_id: Seq<char>,
    pub channel_name: Seq<char>,
    pub user_id: Seq<char>,
    pub user_name: Seq<char>,
    pub command: Seq<char>,
    pub text: Seq<char>,
    pub api_app_id: Seq<char>,
    pub is_enterprise_install: Seq<char>,
    pub response_url: Seq<char>,
    pub trigger_id: Seq<char>,
}

pub enum MessageView {
    Hello,
    Disconnect { reason: Seq<char> },
    SlashCommands { envelope_id: Seq<char>, payload: CommandView },
    Interactive { envelope_id: Seq<char> },
}

impl View for SocketModeMessagePayload {
    type V = CommandView;

    open spec fn view(&self) -> CommandView {
        CommandView {
            token: self.token@,
            team_id: self.team_id@,
            team_domain: self.team_domain@,
            channel_id: self.channel_id@,
            channel_name: self.channel_name@,
            user_id: self.user_id@,
            user_name: self.user_name@,
            command: self.command@,
            text: self.text@,
            api_app_id: self.api_app_id@,
            is_enterprise_install: self.is_enterprise_install@,
            response_url: self.response_url@,
            trigger_id: self.trigger_id@,
        }
    }
}

impl View for SocketModeMessage {
    type V = MessageView;

    open spec fn view(&self) -> MessageView {
        match self {
            SocketModeMessage::Hello {} => MessageView::Hello,
            SocketModeMessage::Disconnect { reason } => MessageView::Disconnect { reason: reason@ },
            SocketModeMessage::SlashCommands { envelope_id, payload } => MessageView::SlashCommands {
                envelope_id: envelope_id@,
                payload: payload@,
            },
            SocketModeMessage::Interactive { envelope_id } => MessageView::Interactive {
                envelope_id: envelope_id@,
            },
        }
    }
}

impl MessageView {
    /// The correlation id of an envelope that waits for an acknowledgement.
    pub open spec fn envelope_id(self) -> Option<Seq<char>> {
        match self {
            MessageView::SlashCommands { envelope_id, .. } => Some(envelope_id),
            MessageView::Interactive { envelope_id } => Some(envelope_id),
            _ => None,
        }
    }
}

/// The members of a frame that the decoder looks at, each as it was found:
/// `None` stands for a member that is absent or of another shape.
#[derive(Clone, Debug, PartialEq, Eq)]
pub struct FrameFields {
    /// The string member `type`.
    pub kind: Option<String>,
    /// The string member `reason`.
    pub reason: Option<String>,
    /// The string member `envelope_id`.
    pub envelope_id: Option<String>,
    /// The object member `payload`, where it holds every member of a command
    /// as a string.
    pub payload: Option<SocketModeMessagePayload>,
}

pub struct FrameFieldsView {
    pub kind: Option<Seq<char>>,
    pub reason: Option<Seq<char>>,
    pub envelope_id: Option<Seq<char>>,
    pub payload: Option<CommandView>,
}

impl View for FrameFields {
    type V = FrameFieldsView;

    open spec fn view(&self) -> FrameFieldsView {
        FrameFieldsView {
            kind: text_view(self.kind),
            reason: text_view(self.reason),
            envelope_id: text_view(self.envelope_id),
            payload: match self.payload {
                Some(p) => Some(p@),
                None => None,
            },
        }
    }
}

/// Whether a `type` is one of the four that this client knows.
pub open spec fn known_kind(kind: Seq<char>) -> bool {
    kind == "hello"@ || kind == "disconnect"@ || kind == "slash_commands"@ || kind
        == "interactive"@
}

/// The envelope that a frame's members make up, or why they make up none.
pub open spec fn interpreted(fields: FrameFieldsView) -> Result<MessageView, DecodeError> {
    match fields.kind {
        None => Err(DecodeError::Untagged),
        Some(kind) => if kind == "hello"@ {
            Ok(MessageView::Hello)
        } else if kind == "disconnect"@ {
            match fields.reason {
                Some(reason) => Ok(MessageView::Disconnect { reason }),
                None => Err(DecodeError::Incomplete),
            }
        } else if kind == "slash_commands"@ {
            match (fields.envelope_id, fields.payload) {
                (Some(envelope_id), Some(payload)) => Ok(
                    MessageView::SlashCommands { envelope_id, payload },
                ),
                _ => Err(DecodeError::Incomplete),
            }
        } else if kind == "interactive"@ {
            match fields.envelope_id {
                Some(envelope_id) => Ok(MessageView::Interactive { envelope_id }),
                None => Err(DecodeError::Incomplete),
            }
        } else {
            Err(DecodeError::UnknownKind)
        },
    }
}

/// The command that an object holds, where each of its thirteen members is
/// there as a string.
pub open spec fn command_of(doc: serde_json::Value) -> Option<CommandView> {
    if text_at(doc, "token"@) is Some && text_at(doc, "team_id"@) is Some && text_at(
        doc,
        "team_domain"@,
    ) is Some && text_at(doc, "channel_id"@) is Some && text_at(doc, "channel_name"@) is Some
        && text_at(doc, "user_id"@) is Some && text_at(doc, "user_name"@) is Some && text_at(
        doc,
        "command"@,
    ) is Some && text_at(doc, "text"@) is Some && text_at(doc, "api_app_id"@) is Some && text_at(
        doc,
        "is_enterprise_install"@,
    ) is Some && text_at(doc, "response_url"@) is Some && text_at(doc, "trigger_id"@) is Some {
        Some(
            CommandView {
                token: text_at(doc, "token"@)->0,
                team_id: text_at(doc, "team_id"@)->0,
                team_domain: text_at(doc, "team_domain"@)->0,
                channel_id: text_at(doc, "channel_id"@)->0,
                channel_name: text_at(doc, "channel_name"@)->0,
                user_id: text_at(doc, "user_id"@)->0,
                user_name: text_at(doc, "user_name"@)->0,
                command: text_at(doc, "command"@)->0,
                text: text_at(doc, "text"@)->0,
                api_app_id: text_at(doc, "api_app_id"@)->0,
                is_enterprise_install: text_at(doc, "is_enterprise_install"@)->0,
                response_url: text_at(doc, "response_url"@)->0,
                trigger_id: text_at(doc, "trigger_id"@)->0,
            },
        )
    } else {
        None
    }
}

/// The members that the decoder finds in a document.
pub open spec fn fields_of(doc: serde_json::Value) -> FrameFieldsView {
    FrameFieldsView {
        kind: text_at(doc, "type"@),
        reason: text_at(doc, "reason"@),
        envelope_id: text_at(doc, "envelope_id"@),
        payload: match member_of(doc, "payload"@) {
            Some(inner) => command_of(inner),
            None => None,
        },
    }
}

/// The envelope that a document holds, or why it holds none.
pub open spec fn message_of(doc: serde_json::Value) -> Result<MessageView, DecodeError> {
    interpreted(fields_of(doc))
}

/// The envelope that a text frame decodes to, or why it decodes to none.
pub open spec fn decoded(text: Seq<char>) -> Result<MessageView, DecodeError> {
    match document_of(text) {
        Some(doc) => message_of(doc),
        None => Err(DecodeError::Malformed),
    }
}

/// What a decoder's result stands for.
pub open spec fn outcome_view(r: Result<SocketModeMessage, DecodeError>) -> Result<
    MessageView,
    DecodeError,
> {
    match r {
        Ok(message) => Ok(message@),
        Err(e) => Err(e),
    }
}

/// Compares two texts character by character.
fn same_text(a: &str, b: &str) -> (r: bool)
    ensures
        r == (a@ == b@),
{
    let left = a.to_owned();
    let right = b.to_owned();
    left == right
}

/// Makes an envelope of a frame's members. The `type` decides which of the
/// other members are needed; a `type` outside the known four is refused as
/// `UnknownKind`, whatever else the frame holds.
pub fn interpret(fields: FrameFields) -> (r: Result<SocketModeMessage, DecodeError>)
    ensures
        outcome_view(r) == interpreted(fields@),
{
    let FrameFields { kind, reason, envelope_id, payload } = fields;
    let kind = match kind {
        Some(kind) => kind,
        None => {
            return Err(DecodeError::Untagged);
        },
    };
    if same_text(kind.as_str(), "hello") {
        Ok(SocketModeMessage::Hello {})
    } else if same_text(kind.as_str(), "disconnect") {
        match reason {
            Some(reason) => Ok(SocketModeMessage::Disconnect { reason }),
            None => Err(DecodeError::Incomplete),
        }
    } else if same_text(kind.as_str(), "slash_commands") {
        match (envelope_id, payload) {
            (Some(envelope_id), Some(payload)) => Ok(
                SocketModeMessage::SlashCommands { envelope_id, payload },
            ),
            _ => Err(DecodeError::Incomplete),
        }
    } else if same_text(kind.as_str(), "interactive") {
        match envelope_id {
            Some(envelope_id) => Ok(SocketModeMessage::Interactive { envelope_id }),
            None => Err(DecodeError::Incomplete),
        }
    } else {
        Err(DecodeError::UnknownKind)
    }
}

/// Reads a command out of the object that a frame holds under `payload`.
pub fn read_command(doc: &serde_json::Value) -> (r: Option<SocketModeMessagePayload>)
    ensures
        match r {
            Some(command) => command_of(*doc) == Some(command@),
            None => command_of(*doc) is None,
        },
{
    let token = text_member(doc, "token")?;
    let team_id = text_member(doc, "team_id")?;
    let team_domain = text_member(doc, "team_domain")?;
    let channel_id = text_member(doc, "channel_id")?;
    let channel_name = text_member(doc, "channel_name")?;
    let user_id = text_member(doc, "user_id")?;
    let user_name = text_member(doc, "user_name")?;
    let command = text_member(doc, "command")?;
    let text = text_member(doc, "text")?;
    let api_app_id = text_member(doc, "api_app_id")?;
    let is_enterprise_install = text_member(doc, "is_enterprise_install")?;
    let response_url = text_member(doc, "response_url")?;
    let trigger_id = text_member(doc, "trigger_id")?;
    Some(
        SocketModeMessagePayload {
            token,
            team_id,
            team_domain,
            channel_id,
            channel_name,
            user_id,
            user_name,
            command,
            text,
            api_app_id,
            is_enterprise_install,
            response_url,
            trigger_id,
        },
    )
}

/// Reads out of a document the members that the decoder looks at.
pub fn read_fields(doc: &serde_json::Value) -> (fields: FrameFields)
    ensures
        fields@ == fields_of(*doc),
{
    let payload = match member(doc, "payload") {
        Some(inner) => read_command(inner),
        None => None,
    };
    FrameFields {
        kind: text_member(doc, "type"),
        reason: text_member(doc, "reason"),
        envelope_id: text_member(doc, "envelope_id"),
        payload,
    }
}

/// Decodes a document that was read from a text frame.
pub fn decode_document(doc: &serde_json::Value) -> (r: Result<SocketModeMessage, DecodeError>)
    ensures
        outcome_view(r) == message_of(*doc),
{
    interpret(read_fields(doc))
}

/// Decodes a text frame. A text that is no JSON document is `Malformed`; a
/// document is judged by its members.
pub fn decode(text: &str) -> (r: Result<SocketModeMessage, DecodeError>)
    ensures
        outcome_view(r) == decoded(text@),
{
    match parse_document(text) {
        Ok(doc) => decode_document(&doc),
        Err(_) => Err(DecodeError::Malformed),
    }
}

/// A frame whose `type` is none of the known four is refused as
/// `UnknownKind`, whatever else it holds.
pub proof fn unknown_kind_is_refused(fields: FrameFieldsView)
    requires
        fields.kind matches Some(kind) && !known_kind(kind),
    ensures
        interpreted(fields) == Err::<MessageView, DecodeError>(DecodeError::UnknownKind),
{
}

/// A frame decodes to an envelope only if its `type` is one of the known
/// four, and an envelope that waits for an acknowledgement has the id that
/// the frame holds under `envelope_id`, character for character.
pub proof fn envelope_keeps_the_frames_id(fields: FrameFieldsView)
    requires
        interpreted(fields) is Ok,
    ensures
        fields.kind matches Some(kind) && known_kind(kind),
        interpreted(fields)->Ok_0 is SlashCommands || interpreted(fields)->Ok_0 is Interactive
            ==> interpreted(fields)->Ok_0.envelope_id() == fields.envelope_id,
{
}

} // verus!
