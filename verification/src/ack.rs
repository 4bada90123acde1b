//! Outbound acknowledgements: which envelopes get one, what it holds, and the
//! JSON text that goes on the wire.
//!
//! The text is compact JSON with the members in a fixed order. String values
//! are written by `serde_json`; the framing around them is written here.

use vstd::prelude::*;
use crate::json::quote;
use crate::json::quoted;
use crate::message::CommandView;
use crate::message::MessageView;
use crate::message::SocketModeMessage;
use crate::response::build_response;
use crate::response::demo_payload;
use crate::response::Accessory;
use crate::response::AccessoryView;
use crate::response::Block;
use crate::response::BlockView;
use crate::response::Payload;
use crate::response::PayloadView;
use crate::response::Text;
use crate::response::TextView;

verus! {

/// The reply that tells the peer that an envelope has arrived. It names the
/// envelope by its id and may carry a visible response.
#[derive(Clone, Debug, PartialEq, Eq)]
pub struct SocketModeAcknowledgeMessage {
    pub envelope_id: String,
    pub payload: Option<Payload>,
}

pub struct AckView {
    pub envelope_id: Seq<char>,
    pub payload: Option<PayloadView>,
}

impl View for SocketModeAcknowledgeMessage {
    type V = AckView;

    open spec fn view(&self) -> AckView {
        AckView {
            envelope_id: self.envelope_id@,
            payload: match self.payload {
                Some(p) => Some(p@),
                None => None,
            },
        }
    }
}

/// The acknowledgement that an envelope is owed: one with the demonstration
/// payload for a command, a bare one for an interaction, none for the rest.
pub open spec fn ack_for(message: MessageView) -> Option<AckView> {
    match message {
        MessageView::SlashCommands { envelope_id, payload } => Some(
            AckView { envelope_id, payload: Some(demo_payload()) },
        ),
        MessageView::Interactive { envelope_id } => Some(AckView { envelope_id, payload: None }),
        _ => None,
    }
}

/// What an acknowledgement that may be absent stands for.
pub open spec fn ack_view(ack: Option<SocketModeAcknowledgeMessage>) -> Option<AckView> {
    match ack {
        Some(ack) => Some(ack@),
        None => None,
    }
}

/// The JSON object of a text node.
pub open spec fn text_json(t: TextView) -> Seq<char> {
    "{\"type\":"@ + quoted(t.kind) + ",\"text\":"@ + quoted(t.text) + "}"@
}

/// The JSON object of an accessory.
pub open spec fn accessory_json(a: AccessoryView) -> Seq<char> {
    "{\"type\":"@ + quoted(a.kind) + ",\"text\":"@ + text_json(a.text) + ",\"value\":"@ + quoted(
        a.value,
    ) + ",\"action_id\":"@ + quoted(a.action_id) + "}"@
}

/// The JSON value of a block's accessory: its object, or `null` where the
/// block has none.
pub open spec fn accessory_slot_json(a: Option<AccessoryView>) -> Seq<char> {
    match a {
        Some(a) => accessory_json(a),
        None => "null"@,
    }
}

/// The JSON object of a block.
pub open spec fn block_json(b: BlockView) -> Seq<char> {
    "{\"text\":"@ + text_json(b.text) + ",\"type\":"@ + quoted(b.kind) + ",\"accessory\":"@
        + accessory_slot_json(b.accessory) + "}"@
}

/// The JSON objects of some blocks in their order, with a comma between
/// neighbours.
pub open spec fn block_list_json(blocks: Seq<BlockView>) -> Seq<char>
    decreases blocks.len(),
{
    if blocks.len() == 0 {
        Seq::empty()
    } else if blocks.len() == 1 {
        block_json(blocks[0])
    } else {
        block_list_json(blocks.drop_last()) + ","@ + block_json(blocks.last())
    }
}

/// The JSON object of a payload.
pub open spec fn payload_json(p: PayloadView) -> Seq<char> {
    "{\"text\":"@ + quoted(p.text) + ",\"response_type\":"@ + quoted(p.response_type)
        + ",\"blocks\":["@ + block_list_json(p.blocks) + "]}"@
}

/// The JSON text of an acknowledgement. One without a payload has the single
/// member `envelope_id`: no `payload` member is written, not even `null`.
pub open spec fn ack_json(ack: AckView) -> Seq<char> {
    match ack.payload {
        Some(p) => "{\"envelope_id\":"@ + quoted(ack.envelope_id) + ",\"payload\":"@
            + payload_json(p) + "}"@,
        None => "{\"envelope_id\":"@ + quoted(ack.envelope_id) + "}"@,
    }
}

/// Builds the acknowledgement that an envelope is owed, if it is owed one.
/// The envelope's id is carried over unchanged.
pub fn acknowledgement(message: &SocketModeMessage) -> (ack: Option<SocketModeAcknowledgeMessage>)
    ensures
        ack_view(ack) == ack_for(message@),
{
    match message {
        SocketModeMessage::SlashCommands { envelope_id, payload } => Some(
            SocketModeAcknowledgeMessage {
                envelope_id: envelope_id.clone(),
                payload: Some(build_response(payload)),
            },
        ),
        SocketModeMessage::Interactive { envelope_id } => Some(
            SocketModeAcknowledgeMessage { envelope_id: envelope_id.clone(), payload: None },
        ),
        _ => None,
    }
}

fn write_text(out: &mut String, t: &Text)
    ensures
        final(out)@ == old(out)@ + text_json(t@),
{
    out.append("{\"type\":");
    out.append(quote(t.kind.as_str()).as_str());
    out.append(",\"text\":");
    out.append(quote(t.text.as_str()).as_str());
    out.append("}");
}

fn write_accessory(out: &mut String, a: &Accessory)
    ensures
        final(out)@ == old(out)@ + accessory_json(a@),
{
    out.append("{\"type\":");
    out.append(quote(a.kind.as_str()).as_str());
    out.append(",\"text\":");
    write_text(out, &a.text);
    out.append(",\"value\":");
    out.append(quote(a.value.as_str()).as_str());
    out.append(",\"action_id\":");
    out.append(quote(a.action_id.as_str()).as_str());
    out.append("}");
}

fn write_block(out: &mut String, b: &Block)
    ensures
        final(out)@ == old(out)@ + block_json(b@),
{
    out.append("{\"text\":");
    write_text(out, &b.text);
    out.append(",\"type\":");
    out.append(quote(b.kind.as_str()).as_str());
    out.append(",\"accessory\":");
    match &b.accessory {
        Some(a) => write_accessory(out, a),
        None => out.append("null"),
    }
    out.append("}");
}

fn write_payload(out: &mut String, p: &Payload)
    ensures
        final(out)@ == old(out)@ + payload_json(p@),
{
    out.append("{\"text\":");
    out.append(quote(p.text.as_str()).as_str());
    out.append(",\"response_type\":");
    out.append(quote(p.response_type.as_str()).as_str());
    out.append(",\"blocks\":[");
    let ghost head = out@;
    let ghost views = p@.blocks;
    let n = p.blocks.len();
    let mut i: usize = 0;
    while i < n
        invariant
            i <= n,
            n == p.blocks.len(),
            views == p@.blocks,
            out@ == head + block_list_json(views.take(i as int)),
        decreases n - i,
    {
        proof {
            let done = views.take(i as int);
            let next = views.take(i + 1);
            assert(next.drop_last() =~= done);
            assert(next.last() == p.blocks[i as int]@);
        }
        if i > 0 {
            out.append(",");
        }
        write_block(out, &p.blocks[i]);
        i = i + 1;
    }
    assert(views.take(n as int) =~= views);
    out.append("]}");
}

/// Writes an acknowledgement as the JSON text that goes on the wire.
pub fn encode(ack: &SocketModeAcknowledgeMessage) -> (text: String)
    ensures
        text@ == ack_json(ack@),
{
    let mut out = String::new();
    out.append("{\"envelope_id\":");
    out.append(quote(ack.envelope_id.as_str()).as_str());
    match &ack.payload {
        Some(p) => {
            out.append(",\"payload\":");
            write_payload(&mut out, p);
        },
        None => {},
    }
    out.append("}");
    out
}

/// An envelope is owed an acknowledgement exactly when it is a command or
/// an interaction, and the acknowledgement then carries the envelope's own
/// id, character for character.
pub proof fn acknowledgement_echoes_envelope_id(message: MessageView)
    ensures
        ack_for(message) is Some <==> message is SlashCommands || message is Interactive,
        ack_for(message) matches Some(ack) ==> Some(ack.envelope_id) == message.envelope_id(),
{
}

/// The acknowledgement of an interaction has no payload, and its text is the
/// object with the single member `envelope_id`.
pub proof fn interaction_ack_has_no_payload(envelope_id: Seq<char>)
    ensures
        ack_for(MessageView::Interactive { envelope_id }) matches Some(ack) && ack.payload is None
            && ack_json(ack) == "{\"envelope_id\":"@ + quoted(envelope_id) + "}"@,
{
}

/// The acknowledgement of a command has a payload with a response type and
/// at least one block, whatever the command holds.
pub proof fn command_ack_carries_blocks(envelope_id: Seq<char>, payload: CommandView)
    ensures
        ack_for(MessageView::SlashCommands { envelope_id, payload }) matches Some(ack)
            && ack.payload matches Some(reply) && reply.blocks.len() > 0 && reply.response_type
            == "ephemeral"@ && reply.well_formed(),
{
}

} // verus!
