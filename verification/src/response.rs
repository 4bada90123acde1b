//! The visible reply to a command: a small rendering tree of text blocks,
//! each with an optional interactive accessory.

use vstd::prelude::*;
use crate::message::SocketModeMessagePayload;

verus! {

/// A text node: how it is to be rendered (`kind`, sent as `type`) and what it
/// says.
#[derive(Clone, Debug, PartialEq, Eq)]
pub struct Text {
    pub kind: String,
    pub text: String,
}

/// An interactive element attached to a block, such as a button. `kind` is
/// sent as `type`; `action_id` tells the elements of one reply apart.
#[derive(Clone, Debug, PartialEq, Eq)]
pub struct Accessory {
    pub kind: String,
    pub text: Text,
    pub value: String,
    pub action_id: String,
}

/// One block of a reply. `kind` is sent as `type`.
#[derive(Clone, Debug, PartialEq, Eq)]
pub struct Block {
    pub text: Text,
    pub kind: String,
    pub accessory: Option<Accessory>,
}

/// The body of a visible reply.
#[derive(Clone, Debug, PartialEq, Eq)]
pub struct Payload {
    pub text: String,
    pub response_type: String,
    pub blocks: Vec<Block>,
}

pub struct TextView {
    pub kind: Seq<char>,
    pub text: Seq<char>,
}

pub struct AccessoryView {
    pub kind: Seq<char>,
    pub text: TextView,
    pub value: Seq<char>,
    pub action_id: Seq<char>,
}

pub struct BlockView {
    pub text: TextView,
    pub kind: Seq<char>,
    pub accessory: Option<AccessoryView>,
}

pub struct PayloadView {
    pub text: Seq<char>,
    pub response_type: Seq<char>,
    pub blocks: Seq<BlockView>,
}

impl View for Text {
    type V = TextView;

    open spec fn view(&self) -> TextView {
        TextView { kind: self.kind@, text: self.text@ }
    }
}

impl View for Accessory {
    type V = AccessoryView;

    open spec fn view(&self) -> AccessoryView {
        AccessoryView {
            kind: self.kind@,
            text: self.text@,
            value: self.value@,
            action_id: self.action_id@,
        }
    }
}

impl View for Block {
    type V = BlockView;

    open spec fn view(&self) -> BlockView {
        BlockView {
            text: self.text@,
            kind: self.kind@,
            accessory: match self.accessory {
                Some(a) => Some(a@),
                None => None,
            },
        }
    }
}

impl View for Payload {
    type V = PayloadView;

    open spec fn view(&self) -> PayloadView {
        PayloadView {
            text: self.text@,
            response_type: self.response_type@,
            blocks: self.blocks@.map_values(|b: Block| b@),
        }
    }
}

impl PayloadView {
    /// No two accessories of the reply share an `action_id`, so that a later
    /// interaction names one element.
    pub open spec fn well_formed(self) -> bool {
        forall|i: int, j: int|
            0 <= i < j < self.blocks.len() && self.blocks[i].accessory is Some
                && self.blocks[j].accessory is Some
                ==> self.blocks[i].accessory->0.action_id != self.blocks[j].accessory->0.action_id
    }
}

impl Payload {
    /// Whether no two accessories of the reply share an `action_id`.
    pub fn is_well_formed(&self) -> (r: bool)
        ensures
            r == self@.well_formed(),
    {
        let ghost views = self@.blocks;
        let n = self.blocks.len();
        let mut j: usize = 0;
        while j < n
            invariant
                j <= n,
                n == self.blocks.len(),
                views == self@.blocks,
                forall|a: int, b: int|
                    0 <= a < b < j && (#[trigger] views[a]).accessory is Some && (
                    #[trigger] views[b]).accessory is Some ==> views[a].accessory->0.action_id
                        != views[b].accessory->0.action_id,
            decreases n - j,
        {
            assert(views[j as int] == self.blocks[j as int]@);
            if let Some(later) = &self.blocks[j].accessory {
                let mut i: usize = 0;
                while i < j
                    invariant
                        i <= j,
                        j < n,
                        n == self.blocks.len(),
                        views == self@.blocks,
                        views[j as int].accessory == Some(later@),
                        forall|a: int|
                            0 <= a < i && (#[trigger] views[a]).accessory is Some
                                ==> views[a].accessory->0.action_id != later@.action_id,
                    decreases j - i,
                {
                    assert(views[i as int] == self.blocks[i as int]@);
                    if let Some(earlier) = &self.blocks[i].accessory {
                        if earlier.action_id == later.action_id {
                            return false;
                        }
                    }
                    i = i + 1;
                }
            }
            j = j + 1;
        }
        true
    }
}

/// The demonstration reply: no text of its own, shown to the invoking user
/// only, and one section with one button.
pub open spec fn demo_payload() -> PayloadView {
    PayloadView {
        text: ""@,
        response_type: "ephemeral"@,
        blocks: seq![
            BlockView {
                text: TextView { kind: "mrkdwn"@, text: "hogehoge"@ },
                kind: "section"@,
                accessory: Some(
                    AccessoryView {
                        kind: "button"@,
                        text: TextView { kind: "plain_text"@, text: "Click Me."@ },
                        value: "click-me"@,
                        action_id: "button-action"@,
                    },
                ),
            },
        ],
    }
}

/// Builds the reply to a command. Whatever the command holds, the reply is
/// the demonstration payload; a handler that looks at the command takes this
/// function's place.
pub fn build_response(command: &SocketModeMessagePayload) -> (payload: Payload)
    ensures
        payload@ == demo_payload(),
        payload@.well_formed(),
        payload@.blocks.len() == 1,
{
    let button = Accessory {
        kind: "button".to_owned(),
        text: Text { kind: "plain_text".to_owned(), text: "Click Me.".to_owned() },
        value: "click-me".to_owned(),
        action_id: "button-action".to_owned(),
    };
    let section = Block {
        text: Text { kind: "mrkdwn".to_owned(), text: "hogehoge".to_owned() },
        kind: "section".to_owned(),
        accessory: Some(button),
    };
    let mut blocks: Vec<Block> = Vec::new();
    blocks.push(section);
    let payload = Payload {
        text: "".to_owned(),
        response_type: "ephemeral".to_owned(),
        blocks,
    };
    assert(payload@.blocks =~= demo_payload().blocks);
    payload
}

} // verus!
