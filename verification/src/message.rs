//! What travels over the channel between players: the envelope, and the
//! position and emote reports carried in it.

use crate::input::Input;
use vstd::prelude::*;

verus! {

/// What an envelope announces.
#[derive(Clone, Copy, Debug, PartialEq, Eq, Structural)]
pub enum MessageType {
    Message,
    Join,
    Left,
}

/// The envelope of everything sent over the channel. `message` is text
/// that often holds an encoded report of its own.
#[derive(Debug)]
pub struct ChannelMessage {
    pub user_name: String,
    pub message_type: MessageType,
    pub message: String,
}

/// Mathematical value of a `ChannelMessage`.
pub struct ChannelMessageView {
    pub user_name: Seq<char>,
    pub message_type: MessageType,
    pub message: Seq<char>,
}

impl View for ChannelMessage {
    type V = ChannelMessageView;

    open spec fn view(&self) -> ChannelMessageView {
        ChannelMessageView {
            user_name: self.user_name@,
            message_type: self.message_type,
            message: self.message@,
        }
    }
}

impl Clone for ChannelMessage {
    fn clone(&self) -> (copy: Self)
        ensures
            copy@ == self@,
    {
        ChannelMessage {
            user_name: self.user_name.clone(),
            message_type: self.message_type,
            message: self.message.clone(),
        }
    }
}

/// Where a player stands, which way the player looks, and on which map.
#[derive(Debug)]
pub struct PositionMessage {
    pub user_name: String,
    pub direction: Input,
    pub position_x: i32,
    pub position_y: i32,
    pub map_index: usize,
}

/// Mathematical value of a `PositionMessage`.
pub struct PositionMessageView {
    pub user_name: Seq<char>,
    pub direction: Input,
    pub position_x: i32,
    pub position_y: i32,
    pub map_index: usize,
}

impl View for PositionMessage {
    type V = PositionMessageView;

    open spec fn view(&self) -> PositionMessageView {
        PositionMessageView {
            user_name: self.user_name@,
            direction: self.direction,
            position_x: self.position_x,
            position_y: self.position_y,
            map_index: self.map_index,
        }
    }
}

impl Clone for PositionMessage {
    fn clone(&self) -> (copy: Self)
        ensures
            copy@ == self@,
    {
        PositionMessage {
            user_name: self.user_name.clone(),
            direction: self.direction,
            position_x: self.position_x,
            position_y: self.position_y,
            map_index: self.map_index,
        }
    }
}

/// Views of a sequence of position reports, element by element.
pub open spec fn positions_view(reports: Seq<PositionMessage>) -> Seq<PositionMessageView> {
    reports.map_values(|r: PositionMessage| r@)
}

/// An emote shown above a player.
#[derive(Debug)]
pub struct EmoteMessage {
    pub user_name: String,
    pub position_x: i32,
    pub position_y: i32,
    pub map_index: usize,
    pub emote: String,
}

/// Mathematical value of an `EmoteMessage`.
pub struct EmoteMessageView {
    pub user_name: Seq<char>,
    pub position_x: i32,
    pub position_y: i32,
    pub map_index: usize,
    pub emote: Seq<char>,
}

impl View for EmoteMessage {
    type V = EmoteMessageView;

    open spec fn view(&self) -> EmoteMessageView {
        EmoteMessageView {
            user_name: self.user_name@,
            position_x: self.position_x,
            position_y: self.position_y,
            map_index: self.map_index,
            emote: self.emote@,
        }
    }
}

impl Clone for EmoteMessage {
    fn clone(&self) -> (copy: Self)
        ensures
            copy@ == self@,
    {
        EmoteMessage {
            user_name: self.user_name.clone(),
            position_x: self.position_x,
            position_y: self.position_y,
            map_index: self.map_index,
            emote: self.emote.clone(),
        }
    }
}

/// A report that waits to be sent. The caller encodes it when the
/// transport takes it.
#[derive(Debug)]
pub enum OutboundMessage {
    Position(PositionMessage),
    Emote(EmoteMessage),
}

/// Mathematical value of an `OutboundMessage`.
pub enum OutboundMessageView {
    Position(PositionMessageView),
    Emote(EmoteMessageView),
}

impl View for OutboundMessage {
    type V = OutboundMessageView;

    open spec fn view(&self) -> OutboundMessageView {
        match self {
            OutboundMessage::Position(report) => OutboundMessageView::Position(report@),
            OutboundMessage::Emote(emote) => OutboundMessageView::Emote(emote@),
        }
    }
}

/// Views of a sequence of waiting reports, element by element.
pub open spec fn outbound_view(queue: Seq<OutboundMessage>) -> Seq<OutboundMessageView> {
    queue.map_values(|m: OutboundMessage| m@)
}

/// What the text of an envelope turned out to hold.
#[derive(Debug)]
pub enum Payload {
    Emote(EmoteMessage),
    Position(PositionMessage),
    Channel(ChannelMessage),
    Unreadable,
}

/// Mathematical value of a `Payload`.
pub enum PayloadView {
    Emote(EmoteMessageView),
    Position(PositionMessageView),
    Channel(ChannelMessageView),
    Unreadable,
}

impl View for Payload {
    type V = PayloadView;

    open spec fn view(&self) -> PayloadView {
        match self {
            Payload::Emote(emote) => PayloadView::Emote(emote@),
            Payload::Position(report) => PayloadView::Position(report@),
            Payload::Channel(envelope) => PayloadView::Channel(envelope@),
            Payload::Unreadable => PayloadView::Unreadable,
        }
    }
}

/// The reading of a text that was tried as each of the three shapes: an
/// emote wins over a position report, and a position report over an
/// envelope; a text that is none of them is unreadable.
pub open spec fn payload_of(
    emote: Option<EmoteMessageView>,
    position: Option<PositionMessageView>,
    channel: Option<ChannelMessageView>,
) -> PayloadView {
    match emote {
        Some(e) => PayloadView::Emote(e),
        None => match position {
            Some(p) => PayloadView::Position(p),
            None => match channel {
                Some(c) => PayloadView::Channel(c),
                None => PayloadView::Unreadable,
            },
        },
    }
}

impl Payload {
    /// Settles what a text holds from the three attempts to read it.
    pub fn classify(
        emote: Option<EmoteMessage>,
        position: Option<PositionMessage>,
        channel: Option<ChannelMessage>,
    ) -> (payload: Payload)
        ensures
            payload@ == payload_of(
                match emote {
                    Some(e) => Some(e@),
                    None => None,
                },
                match position {
                    Some(p) => Some(p@),
                    None => None,
                },
                match channel {
                    Some(c) => Some(c@),
                    None => None,
                },
            ),
    {
        match emote {
            Some(e) => Payload::Emote(e),
            None => match position {
                Some(p) => Payload::Position(p),
                None => match channel {
                    Some(c) => Payload::Channel(c),
                    None => Payload::Unreadable,
                },
            },
        }
    }
}

/// The most layers of text encoding that are taken off an envelope's text.
pub const MAX_NESTING: usize = 8;

/// The text that a JSON document holds, where the document is one JSON
/// string; `None` for every other document and for what is no JSON.
pub uninterp spec fn json_string_value(document: Seq<char>) -> Option<Seq<char>>;

/// The text after up to `budget` layers of string encoding were taken off;
/// `None` where a layer is left when the budget is spent.
pub open spec fn unwrapped(text: Seq<char>, budget: nat) -> Option<Seq<char>>
    decreases budget,
{
    match json_string_value(text) {
        None => Some(text),
        Some(inner) => if budget == 0 {
            None
        } else {
            unwrapped(inner, (budget - 1) as nat)
        },
    }
}

/// Reads `document` as a JSON string.
///
/// Calls `serde_json::from_str::<String>`. The contract names the decoded
/// text `json_string_value(document)` and claims nothing of what it holds:
/// a decoded text on success, none on any error.
#[verifier::external_body]
fn decode_json_string(document: &str) -> (decoded: Option<String>)
    ensures
        decoded matches Some(text) ==> json_string_value(document@) == Some(text@),
        decoded is None ==> json_string_value(document@) is None,
{
    match serde_json::from_str::<String>(document) {
        Ok(text) => Some(text),
        Err(_) => None,
    }
}

/// What is known of a text after one attempt to read it as an encoded
/// string.
#[derive(Debug)]
pub enum Layer {
    /// The text is no encoded string: it is the plain text.
    Plain(String),
    /// The text is an encoded string that holds the given text.
    Nested(String),
    /// The text is an encoded string, and no more layers are taken off.
    TooDeep,
}

/// Mathematical value of a `Layer`.
pub enum LayerView {
    Plain(Seq<char>),
    Nested(Seq<char>),
    TooDeep,
}

impl View for Layer {
    type V = LayerView;

    open spec fn view(&self) -> LayerView {
        match self {
            Layer::Plain(text) => LayerView::Plain(text@),
            Layer::Nested(text) => LayerView::Nested(text@),
            Layer::TooDeep => LayerView::TooDeep,
        }
    }
}

/// What to do with `text` once it was tried as an encoded string, with
/// `decoded` as what it holds if it is one, after `layers` layers were taken
/// off before: a text that is no encoded string is the plain text; an
/// encoded string is unwrapped further unless `MAX_NESTING` layers were
/// taken off already.
pub open spec fn layer_of(text: Seq<char>, decoded: Option<Seq<char>>, layers: usize) -> LayerView {
    match decoded {
        None => LayerView::Plain(text),
        Some(inner) => if layers >= MAX_NESTING {
            LayerView::TooDeep
        } else {
            LayerView::Nested(inner)
        },
    }
}

/// Decides what to do with `text` once it was tried as an encoded string.
pub fn unwrap_layer(text: String, decoded: Option<String>, layers: usize) -> (layer: Layer)
    ensures
        layer@ == layer_of(
            text@,
            match decoded {
                Some(inner) => Some(inner@),
                None => None,
            },
            layers,
        ),
{
    match decoded {
        None => Layer::Plain(text),
        Some(inner) => if layers >= MAX_NESTING {
            Layer::TooDeep
        } else {
            Layer::Nested(inner)
        },
    }
}

/// Takes the layers of string encoding off an envelope's text: while the
/// text is itself an encoded string, it is replaced by what it holds. At
/// most `MAX_NESTING` layers are taken off; a text nested deeper is given
/// up with `None`.
pub fn unwrap_nested_json(message: String) -> (plain: Option<String>)
    ensures
        match plain {
            Some(text) => unwrapped(message@, MAX_NESTING as nat) == Some(text@),
            None => unwrapped(message@, MAX_NESTING as nat) is None,
        },
{
    let mut text = message;
    let mut layers: usize = 0;
    loop
        invariant
            layers <= MAX_NESTING,
            unwrapped(message@, MAX_NESTING as nat) == unwrapped(
                text@,
                (MAX_NESTING - layers) as nat,
            ),
        decreases MAX_NESTING - layers,
    {
        let decoded = decode_json_string(text.as_str());
        match unwrap_layer(text, decoded, layers) {
            Layer::Plain(plain) => {
                return Some(plain);
            },
            Layer::TooDeep => {
                return None;
            },
            Layer::Nested(inner) => {
                text = inner;
                layers += 1;
            },
        }
    }
}

} // verus!
