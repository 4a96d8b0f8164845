use vstd::prelude::*;

use crate::inventory::Item;

verus! {

/// A message that should be shown to the player.
#[derive(Debug)]
pub enum Message {
    /// Free-form text.
    Text(String),
    /// The item that was just picked up.
    ItemPickup(Item),
    /// A successful combination: `src` used on `dst` gave `result`.
    ItemCombine { src: Item, dst: Item, result: Item },
    /// Two items that do not combine.
    InvalidItemCombination,
    /// An item used on something it does not work on.
    InvalidItemUsed,
}

/// What a message says, with items known by name.
pub enum MessageView {
    Text(Seq<char>),
    ItemPickup(Seq<char>),
    ItemCombine { src: Seq<char>, dst: Seq<char>, result: Seq<char> },
    InvalidItemCombination,
    InvalidItemUsed,
}

impl View for Message {
    type V = MessageView;

    open spec fn view(&self) -> MessageView {
        match self {
            Message::Text(t) => MessageView::Text(t@),
            Message::ItemPickup(i) => MessageView::ItemPickup(i@),
            Message::ItemCombine { src, dst, result } => MessageView::ItemCombine {
                src: src@,
                dst: dst@,
                result: result@,
            },
            Message::InvalidItemCombination => MessageView::InvalidItemCombination,
            Message::InvalidItemUsed => MessageView::InvalidItemUsed,
        }
    }
}

impl Message {
    /// A free-form text message.
    pub fn new(text: &str) -> (r: Message)
        ensures
            r@ == MessageView::Text(text@),
    {
        Message::Text(text.to_owned())
    }
}

impl Clone for Message {
    fn clone(&self) -> (r: Message)
        ensures
            r@ == self@,
    {
        match self {
            Message::Text(t) => Message::Text(t.clone()),
            Message::ItemPickup(i) => Message::ItemPickup(i.clone()),
            Message::ItemCombine { src, dst, result } => Message::ItemCombine {
                src: src.clone(),
                dst: dst.clone(),
                result: result.clone(),
            },
            Message::InvalidItemCombination => Message::InvalidItemCombination,
            Message::InvalidItemUsed => Message::InvalidItemUsed,
        }
    }
}

/// The event that carries a message to whatever displays it.
#[derive(Debug)]
pub struct NewMessage(pub Message);

} // verus!
