//! The emoji, colours and links that the messages use.

use crate::text::{decimal, push_decimal};
use vstd::prelude::*;

pub mod colors;
pub mod icon;
pub mod links;

verus! {

/// An emoji that the application has uploaded, known by its id.
#[derive(Clone, Copy, PartialEq, Eq, Structural, Debug)]
pub struct CustomEmoji {
    pub id: u64,
}

/// How an emoji with the id `id` is written in a message.
pub open spec fn emoji_text(id: u64) -> Seq<char> {
    "<:_:"@ + decimal(id as nat) + ">"@
}

impl CustomEmoji {
    /// The emoji with the id `id`.
    pub fn new(id: u64) -> (emoji: CustomEmoji)
        ensures
            emoji.id == id,
    {
        CustomEmoji { id }
    }

    /// The emoji as it is written in a message.
    pub fn as_str(&self) -> (text: String)
        ensures
            text@ == emoji_text(self.id),
    {
        let mut text = String::from_str("<:_:");
        push_decimal(&mut text, self.id);
        text.append(">");
        text
    }
}

} // verus!
