use crate::app_context::{AppContext, AppContextView};
use crate::chat::{ChatMessage, ChatMessageView};
use crate::peer::PeerId;
use crate::theme::Color;
use vstd::prelude::*;

verus! {

/// The colour in which the sender of a message is named.
#[derive(Clone, Copy, Debug, PartialEq, Eq, Structural)]
pub enum NameColor {
    /// The colour that the peer was given.
    Peer(Color),
    /// The colour of this side's own messages.
    Own,
}

/// The colour for the sender of `message` in the conversation with `id`:
/// the peer's own colour where the peer sent it, and this side's colour
/// otherwise. None where the peer sent it and has no colour.
pub open spec fn name_color(context: AppContextView, id: Seq<char>, message: ChatMessageView)
    -> Option<NameColor> {
    if message.sender == id {
        if context.message_colors.contains_key(id) {
            Some(NameColor::Peer(context.message_colors[id]))
        } else {
            None
        }
    } else {
        Some(NameColor::Own)
    }
}

/// The colour in which the sender of `message` is named in the conversation
/// with `id`.
pub fn sender_color(context: &AppContext, id: &PeerId, message: &ChatMessage) -> (color: Option<
    NameColor,
>)
    ensures
        color == name_color(context@, id@, message@),
{
    if message.sender.same(id) {
        match context.get_color(id) {
            Some(color) => Some(NameColor::Peer(*color)),
            None => None,
        }
    } else {
        Some(NameColor::Own)
    }
}

/// How many lines a panel with a border scrolls past, so that the last of
/// `lines` lines shows in an area `height` cells high: what does not fit
/// between the two border rows. The count of lines is cut to sixteen bits
/// first.
pub open spec fn scroll_for(lines: nat, height: u16) -> int {
    let shown = lines % 0x1_0000;
    let inner_height = height - 2;
    if shown > inner_height {
        shown - inner_height
    } else {
        0
    }
}

/// How many lines a panel with a border scrolls past to show the last of
/// its lines.
pub fn scroll_offset(lines: usize, height: u16) -> (scroll: u16)
    requires
        height >= 2,
    ensures
        scroll == scroll_for(lines as nat, height),
{
    let shown: u16 = (lines % 0x1_0000) as u16;
    let inner_height: u16 = height - 2;
    if shown > inner_height {
        shown - inner_height
    } else {
        0
    }
}

} // verus!
