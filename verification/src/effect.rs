use crate::chat::{ChatMessage, ChatMessageView};
use crate::peer::PeerId;
use vstd::prelude::*;

verus! {

/// What is left to do outside once a step of the interface is taken: at
/// most one request to the messaging engine, or one line for the log.
#[derive(Debug, PartialEq, Eq)]
pub enum Effect {
    /// Nothing.
    Nothing,
    /// Tell the engine that the connection from `peer` is authorised. A
    /// failure is of no consequence.
    Authorize { peer: PeerId },
    /// Have the engine drop the connection that was refused. A failure is
    /// a defect and ends the program.
    Reject { peer: PeerId },
    /// Have the engine close the conversation with `peer`. A failure is of
    /// no consequence.
    Disconnect { peer: PeerId },
    /// Have the engine connect to `address`. A failure is logged.
    Connect { address: String },
    /// Have the engine send `message`. A failure is logged.
    Send { message: ChatMessage },
    /// Log `text` as an error.
    LogError { text: String },
    /// Hand the connection that the listener accepted to the engine.
    Negotiate,
}

pub enum EffectView {
    Nothing,
    Authorize { peer: Seq<char> },
    Reject { peer: Seq<char> },
    Disconnect { peer: Seq<char> },
    Connect { address: Seq<char> },
    Send { message: ChatMessageView },
    LogError { text: Seq<char> },
    Negotiate,
}

impl View for Effect {
    type V = EffectView;

    open spec fn view(&self) -> EffectView {
        match self {
            Effect::Nothing => EffectView::Nothing,
            Effect::Authorize { peer } => EffectView::Authorize { peer: peer@ },
            Effect::Reject { peer } => EffectView::Reject { peer: peer@ },
            Effect::Disconnect { peer } => EffectView::Disconnect { peer: peer@ },
            Effect::Connect { address } => EffectView::Connect { address: address@ },
            Effect::Send { message } => EffectView::Send { message: message@ },
            Effect::LogError { text } => EffectView::LogError { text: text@ },
            Effect::Negotiate => EffectView::Negotiate,
        }
    }
}

} // verus!
