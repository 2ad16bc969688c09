use crate::app_context::{AppContext, AppContextView, ConnectionContext, ConnectionContextView};
use crate::effect::{Effect, EffectView};
use crate::key::{Event, KeyCode};
use crate::theme::{message_id_colors, Color};
use vstd::prelude::*;

verus! {

/// The keyboard while the user is asked whether to accept a connection.
#[derive(Debug)]
pub struct AllowConnectionInput {}

/// The state with another answer selected in the pending question.
pub open spec fn with_answer(context: AppContextView, accept_selected: bool) -> AppContextView {
    AppContextView {
        connection_context: Some(
            ConnectionContextView {
                connection_address: context.connection_context->0.connection_address,
                accept_selected,
            },
        ),
        ..context
    }
}

/// What a terminal event does while a connection waits for its answer.
/// `color` is the colour that chance gives the peer if it is accepted.
///
/// Left, Right and Tab select the other answer, Esc selects "reject", and
/// Enter gives the selected answer: the peer gets a conversation and the
/// engine is told so, or the engine is told to drop the peer. Control-C
/// asks to quit.
pub open spec fn approval_step(context: AppContextView, event: Event, color: Color) -> (
    AppContextView,
    EffectView,
) {
    let pending = context.connection_context->0;
    let peer = pending.connection_address;
    match event {
        Event::Other => (context, EffectView::Nothing),
        Event::Key(key) => match key.code {
            KeyCode::Char(_) => if key.is_control_char('c') {
                (AppContextView { should_quit: true, ..context }, EffectView::Nothing)
            } else {
                (context, EffectView::Nothing)
            },
            KeyCode::Esc => (with_answer(context, false), EffectView::Nothing),
            KeyCode::Enter => if pending.accept_selected {
                (
                    AppContextView {
                        connection_context: None,
                        ..context.add_new_chat(peer, color)
                    },
                    EffectView::Authorize { peer },
                )
            } else {
                (AppContextView { connection_context: None, ..context }, EffectView::Reject { peer })
            },
            KeyCode::Left | KeyCode::Right | KeyCode::Tab => (
                with_answer(context, !pending.accept_selected),
                EffectView::Nothing,
            ),
            _ => (context, EffectView::Nothing),
        },
    }
}

impl AllowConnectionInput {
    pub fn new() -> Self {
        AllowConnectionInput {  }
    }

    /// Takes one terminal event while a connection waits for its answer.
    pub fn handle_input_event(&mut self, event: Event, context: &mut AppContext) -> (effect: Effect)
        requires
            old(context)@.connection_context is Some,
        ensures
            (final(context)@, effect@) == approval_step(
                old(context)@,
                event,
                final(context)@.message_colors[old(
                    context,
                )@.connection_context->0.connection_address],
            ),
            effect is Authorize ==> message_id_colors().contains(
                final(context)@.message_colors[old(
                    context,
                )@.connection_context->0.connection_address],
            ),
            old(context)@.inv() ==> final(context)@.inv(),
    {
        match event {
            Event::Key(key) => {
                match key.code {
                    KeyCode::Char(_) => {
                        if key.is_control_char('c') {
                            context.should_quit = true;
                        }
                        Effect::Nothing
                    },
                    KeyCode::Esc => {
                        match context.connection_context.take() {
                            Some(pending) => {
                                context.connection_context = Some(
                                    ConnectionContext {
                                        connection_address: pending.connection_address,
                                        accept_selected: false,
                                    },
                                );
                            },
                            None => {},
                        }
                        Effect::Nothing
                    },
                    KeyCode::Enter => {
                        match context.connection_context.take() {
                            Some(pending) => {
                                let peer = pending.connection_address;
                                if pending.accept_selected {
                                    context.add_new_chat(&peer);
                                    Effect::Authorize { peer }
                                } else {
                                    Effect::Reject { peer }
                                }
                            },
                            None => Effect::Nothing,
                        }
                    },
                    KeyCode::Left | KeyCode::Right | KeyCode::Tab => {
                        match context.connection_context.take() {
                            Some(pending) => {
                                context.connection_context = Some(
                                    ConnectionContext {
                                        connection_address: pending.connection_address,
                                        accept_selected: !pending.accept_selected,
                                    },
                                );
                            },
                            None => {},
                        }
                        Effect::Nothing
                    },
                    _ => Effect::Nothing,
                }
            },
            Event::Other => Effect::Nothing,
        }
    }
}

} // verus!
