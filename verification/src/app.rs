use crate::app_context::{
    lemma_chats_keep_invariant, AppContext, AppContextView, ConnectionContext,
    ConnectionContextView,
};
use crate::chat::{ChatMessage, ChatMessageView};
use crate::effect::{Effect, EffectView};
use crate::input::allow_connection_input::{approval_step, AllowConnectionInput};
use crate::input::chat_input::{chat_step, ChatInput};
use crate::input::command_input::{palette_step, CommandInput};
use crate::input::InputView;
use crate::key::{Event, KeyCode};
use crate::peer::PeerId;
use crate::theme::{message_id_colors, Color};
use vstd::prelude::*;
use vstd::string::StringExecFns;

verus! {

/// Which side opened a connection.
#[derive(Clone, Copy, Debug, PartialEq, Eq, Structural)]
pub enum ConnectionDirection {
    Incoming,
    Outgoing,
}

/// What the messaging engine reports.
#[derive(Debug)]
pub enum NetworkEvent {
    NewConnection { peer: PeerId, direction: ConnectionDirection },
    Message { message: ChatMessage },
    ConnectionClosed { peer: PeerId },
}

pub enum NetworkEventView {
    NewConnection { peer: Seq<char>, direction: ConnectionDirection },
    Message { message: ChatMessageView },
    ConnectionClosed { peer: Seq<char> },
}

impl View for NetworkEvent {
    type V = NetworkEventView;

    open spec fn view(&self) -> NetworkEventView {
        match self {
            NetworkEvent::NewConnection { peer, direction } => NetworkEventView::NewConnection {
                peer: peer@,
                direction: *direction,
            },
            NetworkEvent::Message { message } => NetworkEventView::Message { message: message@ },
            NetworkEvent::ConnectionClosed { peer } => NetworkEventView::ConnectionClosed {
                peer: peer@,
            },
        }
    }
}

/// The one of the three sources that was ready first, with what it gave: a
/// terminal event, a report of the engine (or none), or a connection that
/// the listener accepted. A source that failed gives its error in words.
#[derive(Debug)]
pub enum Ready {
    Input { read: Result<Event, String> },
    Network { report: Result<Option<NetworkEvent>, String> },
    Accept { accepted: Result<(), String> },
}

pub enum ReadyView {
    Input { read: Result<Event, Seq<char>> },
    Network { report: Result<Option<NetworkEventView>, Seq<char>> },
    Accept { accepted: Result<(), Seq<char>> },
}

impl View for Ready {
    type V = ReadyView;

    open spec fn view(&self) -> ReadyView {
        match self {
            Ready::Input { read } => ReadyView::Input {
                read: match read {
                    Ok(event) => Ok(*event),
                    Err(error) => Err(error@),
                },
            },
            Ready::Network { report } => ReadyView::Network {
                report: match report {
                    Ok(Some(event)) => Ok(Some(event@)),
                    Ok(None) => Ok(None),
                    Err(error) => Err(error@),
                },
            },
            Ready::Accept { accepted } => ReadyView::Accept {
                accepted: match accepted {
                    Ok(_) => Ok(()),
                    Err(error) => Err(error@),
                },
            },
        }
    }
}

/// Who has the keyboard.
#[derive(Clone, Copy, Debug, PartialEq, Eq, Structural)]
pub enum Focus {
    /// The question whether to accept a connection.
    ConnectionApproval,
    /// The command window.
    CommandPalette,
    /// The line of the selected conversation.
    ChatEntry,
    /// None of them.
    Idle,
}

/// Who has the keyboard in a state: a pending connection before the command
/// window, the command window before a conversation.
pub open spec fn focus_of(context: AppContextView) -> Focus {
    if context.connection_context is Some {
        Focus::ConnectionApproval
    } else if context.show_command_popup {
        Focus::CommandPalette
    } else if context.chat_list.current_index is Some {
        Focus::ChatEntry
    } else {
        Focus::Idle
    }
}

/// What a terminal event does while nobody has the keyboard: Control-C asks
/// to quit, Control-K and Control-H toggle the command and the welcome
/// window, Esc hides both.
pub open spec fn idle_step(context: AppContextView, event: Event) -> AppContextView {
    match event {
        Event::Other => context,
        Event::Key(key) => match key.code {
            KeyCode::Char(_) => if key.is_control_char('c') {
                AppContextView { should_quit: true, ..context }
            } else if key.is_control_char('k') {
                context.toggle_command_popup()
            } else if key.is_control_char('h') {
                context.toggle_welcome_popup()
            } else {
                context
            },
            KeyCode::Esc => AppContextView {
                show_welcome_popup: false,
                show_command_popup: false,
                ..context
            },
            _ => context,
        },
    }
}

/// The interface as a whole: the state and the two lines under edit.
pub struct AppView {
    pub context: AppContextView,
    pub chat_input: InputView,
    pub command_input: InputView,
}

impl AppView {
    /// The interface at the start: the first state, an empty line for the
    /// conversations and an empty line behind the prompt of the command
    /// window.
    pub open spec fn initial(id: Seq<char>, onion_service_address: Seq<char>) -> AppView {
        AppView {
            context: AppContextView::initial(id, onion_service_address),
            chat_input: InputView::with_prompt(Seq::empty()),
            command_input: InputView::with_prompt(":> "@),
        }
    }

    pub open spec fn wf(self) -> bool {
        &&& self.chat_input.wf()
        &&& self.command_input.wf()
    }

    /// What a terminal event does: it goes to the one that has the
    /// keyboard, and to nobody else. `now` is the second in which it
    /// happens, and `color` the colour that chance gives a peer who is
    /// accepted.
    pub open spec fn input_step(self, event: Event, now: int, color: Color) -> (
        AppView,
        EffectView,
    ) {
        match focus_of(self.context) {
            Focus::ConnectionApproval => {
                let (context, effect) = approval_step(self.context, event, color);
                (AppView { context, ..self }, effect)
            },
            Focus::CommandPalette => {
                let (context, command_input, effect) = palette_step(
                    self.context,
                    self.command_input,
                    event,
                );
                (AppView { context, command_input, ..self }, effect)
            },
            Focus::ChatEntry => {
                let (context, chat_input, effect) = chat_step(
                    self.context,
                    self.chat_input,
                    event,
                    now,
                );
                (AppView { context, chat_input, ..self }, effect)
            },
            Focus::Idle => (
                AppView { context: idle_step(self.context, event), ..self },
                EffectView::Nothing,
            ),
        }
    }
}

/// What a report of the engine does to the state. `color` is the colour
/// that chance gives the peer of a connection that this side opened.
///
/// A connection that a peer opened becomes the pending question, unless
/// one is pending already. One that this side opened gets its conversation
/// at once. A message joins the conversation with its sender, and is
/// dropped where there is none. A closed connection ends the conversation.
pub open spec fn network_step(context: AppContextView, event: NetworkEventView, color: Color)
    -> AppContextView {
    match event {
        NetworkEventView::NewConnection { peer, direction } => match direction {
            ConnectionDirection::Incoming => if context.connection_context is None {
                AppContextView {
                    connection_context: Some(
                        ConnectionContextView { connection_address: peer, accept_selected: true },
                    ),
                    ..context
                }
            } else {
                context
            },
            ConnectionDirection::Outgoing => context.add_new_chat(peer, color),
        },
        NetworkEventView::Message { message } => context.add_message(message.sender, message),
        NetworkEventView::ConnectionClosed { peer } => context.remove_chat(peer),
    }
}

/// The peer whose colour a report of the engine sets, if it sets one.
pub open spec fn colored_peer(event: NetworkEventView) -> Seq<char> {
    match event {
        NetworkEventView::NewConnection { peer, .. } => peer,
        _ => Seq::empty(),
    }
}

/// What one turn of the event loop does with what was ready, or the error
/// that ends the loop. Only an error of the engine's reports ends it; a
/// failed read and a failed accept are logged.
pub open spec fn ready_step(app: AppView, ready: ReadyView, now: int, color: Color) -> Result<
    (AppView, EffectView),
    Seq<char>,
> {
    match ready {
        ReadyView::Input { read } => match read {
            Ok(event) => Ok(app.input_step(event, now, color)),
            Err(error) => Ok(
                (app, EffectView::LogError { text: "Error reading input: "@ + error }),
            ),
        },
        ReadyView::Network { report } => match report {
            Ok(Some(event)) => Ok(
                (
                    AppView { context: network_step(app.context, event, color), ..app },
                    EffectView::Nothing,
                ),
            ),
            Ok(None) => Ok((app, EffectView::Nothing)),
            Err(error) => Err(error),
        },
        ReadyView::Accept { accepted } => match accepted {
            Ok(_) => Ok((app, EffectView::Negotiate)),
            Err(error) => Ok((app, EffectView::LogError { text: "Error in accept: "@ + error })),
        },
    }
}

/// The peer whose colour one turn of the event loop sets, if it sets one:
/// the peer that is accepted, or the peer that this side connected to.
pub open spec fn colored_in_turn(app: AppView, ready: ReadyView) -> Seq<char> {
    match ready {
        ReadyView::Input { .. } => app.context.connection_context->0.connection_address,
        ReadyView::Network { report } => match report {
            Ok(Some(event)) => colored_peer(event),
            _ => Seq::empty(),
        },
        ReadyView::Accept { .. } => Seq::empty(),
    }
}

/// The interface: the state, the two lines under edit, and the keyboard of
/// the connection question.
pub struct App {
    pub context: AppContext,
    pub chat_input: ChatInput,
    pub command_input: CommandInput,
    pub allow_connection_input: AllowConnectionInput,
}

impl View for App {
    type V = AppView;

    open spec fn view(&self) -> AppView {
        AppView {
            context: self.context@,
            chat_input: self.chat_input@,
            command_input: self.command_input@,
        }
    }
}

impl App {
    /// The interface at the start, for the service `id` at
    /// `onion_service_address`.
    pub fn new(id: PeerId, onion_service_address: String) -> (app: Self)
        ensures
            app@.context.inv(),
            app@ == AppView::initial(id@, onion_service_address@),
            focus_of(app@.context) == Focus::Idle,
    {
        App {
            context: AppContext::new(id, onion_service_address),
            chat_input: ChatInput::new(),
            command_input: CommandInput::new(),
            allow_connection_input: AllowConnectionInput::new(),
        }
    }

    /// Who has the keyboard.
    pub fn focus(&self) -> (focus: Focus)
        ensures
            focus == focus_of(self@.context),
    {
        if self.context.connection_context.is_some() {
            Focus::ConnectionApproval
        } else if self.context.show_command_popup {
            Focus::CommandPalette
        } else if self.context.chat_list.current_index().is_some() {
            Focus::ChatEntry
        } else {
            Focus::Idle
        }
    }

    /// Hands a terminal event to the one that has the keyboard. `now` is the
    /// second in which it happens.
    pub fn handle_input_event(&mut self, event: Event, now: i64) -> (effect: Effect)
        ensures
            (final(self)@, effect@) == old(self)@.input_step(
                event,
                now as int,
                final(self)@.context.message_colors[old(
                    self,
                )@.context.connection_context->0.connection_address],
            ),
            effect is Authorize ==> message_id_colors().contains(
                final(self)@.context.message_colors[old(
                    self,
                )@.context.connection_context->0.connection_address],
            ),
            old(self)@.context.inv() ==> final(self)@.context.inv(),
    {
        match self.focus() {
            Focus::ConnectionApproval => self.allow_connection_input.handle_input_event(
                event,
                &mut self.context,
            ),
            Focus::CommandPalette => self.command_input.handle_input_event(
                event,
                &mut self.context,
            ),
            Focus::ChatEntry => self.chat_input.handle_input_event(event, &mut self.context, now),
            Focus::Idle => {
                match event {
                    Event::Key(key) => {
                        match key.code {
                            KeyCode::Char(_) => {
                                if key.is_control_char('c') {
                                    self.context.should_quit = true;
                                } else if key.is_control_char('k') {
                                    self.context.toggle_command_popup();
                                } else if key.is_control_char('h') {
                                    self.context.toggle_welcome_popup();
                                }
                            },
                            KeyCode::Esc => {
                                self.context.show_welcome_popup = false;
                                self.context.show_command_popup = false;
                            },
                            _ => {},
                        }
                    },
                    Event::Other => {},
                }
                Effect::Nothing
            },
        }
    }

    /// Takes a report of the engine into the state.
    pub fn handle_network_event(&mut self, event: NetworkEvent)
        ensures
            final(self)@ == (AppView {
                context: network_step(
                    old(self)@.context,
                    event@,
                    final(self)@.context.message_colors[colored_peer(event@)],
                ),
                ..old(self)@
            }),
            event matches NetworkEvent::NewConnection {
                direction: ConnectionDirection::Outgoing,
                ..
            } ==> message_id_colors().contains(
                final(self)@.context.message_colors[colored_peer(event@)],
            ),
            old(self)@.context.inv() ==> final(self)@.context.inv(),
    {
        match event {
            NetworkEvent::NewConnection { peer, direction } => {
                match direction {
                    ConnectionDirection::Incoming => {
                        if self.context.connection_context.is_none() {
                            self.context.connection_context = Some(ConnectionContext::new(&peer));
                        }
                    },
                    ConnectionDirection::Outgoing => {
                        self.context.add_new_chat(&peer);
                    },
                }
            },
            NetworkEvent::Message { message } => {
                let sender = message.sender.clone();
                self.context.add_message(&sender, message);
            },
            NetworkEvent::ConnectionClosed { peer } => {
                self.context.remove_chat(&peer);
            },
        }
    }

    /// One turn of the event loop, once one of the sources was ready: takes
    /// what it gave into the state and says what is left to do outside. An
    /// error of the engine's reports comes back as it is and ends the loop.
    /// `now` is the second in which the turn happens.
    pub fn handle_events(&mut self, ready: Ready, now: i64) -> (outcome: Result<Effect, String>)
        ensures
            match ready_step(
                old(self)@,
                ready@,
                now as int,
                final(self)@.context.message_colors[colored_in_turn(old(self)@, ready@)],
            ) {
                Ok((app, effect)) => outcome matches Ok(e) && e@ == effect && final(self)@ == app,
                Err(error) => outcome matches Err(e) && e@ == error && final(self)@ == old(self)@,
            },
            old(self)@.context.inv() ==> final(self)@.context.inv(),
    {
        match ready {
            Ready::Input { read } => match read {
                Ok(event) => Ok(self.handle_input_event(event, now)),
                Err(error) => {
                    let mut text = String::from_str("Error reading input: ");
                    text.append(error.as_str());
                    Ok(Effect::LogError { text })
                },
            },
            Ready::Network { report } => match report {
                Ok(Some(event)) => {
                    self.handle_network_event(event);
                    Ok(Effect::Nothing)
                },
                Ok(None) => Ok(Effect::Nothing),
                Err(error) => Err(error),
            },
            Ready::Accept { accepted } => match accepted {
                Ok(_) => Ok(Effect::Negotiate),
                Err(error) => {
                    let mut text = String::from_str("Error in accept: ");
                    text.append(error.as_str());
                    Ok(Effect::LogError { text })
                },
            },
        }
    }
}

/// While a connection waits for its answer, a terminal event goes to that
/// question alone, whatever windows are shown: neither line under edit
/// changes, no window opens or closes, and the selected tab stays unless the
/// peer is accepted.
pub proof fn lemma_pending_connection_owns_keys(app: AppView, event: Event, now: int, color: Color)
    requires
        app.context.connection_context is Some,
    ensures
        focus_of(app.context) == Focus::ConnectionApproval,
        app.input_step(event, now, color).0.chat_input == app.chat_input,
        app.input_step(event, now, color).0.command_input == app.command_input,
        app.input_step(event, now, color).0.context.show_command_popup
            == app.context.show_command_popup,
        app.input_step(event, now, color).0.context.show_welcome_popup
            == app.context.show_welcome_popup,
        app.input_step(event, now, color).0.context == approval_step(app.context, event, color).0,
        app.input_step(event, now, color).1 == approval_step(app.context, event, color).1,
        !(app.input_step(event, now, color).1 is Authorize) ==> app.input_step(
            event,
            now,
            color,
        ).0.context.chat_list == app.context.chat_list && app.input_step(
            event,
            now,
            color,
        ).0.context.chats == app.context.chats,
{
}

/// What holds of the state between two steps holds after every step: after
/// a terminal event, whoever has the keyboard, and after a report of the
/// engine. The two lines under edit keep their cursors in bounds.
pub proof fn lemma_steps_keep_invariant(
    app: AppView,
    event: Event,
    report: NetworkEventView,
    now: int,
    color: Color,
)
    requires
        app.wf(),
        app.context.inv(),
    ensures
        app.input_step(event, now, color).0.wf(),
        app.input_step(event, now, color).0.context.inv(),
        network_step(app.context, report, color).inv(),
{
    let context = app.context;
    match report {
        NetworkEventView::NewConnection { peer, .. } => {
            lemma_chats_keep_invariant(context, peer, color, arbitrary());
        },
        NetworkEventView::Message { message } => {
            lemma_chats_keep_invariant(context, message.sender, color, message);
        },
        NetworkEventView::ConnectionClosed { peer } => {
            lemma_chats_keep_invariant(context, peer, color, arbitrary());
        },
    }
    match focus_of(context) {
        Focus::ConnectionApproval => {
            let peer = context.connection_context->0.connection_address;
            lemma_chats_keep_invariant(context, peer, color, arbitrary());
        },
        Focus::CommandPalette => {},
        Focus::ChatEntry => {
            let peer = context.chat_list.current()->0;
            let line = app.chat_input.taken()->0;
            let message = ChatMessageView {
                date: now,
                sender: context.id,
                recipient: peer,
                message: line,
            };
            lemma_chats_keep_invariant(context, peer, color, message);
        },
        Focus::Idle => {},
    }
}

/// Exactly one has the keyboard, by the order of precedence: a pending
/// connection, then the command window, then a selected conversation.
pub proof fn lemma_focus_precedence(context: AppContextView)
    ensures
        focus_of(context) == Focus::ConnectionApproval <==> context.connection_context is Some,
        focus_of(context) == Focus::CommandPalette <==> context.connection_context is None
            && context.show_command_popup,
        focus_of(context) == Focus::ChatEntry <==> context.connection_context is None
            && !context.show_command_popup && context.chat_list.current_index is Some,
        focus_of(context) == Focus::Idle <==> context.connection_context is None
            && !context.show_command_popup && context.chat_list.current_index is None,
{
}

} // verus!
