use voynich_term::app::{App, ConnectionDirection, Focus, NetworkEvent, Ready};
use voynich_term::app_context::{AppContext, ConnectionContext};
use voynich_term::chat::ChatMessage;
use voynich_term::commands::Command;
use voynich_term::effect::Effect;
use voynich_term::input::allow_connection_input::AllowConnectionInput;
use voynich_term::input::chat_input::ChatInput;
use voynich_term::input::command_input::CommandInput;
use voynich_term::key::{Event, KeyCode, KeyEvent, KeyModifiers};
use voynich_term::peer::PeerId;
use voynich_term::theme::palette;

const NOW: i64 = 1_700_000_000;

fn peer(name: &str) -> PeerId {
    PeerId::new(name.to_string())
}

fn app() -> App {
    App::new(peer("me"), "me.onion:3000".to_string())
}

fn key(code: KeyCode) -> Event {
    Event::Key(KeyEvent { code, modifiers: KeyModifiers::none() })
}

fn ctrl(code: KeyCode) -> Event {
    Event::Key(KeyEvent { code, modifiers: KeyModifiers::control() })
}

fn shift_ctrl(code: KeyCode) -> Event {
    let mut modifiers = KeyModifiers::control();
    modifiers.shift = true;
    Event::Key(KeyEvent { code, modifiers })
}

fn type_text(app: &mut App, text: &str) {
    for c in text.chars() {
        assert_eq!(app.handle_input_event(key(KeyCode::Char(c)), NOW), Effect::Nothing);
    }
}

fn tabs(context: &AppContext) -> Vec<String> {
    context.chat_list.names().iter().map(|id| id.as_str().to_string()).collect()
}

fn incoming(name: &str) -> NetworkEvent {
    NetworkEvent::NewConnection { peer: peer(name), direction: ConnectionDirection::Incoming }
}

fn outgoing(name: &str) -> NetworkEvent {
    NetworkEvent::NewConnection { peer: peer(name), direction: ConnectionDirection::Outgoing }
}

#[test]
fn key_modifiers_control_only() {
    assert!(KeyModifiers::control().is_control_only());
    assert!(!KeyModifiers::none().is_control_only());
    let mut modifiers = KeyModifiers::control();
    modifiers.alt = true;
    assert!(!modifiers.is_control_only());
    let event = KeyEvent { code: KeyCode::Char('c'), modifiers };
    assert!(event.is_control_char('c'));
    assert!(!event.is_control_char('k'));
    let plain = KeyEvent { code: KeyCode::Char('c'), modifiers: KeyModifiers::none() };
    assert!(!plain.is_control_char('c'));
    let enter = KeyEvent { code: KeyCode::Enter, modifiers: KeyModifiers::control() };
    assert!(!enter.is_control_char('c'));
}

#[test]
fn new_app_is_idle() {
    let app = app();
    assert_eq!(app.focus(), Focus::Idle);
    assert_eq!(app.chat_input.get_input(), "");
    assert_eq!(app.command_input.get_input(), ":> ");
    assert_eq!(app.command_input.cursor_location(80), (3, 0));
    assert_eq!(app.chat_input.cursor_location(80), (0, 0));
}

#[test]
fn idle_ignores_ordinary_keys() {
    let mut app = app();
    type_text(&mut app, "hello");
    assert_eq!(app.handle_input_event(key(KeyCode::Enter), NOW), Effect::Nothing);
    assert_eq!(app.handle_input_event(Event::Other, NOW), Effect::Nothing);
    assert_eq!(app.chat_input.get_input(), "");
    assert_eq!(app.command_input.get_input(), ":> ");
    assert!(!app.context.should_quit);
}

#[test]
fn idle_control_c_quits() {
    let mut app = app();
    assert_eq!(app.handle_input_event(ctrl(KeyCode::Char('c')), NOW), Effect::Nothing);
    assert!(app.context.should_quit);
}

#[test]
fn idle_control_k_opens_the_palette_and_closes_welcome() {
    let mut app = app();
    app.handle_input_event(ctrl(KeyCode::Char('h')), NOW);
    assert!(app.context.show_welcome_popup);
    assert_eq!(app.focus(), Focus::Idle);
    app.handle_input_event(ctrl(KeyCode::Char('k')), NOW);
    assert!(app.context.show_command_popup);
    assert!(!app.context.show_welcome_popup);
    assert_eq!(app.focus(), Focus::CommandPalette);
}

#[test]
fn idle_escape_closes_the_welcome_popup() {
    let mut app = app();
    app.handle_input_event(ctrl(KeyCode::Char('h')), NOW);
    app.handle_input_event(key(KeyCode::Esc), NOW);
    assert!(!app.context.show_welcome_popup);
    assert!(!app.context.show_command_popup);
}

#[test]
fn palette_connect_then_enter_asks_the_engine_to_connect() {
    let mut app = app();
    app.handle_input_event(ctrl(KeyCode::Char('k')), NOW);
    type_text(&mut app, "connect abc123");
    assert_eq!(app.command_input.get_input(), ":> connect abc123");
    let effect = app.handle_input_event(key(KeyCode::Enter), NOW);
    assert_eq!(effect, Effect::Connect { address: "abc123".to_string() });
    assert!(!app.context.show_command_popup);
    assert_eq!(app.command_input.get_input(), ":> ");
    assert_eq!(app.command_input.cursor_location(80), (3, 0));
    assert!(!app.context.should_quit);
    assert_eq!(app.focus(), Focus::Idle);
}

#[test]
fn palette_quit_sets_the_quit_flag() {
    let mut app = app();
    app.handle_input_event(ctrl(KeyCode::Char('k')), NOW);
    type_text(&mut app, "quit");
    assert_eq!(app.handle_input_event(key(KeyCode::Enter), NOW), Effect::Nothing);
    assert!(app.context.should_quit);
    assert!(!app.context.show_command_popup);
}

#[test]
fn palette_unknown_command_is_reported() {
    let mut app = app();
    app.handle_input_event(ctrl(KeyCode::Char('k')), NOW);
    type_text(&mut app, "dance now");
    let effect = app.handle_input_event(key(KeyCode::Enter), NOW);
    assert_eq!(
        effect,
        Effect::LogError { text: "Error parsing command: Unknown command 'dance'".to_string() }
    );
    assert!(!app.context.show_command_popup);
    assert!(!app.context.should_quit);
}

#[test]
fn palette_connect_without_address_is_reported() {
    let mut app = app();
    app.handle_input_event(ctrl(KeyCode::Char('k')), NOW);
    type_text(&mut app, "connect");
    let effect = app.handle_input_event(key(KeyCode::Enter), NOW);
    assert_eq!(
        effect,
        Effect::LogError {
            text: "Error parsing command: 'connect' command only takes one argument".to_string()
        }
    );
}

#[test]
fn palette_blank_line_is_reported_as_empty_command() {
    let mut app = app();
    app.handle_input_event(ctrl(KeyCode::Char('k')), NOW);
    type_text(&mut app, "  ");
    let effect = app.handle_input_event(key(KeyCode::Enter), NOW);
    assert_eq!(effect, Effect::LogError { text: "Error parsing command: Empty command".to_string() });
    assert!(!app.context.show_command_popup);
}

#[test]
fn palette_enter_on_nothing_typed_does_nothing() {
    let mut app = app();
    app.handle_input_event(ctrl(KeyCode::Char('k')), NOW);
    assert_eq!(app.handle_input_event(key(KeyCode::Enter), NOW), Effect::Nothing);
    assert!(app.context.show_command_popup);
    assert_eq!(app.command_input.get_input(), ":> ");
}

#[test]
fn palette_escape_closes_without_executing() {
    let mut app = app();
    app.handle_input_event(ctrl(KeyCode::Char('k')), NOW);
    type_text(&mut app, "quit");
    assert_eq!(app.handle_input_event(key(KeyCode::Esc), NOW), Effect::Nothing);
    assert!(!app.context.show_command_popup);
    assert!(!app.context.should_quit);
    assert_eq!(app.command_input.get_input(), ":> quit");
}

#[test]
fn palette_control_keys() {
    let mut app = app();
    app.handle_input_event(ctrl(KeyCode::Char('k')), NOW);
    type_text(&mut app, "abc");
    app.handle_input_event(key(KeyCode::Left), NOW);
    app.handle_input_event(ctrl(KeyCode::Char('u')), NOW);
    assert_eq!(app.command_input.get_input(), ":> c");
    app.handle_input_event(ctrl(KeyCode::Char('h')), NOW);
    assert!(app.context.show_welcome_popup);
    assert!(!app.context.show_command_popup);
    app.handle_input_event(ctrl(KeyCode::Char('k')), NOW);
    assert!(app.context.show_command_popup);
    assert!(!app.context.show_welcome_popup);
    app.handle_input_event(ctrl(KeyCode::Char('k')), NOW);
    assert!(!app.context.show_command_popup);
    app.handle_input_event(ctrl(KeyCode::Char('k')), NOW);
    app.handle_input_event(ctrl(KeyCode::Char('c')), NOW);
    assert!(app.context.should_quit);
}

#[test]
fn palette_editing_keys() {
    let mut app = app();
    app.handle_input_event(ctrl(KeyCode::Char('k')), NOW);
    type_text(&mut app, "abcd");
    app.handle_input_event(key(KeyCode::Home), NOW);
    app.handle_input_event(key(KeyCode::Delete), NOW);
    assert_eq!(app.command_input.get_input(), ":> bcd");
    app.handle_input_event(key(KeyCode::Backspace), NOW);
    assert_eq!(app.command_input.get_input(), ":> bcd");
    app.handle_input_event(key(KeyCode::End), NOW);
    app.handle_input_event(key(KeyCode::Backspace), NOW);
    assert_eq!(app.command_input.get_input(), ":> bc");
    app.handle_input_event(key(KeyCode::Left), NOW);
    app.handle_input_event(key(KeyCode::Char('x')), NOW);
    assert_eq!(app.command_input.get_input(), ":> bxc");
    app.handle_input_event(key(KeyCode::Right), NOW);
    app.handle_input_event(ctrl(KeyCode::Char('x')), NOW);
    assert_eq!(app.command_input.get_input(), ":> bxcx");
    app.handle_input_event(key(KeyCode::Tab), NOW);
    app.handle_input_event(Event::Other, NOW);
    assert_eq!(app.command_input.get_input(), ":> bxcx");
}

#[test]
fn handle_command_connect_and_quit() {
    let mut context = AppContext::new(peer("me"), "addr".to_string());
    let mut input = CommandInput::new();
    let effect =
        input.handle_command(&mut context, Command::Connect { address: "abc".to_string() });
    assert_eq!(effect, Effect::Connect { address: "abc".to_string() });
    assert!(!context.should_quit);
    assert_eq!(input.handle_command(&mut context, Command::Quit), Effect::Nothing);
    assert!(context.should_quit);
}

#[test]
fn chat_entry_enter_sends_and_echoes_the_message() {
    let mut app = app();
    app.handle_network_event(outgoing("p"));
    assert_eq!(app.focus(), Focus::ChatEntry);
    type_text(&mut app, "hi");
    let effect = app.handle_input_event(key(KeyCode::Enter), NOW);
    let message = ChatMessage::new(&peer("me"), &peer("p"), "hi".to_string(), NOW);
    assert_eq!(effect, Effect::Send { message: message.clone() });
    let chat = app.context.chats.get(&peer("p"));
    assert_eq!(chat.map(|chat| chat.messages().clone()), Some(vec![message]));
    assert_eq!(app.chat_input.get_input(), "");
    assert_eq!(app.chat_input.cursor_location(80), (0, 0));
}

#[test]
fn chat_entry_enter_on_an_empty_line_does_nothing() {
    let mut app = app();
    app.handle_network_event(outgoing("p"));
    assert_eq!(app.handle_input_event(key(KeyCode::Enter), NOW), Effect::Nothing);
    assert_eq!(app.context.chats.get(&peer("p")).map(|chat| chat.messages().len()), Some(0));
}

#[test]
fn chat_entry_slash_quit_closes_the_chat() {
    let mut app = app();
    app.handle_network_event(outgoing("p"));
    app.handle_network_event(outgoing("q"));
    type_text(&mut app, "/quit");
    let effect = app.handle_input_event(key(KeyCode::Enter), NOW);
    assert_eq!(effect, Effect::Disconnect { peer: peer("q") });
    assert_eq!(tabs(&app.context), vec!["p"]);
    assert!(!app.context.chats.contains_key(&peer("q")));
    assert_eq!(app.context.get_color(&peer("q")), None);
    assert!(app.context.chats.contains_key(&peer("p")));
    assert_eq!(app.chat_input.get_input(), "");
}

#[test]
fn chat_entry_unknown_slash_command_is_reported() {
    let mut app = app();
    app.handle_network_event(outgoing("p"));
    type_text(&mut app, "/dance");
    let effect = app.handle_input_event(key(KeyCode::Enter), NOW);
    assert_eq!(effect, Effect::LogError { text: "Unknown command 'dance'".to_string() });
    assert!(app.context.chats.contains_key(&peer("p")));
    assert_eq!(app.context.chats.get(&peer("p")).map(|chat| chat.messages().len()), Some(0));
    type_text(&mut app, "/quit ");
    let effect = app.handle_input_event(key(KeyCode::Enter), NOW);
    assert_eq!(effect, Effect::LogError { text: "Unknown command 'quit '".to_string() });
    type_text(&mut app, "/");
    let effect = app.handle_input_event(key(KeyCode::Enter), NOW);
    assert_eq!(effect, Effect::LogError { text: "Unknown command ''".to_string() });
}

#[test]
fn chat_entry_without_a_chat_behind_the_tab_is_reported() {
    let mut context = AppContext::new(peer("me"), "addr".to_string());
    context.chat_list.add(&peer("ghost"));
    let effect = ChatInput::submit(&mut context, "hi".to_string(), NOW);
    assert_eq!(effect, Effect::LogError { text: "No current chat".to_string() });
    let mut context = AppContext::new(peer("me"), "addr".to_string());
    let effect = ChatInput::submit(&mut context, "hi".to_string(), NOW);
    assert_eq!(effect, Effect::LogError { text: "No current chat".to_string() });
}

#[test]
fn chat_entry_control_arrows_switch_tabs() {
    let mut app = app();
    app.handle_network_event(outgoing("a"));
    app.handle_network_event(outgoing("b"));
    app.handle_network_event(outgoing("c"));
    assert_eq!(app.context.chat_list.current_index(), Some(2));
    app.handle_input_event(ctrl(KeyCode::Right), NOW);
    assert_eq!(app.context.chat_list.current_index(), Some(0));
    app.handle_input_event(ctrl(KeyCode::Left), NOW);
    assert_eq!(app.context.chat_list.current_index(), Some(2));
    app.handle_input_event(ctrl(KeyCode::Left), NOW);
    assert_eq!(app.context.chat_list.current_index(), Some(1));
}

#[test]
fn chat_entry_arrows_with_other_modifiers_move_the_cursor() {
    let mut app = app();
    app.handle_network_event(outgoing("a"));
    app.handle_network_event(outgoing("b"));
    type_text(&mut app, "xy");
    app.handle_input_event(shift_ctrl(KeyCode::Left), NOW);
    assert_eq!(app.context.chat_list.current_index(), Some(1));
    assert_eq!(app.chat_input.cursor_location(80), (1, 0));
    app.handle_input_event(key(KeyCode::Left), NOW);
    assert_eq!(app.chat_input.cursor_location(80), (0, 0));
    app.handle_input_event(shift_ctrl(KeyCode::Right), NOW);
    assert_eq!(app.chat_input.cursor_location(80), (1, 0));
}

#[test]
fn chat_entry_control_keys() {
    let mut app = app();
    app.handle_network_event(outgoing("a"));
    type_text(&mut app, "abc");
    app.handle_input_event(ctrl(KeyCode::Char('u')), NOW);
    assert_eq!(app.chat_input.get_input(), "");
    app.handle_input_event(ctrl(KeyCode::Char('h')), NOW);
    assert!(app.context.show_welcome_popup);
    assert_eq!(app.focus(), Focus::ChatEntry);
    app.handle_input_event(key(KeyCode::Esc), NOW);
    assert!(!app.context.show_welcome_popup);
    app.handle_input_event(ctrl(KeyCode::Char('k')), NOW);
    assert!(app.context.show_command_popup);
    assert_eq!(app.focus(), Focus::CommandPalette);
    app.handle_input_event(key(KeyCode::Esc), NOW);
    app.handle_input_event(ctrl(KeyCode::Char('c')), NOW);
    assert!(app.context.should_quit);
}

#[test]
fn chat_entry_editing_keys() {
    let mut app = app();
    app.handle_network_event(outgoing("a"));
    type_text(&mut app, "abcd");
    app.handle_input_event(key(KeyCode::Home), NOW);
    app.handle_input_event(key(KeyCode::Delete), NOW);
    app.handle_input_event(key(KeyCode::End), NOW);
    app.handle_input_event(key(KeyCode::Backspace), NOW);
    assert_eq!(app.chat_input.get_input(), "bc");
    app.handle_input_event(key(KeyCode::Tab), NOW);
    assert_eq!(app.chat_input.get_input(), "bc");
}

#[test]
fn inbound_connection_opens_the_prompt_and_enter_accepts() {
    let mut app = app();
    app.handle_network_event(incoming("q"));
    let pending = app.context.connection_context.as_ref();
    assert_eq!(pending.map(|p| p.connection_address.clone()), Some(peer("q")));
    assert_eq!(pending.map(|p| p.accept_selected), Some(true));
    assert_eq!(app.focus(), Focus::ConnectionApproval);
    assert_eq!(app.context.chats.len(), 0);
    let effect = app.handle_input_event(key(KeyCode::Enter), NOW);
    assert_eq!(effect, Effect::Authorize { peer: peer("q") });
    assert!(app.context.connection_context.is_none());
    assert!(app.context.chats.contains_key(&peer("q")));
    assert_eq!(app.context.chat_list.current(), Some(&peer("q")));
    let color = app.context.get_color(&peer("q")).copied();
    assert!(color.is_some_and(|color| palette().contains(&color)));
    assert_eq!(app.focus(), Focus::ChatEntry);
}

#[test]
fn inbound_connection_rejected() {
    let mut app = app();
    app.handle_network_event(incoming("q"));
    assert_eq!(app.handle_input_event(key(KeyCode::Tab), NOW), Effect::Nothing);
    let effect = app.handle_input_event(key(KeyCode::Enter), NOW);
    assert_eq!(effect, Effect::Reject { peer: peer("q") });
    assert!(app.context.connection_context.is_none());
    assert_eq!(app.context.chats.len(), 0);
    assert_eq!(app.context.message_colors.len(), 0);
    assert!(tabs(&app.context).is_empty());
}

#[test]
fn approval_keys_toggle_the_answer() {
    let mut app = app();
    app.handle_network_event(incoming("q"));
    let selected = |app: &App| app.context.connection_context.as_ref().map(|p| p.accept_selected);
    app.handle_input_event(key(KeyCode::Left), NOW);
    assert_eq!(selected(&app), Some(false));
    app.handle_input_event(key(KeyCode::Right), NOW);
    assert_eq!(selected(&app), Some(true));
    app.handle_input_event(key(KeyCode::Tab), NOW);
    assert_eq!(selected(&app), Some(false));
    app.handle_input_event(key(KeyCode::Esc), NOW);
    assert_eq!(selected(&app), Some(false));
    app.handle_input_event(key(KeyCode::Tab), NOW);
    app.handle_input_event(key(KeyCode::Esc), NOW);
    assert_eq!(selected(&app), Some(false));
    app.handle_input_event(key(KeyCode::Char('y')), NOW);
    app.handle_input_event(key(KeyCode::Home), NOW);
    app.handle_input_event(Event::Other, NOW);
    assert_eq!(selected(&app), Some(false));
    assert!(!app.context.should_quit);
    app.handle_input_event(ctrl(KeyCode::Char('c')), NOW);
    assert!(app.context.should_quit);
    assert_eq!(selected(&app), Some(false));
}

#[test]
fn allow_connection_input_on_its_own() {
    let mut context = AppContext::new(peer("me"), "addr".to_string());
    context.connection_context = Some(ConnectionContext::new(&peer("q")));
    let mut input = AllowConnectionInput::new();
    assert_eq!(input.handle_input_event(key(KeyCode::Right), &mut context), Effect::Nothing);
    assert_eq!(context.connection_context.as_ref().map(|p| p.accept_selected), Some(false));
    let effect = input.handle_input_event(key(KeyCode::Enter), &mut context);
    assert_eq!(effect, Effect::Reject { peer: peer("q") });
}

#[test]
fn pending_connection_takes_the_keys_whatever_is_shown() {
    let mut app = app();
    app.handle_network_event(outgoing("a"));
    type_text(&mut app, "draft");
    app.handle_input_event(ctrl(KeyCode::Char('k')), NOW);
    type_text(&mut app, "conn");
    app.handle_network_event(incoming("q"));
    assert_eq!(app.focus(), Focus::ConnectionApproval);
    type_text(&mut app, "xyz");
    app.handle_input_event(key(KeyCode::Backspace), NOW);
    app.handle_input_event(ctrl(KeyCode::Char('u')), NOW);
    app.handle_input_event(ctrl(KeyCode::Char('k')), NOW);
    app.handle_input_event(ctrl(KeyCode::Char('h')), NOW);
    app.handle_input_event(ctrl(KeyCode::Left), NOW);
    assert_eq!(app.chat_input.get_input(), "draft");
    assert_eq!(app.command_input.get_input(), ":> conn");
    assert!(app.context.show_command_popup);
    assert!(!app.context.show_welcome_popup);
    assert_eq!(app.context.chat_list.current_index(), Some(0));
    app.context.show_command_popup = false;
    app.context.show_welcome_popup = true;
    type_text(&mut app, "xyz");
    app.handle_input_event(ctrl(KeyCode::Char('k')), NOW);
    assert_eq!(app.chat_input.get_input(), "draft");
    assert!(!app.context.show_command_popup);
    assert!(app.context.show_welcome_popup);
}

#[test]
fn second_inbound_connection_waits_while_one_is_pending() {
    let mut app = app();
    app.handle_network_event(incoming("q"));
    app.handle_input_event(key(KeyCode::Tab), NOW);
    app.handle_network_event(incoming("r"));
    let pending = app.context.connection_context.as_ref();
    assert_eq!(pending.map(|p| p.connection_address.clone()), Some(peer("q")));
    assert_eq!(pending.map(|p| p.accept_selected), Some(false));
}

#[test]
fn outbound_connection_opens_a_chat_at_once() {
    let mut app = app();
    app.handle_network_event(outgoing("p"));
    assert!(app.context.connection_context.is_none());
    assert!(app.context.chats.contains_key(&peer("p")));
    assert_eq!(tabs(&app.context), vec!["p"]);
    assert!(app.context.get_color(&peer("p")).is_some());
}

#[test]
fn inbound_message_joins_its_chat() {
    let mut app = app();
    app.handle_network_event(outgoing("p"));
    let message = ChatMessage::new(&peer("p"), &peer("me"), "hello".to_string(), NOW);
    app.handle_network_event(NetworkEvent::Message { message: message.clone() });
    let chat = app.context.chats.get(&peer("p"));
    assert_eq!(chat.map(|chat| chat.messages().clone()), Some(vec![message]));
}

#[test]
fn inbound_message_without_a_chat_is_dropped() {
    let mut app = app();
    app.handle_network_event(outgoing("p"));
    let message = ChatMessage::new(&peer("z"), &peer("me"), "hello".to_string(), NOW);
    app.handle_network_event(NetworkEvent::Message { message });
    assert_eq!(app.context.chats.len(), 1);
    assert_eq!(app.context.chats.get(&peer("p")).map(|chat| chat.messages().len()), Some(0));
}

#[test]
fn connection_closed_removes_tab_chat_and_color() {
    let mut app = app();
    app.handle_network_event(outgoing("p"));
    app.handle_network_event(outgoing("q"));
    app.handle_network_event(NetworkEvent::ConnectionClosed { peer: peer("p") });
    assert_eq!(tabs(&app.context), vec!["q"]);
    assert!(!app.context.chats.contains_key(&peer("p")));
    assert_eq!(app.context.get_color(&peer("p")), None);
    assert_eq!(app.context.chat_list.current_index(), Some(0));
}

#[test]
fn connection_closed_without_a_chat_is_a_no_op() {
    let mut app = app();
    app.handle_network_event(outgoing("p"));
    app.handle_network_event(NetworkEvent::ConnectionClosed { peer: peer("z") });
    assert_eq!(tabs(&app.context), vec!["p"]);
    assert_eq!(app.context.chats.len(), 1);
    assert_eq!(app.context.message_colors.len(), 1);
    assert_eq!(app.context.chat_list.current_index(), Some(0));
    let mut blank = App::new(peer("me"), "addr".to_string());
    blank.handle_network_event(NetworkEvent::ConnectionClosed { peer: peer("z") });
    assert_eq!(blank.context.chats.len(), 0);
    assert_eq!(blank.focus(), Focus::Idle);
}

#[test]
fn connection_closed_removes_a_stale_tab_and_color() {
    let mut app = app();
    app.context.chat_list.add(&peer("z"));
    app.context.add_id(peer("z"));
    app.handle_network_event(NetworkEvent::ConnectionClosed { peer: peer("z") });
    assert!(tabs(&app.context).is_empty());
    assert_eq!(app.context.message_colors.len(), 0);
}

#[test]
fn connection_closed_after_the_selection_was_dropped() {
    let mut app = app();
    app.handle_network_event(outgoing("a"));
    app.handle_network_event(outgoing("b"));
    app.handle_network_event(outgoing("c"));
    app.handle_input_event(ctrl(KeyCode::Right), NOW);
    app.handle_network_event(NetworkEvent::ConnectionClosed { peer: peer("a") });
    assert_eq!(app.context.chat_list.current_index(), None);
    assert_eq!(app.focus(), Focus::Idle);
    app.handle_network_event(NetworkEvent::ConnectionClosed { peer: peer("b") });
    assert_eq!(tabs(&app.context), vec!["c"]);
    assert_eq!(app.context.chat_list.current_index(), None);
}

#[test]
fn handle_events_input() {
    let mut app = app();
    let ready = Ready::Input { read: Ok(ctrl(KeyCode::Char('k'))) };
    assert_eq!(app.handle_events(ready, NOW), Ok(Effect::Nothing));
    assert!(app.context.show_command_popup);
}

#[test]
fn handle_events_input_error_is_logged() {
    let mut app = app();
    let ready = Ready::Input { read: Err("broken pipe".to_string()) };
    assert_eq!(
        app.handle_events(ready, NOW),
        Ok(Effect::LogError { text: "Error reading input: broken pipe".to_string() })
    );
    assert!(!app.context.should_quit);
}

#[test]
fn handle_events_network() {
    let mut app = app();
    let ready = Ready::Network { report: Ok(Some(incoming("q"))) };
    assert_eq!(app.handle_events(ready, NOW), Ok(Effect::Nothing));
    assert!(app.context.connection_context.is_some());
    let ready = Ready::Network { report: Ok(None) };
    assert_eq!(app.handle_events(ready, NOW), Ok(Effect::Nothing));
    assert!(app.context.connection_context.is_some());
}

#[test]
fn handle_events_network_error_is_fatal() {
    let mut app = app();
    let ready = Ready::Network { report: Err("transport failed".to_string()) };
    assert_eq!(app.handle_events(ready, NOW), Err("transport failed".to_string()));
    assert!(!app.context.should_quit);
}

#[test]
fn handle_events_accept() {
    let mut app = app();
    assert_eq!(app.handle_events(Ready::Accept { accepted: Ok(()) }, NOW), Ok(Effect::Negotiate));
    let ready = Ready::Accept { accepted: Err("refused".to_string()) };
    assert_eq!(
        app.handle_events(ready, NOW),
        Ok(Effect::LogError { text: "Error in accept: refused".to_string() })
    );
}
