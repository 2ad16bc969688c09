use crate::app_context::{AppContext, AppContextView};
use crate::chat::{ChatMessage, ChatMessageView};
use crate::effect::{Effect, EffectView};
use crate::input::{CursorMovement, Input, InputView};
use crate::key::{Event, KeyCode};
use crate::text::{chars_to_string, str_chars};
use vstd::prelude::*;
use vstd::string::StringExecFns;

verus! {

/// The keyboard while a conversation is open, and the line typed into it.
#[derive(Debug)]
pub struct ChatInput {
    input: Input,
}

impl View for ChatInput {
    type V = InputView;

    closed spec fn view(&self) -> InputView {
        self.input@
    }
}

/// What submitting `line` in the conversation with `peer` does. `now` is the
/// second in which it happens.
///
/// A line that starts with `/` is a command: `/quit` ends the conversation
/// and has the engine close it; any other is reported as unknown. Every
/// other line is a message: it is added to the conversation at once and the
/// engine is asked to send it.
pub open spec fn submit_line(context: AppContextView, peer: Seq<char>, line: Seq<char>, now: int) -> (
    AppContextView,
    EffectView,
) {
    if line.len() > 0 && line[0] == '/' {
        let command = line.skip(1);
        if command == "quit"@ {
            (context.remove_chat(peer), EffectView::Disconnect { peer })
        } else {
            (context, EffectView::LogError { text: "Unknown command '"@ + command + "'"@ })
        }
    } else {
        let message = ChatMessageView {
            date: now,
            sender: context.id,
            recipient: peer,
            message: line,
        };
        (context.add_message(peer, message), EffectView::Send { message })
    }
}

/// What pressing Enter on `line` does: it goes to the conversation of the
/// selected tab. Without a selected tab, or without a conversation behind
/// it, that there is no current chat is reported.
pub open spec fn submit_chat(context: AppContextView, line: Seq<char>, now: int) -> (
    AppContextView,
    EffectView,
) {
    match context.chat_list.current() {
        Some(peer) => if context.chats.contains_key(peer) {
            submit_line(context, peer, line, now)
        } else {
            (context, EffectView::LogError { text: "No current chat"@ })
        },
        None => (context, EffectView::LogError { text: "No current chat"@ }),
    }
}

/// What a terminal event does while a conversation has the keyboard.
///
/// Characters go into the line, but for Control-C (quit), Control-K (the
/// command window toggles), Control-U (the line is cleared up to the cursor)
/// and Control-H (the welcome window toggles). Enter submits a line that is
/// not empty, Esc hides the welcome window, Left and Right with Control and
/// nothing else select the neighbouring tab, and the editing keys edit.
pub open spec fn chat_step(context: AppContextView, input: InputView, event: Event, now: int) -> (
    AppContextView,
    InputView,
    EffectView,
) {
    match event {
        Event::Other => (context, input, EffectView::Nothing),
        Event::Key(key) => match key.code {
            KeyCode::Char(character) => if key.is_control_char('c') {
                (AppContextView { should_quit: true, ..context }, input, EffectView::Nothing)
            } else if key.is_control_char('k') {
                (context.toggle_command_popup(), input, EffectView::Nothing)
            } else if key.is_control_char('u') {
                (context, input.clear_input_to_cursor(), EffectView::Nothing)
            } else if key.is_control_char('h') {
                (context.toggle_welcome_popup(), input, EffectView::Nothing)
            } else {
                (context, input.write(character), EffectView::Nothing)
            },
            KeyCode::Esc => (
                AppContextView { show_welcome_popup: false, ..context },
                input,
                EffectView::Nothing,
            ),
            KeyCode::Enter => match input.taken() {
                Some(line) => {
                    let (after, effect) = submit_chat(context, line, now);
                    (after, input.reset(), effect)
                },
                None => (context, input.reset(), EffectView::Nothing),
            },
            KeyCode::Delete => (context, input.remove(), EffectView::Nothing),
            KeyCode::Backspace => (context, input.remove_previous(), EffectView::Nothing),
            KeyCode::Left => if key.modifiers.is_control_only() {
                (
                    AppContextView { chat_list: context.chat_list.prev_chat(), ..context },
                    input,
                    EffectView::Nothing,
                )
            } else {
                (context, input.move_cursor(CursorMovement::Left), EffectView::Nothing)
            },
            KeyCode::Right => if key.modifiers.is_control_only() {
                (
                    AppContextView { chat_list: context.chat_list.next_chat(), ..context },
                    input,
                    EffectView::Nothing,
                )
            } else {
                (context, input.move_cursor(CursorMovement::Right), EffectView::Nothing)
            },
            KeyCode::Home => (
                context,
                input.move_cursor(CursorMovement::Start),
                EffectView::Nothing,
            ),
            KeyCode::End => (context, input.move_cursor(CursorMovement::End), EffectView::Nothing),
            _ => (context, input, EffectView::Nothing),
        },
    }
}

/// Whether `chars`, from index `from` on, spell `text`.
fn rest_spells(chars: &Vec<char>, from: usize, text: &str) -> (b: bool)
    requires
        from <= chars.len(),
    ensures
        b == (chars@.skip(from as int) == text@),
{
    let other = str_chars(text);
    if chars.len() - from != other.len() {
        return false;
    }
    let mut i: usize = 0;
    while i < other.len()
        invariant
            i <= other.len(),
            from <= chars.len(),
            chars.len() - from == other.len(),
            other@ == text@,
            chars@.skip(from as int).take(i as int) == other@.take(i as int),
        decreases other.len() - i,
    {
        if chars[from + i] != other[i] {
            assert(chars@.skip(from as int)[i as int] != text@[i as int]);
            return false;
        }
        i += 1;
        assert(chars@.skip(from as int).take(i as int) =~= chars@.skip(from as int).take(
            i - 1,
        ).push(chars@[from + i - 1]));
        assert(other@.take(i as int) =~= other@.take(i - 1).push(other@[i - 1]));
    }
    assert(chars@.skip(from as int).take(other.len() as int) =~= chars@.skip(from as int));
    assert(other@.take(other.len() as int) =~= other@);
    true
}

impl ChatInput {
    /// An empty line without a prompt.
    pub fn new() -> (made: Self)
        ensures
            made@.wf(),
            made@ == InputView::with_prompt(Seq::empty()),
    {
        ChatInput { input: Input::new(None) }
    }

    /// The line as it is shown.
    pub fn get_input(&self) -> (text: String)
        ensures
            text@ == self@.buffer,
            self@.wf(),
    {
        self.input.get_input()
    }

    /// The cursor's cell when the line is laid out in rows of `width`
    /// columns, each coordinate cut to sixteen bits.
    pub fn cursor_location(&self, width: usize) -> (location: (u16, u16))
        ensures
            location.0 == self@.cursor_cell(width as nat).0 % 0x1_0000,
            location.1 == self@.cursor_cell(width as nat).1 % 0x1_0000,
            self@.wf(),
    {
        self.input.cursor_location(width)
    }

    /// Submits `line` to the conversation of the selected tab.
    pub fn submit(context: &mut AppContext, line: String, now: i64) -> (effect: Effect)
        ensures
            (final(context)@, effect@) == submit_chat(old(context)@, line@, now as int),
            old(context)@.inv() ==> final(context)@.inv(),
    {
        let peer = match context.chat_list.current() {
            Some(id) => id.clone(),
            None => {
                return Effect::LogError { text: String::from_str("No current chat") };
            },
        };
        if !context.chats.contains_key(&peer) {
            return Effect::LogError { text: String::from_str("No current chat") };
        }
        let chars = str_chars(line.as_str());
        if chars.len() > 0 && chars[0] == '/' {
            if rest_spells(&chars, 1, "quit") {
                context.remove_chat(&peer);
                Effect::Disconnect { peer }
            } else {
                let mut text = String::from_str("Unknown command '");
                text.append(chars_to_string(&chars, 1).as_str());
                text.append("'");
                Effect::LogError { text }
            }
        } else {
            let message = ChatMessage::new(&context.id, &peer, line, now);
            context.add_message(&peer, message.clone());
            Effect::Send { message }
        }
    }

    /// Takes one terminal event while a conversation has the keyboard. `now`
    /// is the second in which it happens, for a message that is sent.
    pub fn handle_input_event(
        &mut self,
        event: Event,
        context: &mut AppContext,
        now: i64,
    ) -> (effect: Effect)
        ensures
            final(self)@.wf(),
            (final(context)@, final(self)@, effect@) == chat_step(
                old(context)@,
                old(self)@,
                event,
                now as int,
            ),
            old(context)@.inv() ==> final(context)@.inv(),
    {
        proof {
            use_type_invariant(&self.input);
        }
        match event {
            Event::Key(key) => {
                match key.code {
                    KeyCode::Char(character) => {
                        if key.is_control_char('c') {
                            context.should_quit = true;
                        } else if key.is_control_char('k') {
                            context.toggle_command_popup();
                        } else if key.is_control_char('u') {
                            self.input.clear_input_to_cursor();
                        } else if key.is_control_char('h') {
                            context.toggle_welcome_popup();
                        } else {
                            self.input.write(character);
                        }
                        Effect::Nothing
                    },
                    KeyCode::Esc => {
                        if context.show_welcome_popup {
                            context.show_welcome_popup = false;
                        }
                        Effect::Nothing
                    },
                    KeyCode::Enter => {
                        match self.input.reset_input() {
                            Some(line) => Self::submit(context, line, now),
                            None => Effect::Nothing,
                        }
                    },
                    KeyCode::Delete => {
                        self.input.remove();
                        Effect::Nothing
                    },
                    KeyCode::Backspace => {
                        self.input.remove_previous();
                        Effect::Nothing
                    },
                    KeyCode::Left => {
                        if key.modifiers.is_control_only() {
                            context.chat_list.prev_chat();
                        } else {
                            self.input.move_cursor(CursorMovement::Left);
                        }
                        Effect::Nothing
                    },
                    KeyCode::Right => {
                        if key.modifiers.is_control_only() {
                            context.chat_list.next_chat();
                        } else {
                            self.input.move_cursor(CursorMovement::Right);
                        }
                        Effect::Nothing
                    },
                    KeyCode::Home => {
                        self.input.move_cursor(CursorMovement::Start);
                        Effect::Nothing
                    },
                    KeyCode::End => {
                        self.input.move_cursor(CursorMovement::End);
                        Effect::Nothing
                    },
                    _ => Effect::Nothing,
                }
            },
            Event::Other => Effect::Nothing,
        }
    }
}

} // verus!
