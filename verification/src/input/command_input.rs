use crate::app_context::{AppContext, AppContextView};
use crate::commands::{parse, Command, CommandView};
use crate::effect::{Effect, EffectView};
use crate::input::{CursorMovement, Input, InputView};
use crate::key::{Event, KeyCode};
use vstd::prelude::*;
use vstd::string::StringExecFns;

verus! {

/// The keyboard while the command window is open, and the line typed into
/// it behind the prompt `:> `.
#[derive(Debug)]
pub struct CommandInput {
    input: Input,
}

impl View for CommandInput {
    type V = InputView;

    closed spec fn view(&self) -> InputView {
        self.input@
    }
}

/// What carrying out a command does to the state, and what it asks of the
/// engine: `connect` asks for a connection, `quit` asks to quit.
pub open spec fn command_step(context: AppContextView, command: CommandView) -> (
    AppContextView,
    EffectView,
) {
    match command {
        CommandView::Connect { address } => (context, EffectView::Connect { address }),
        CommandView::Quit => (AppContextView { should_quit: true, ..context }, EffectView::Nothing),
    }
}

/// What submitting `line` in the command window does: the window closes,
/// and the line is carried out as a command or reported as none.
pub open spec fn submit_command(context: AppContextView, line: Seq<char>) -> (
    AppContextView,
    EffectView,
) {
    let closed = context.toggle_command_popup();
    match parse(line) {
        Ok(command) => command_step(closed, command),
        Err(error) => (
            closed,
            EffectView::LogError { text: "Error parsing command: "@ + error.message() },
        ),
    }
}

/// What a terminal event does while the command window is open.
///
/// Characters go into the line, but for Control-C (quit), Control-K (the
/// window toggles), Control-U (the line is cleared up to the cursor) and
/// Control-H (the welcome window toggles). Enter submits a line that is not
/// empty, Esc closes the window, and the editing keys edit.
pub open spec fn palette_step(context: AppContextView, input: InputView, event: Event) -> (
    AppContextView,
    InputView,
    EffectView,
) {
    match event {
        Event::Other => (context, input, EffectView::Nothing),
        Event::Key(key) => match key.code {
            KeyCode::Char(character) => if key.is_control_char('c') {
                (AppContextView { should_quit: true, ..context }, input, EffectView::Nothing)
            } else if key.is_control_char('k') {
                (context.toggle_command_popup(), input, EffectView::Nothing)
            } else if key.is_control_char('u') {
                (context, input.clear_input_to_cursor(), EffectView::Nothing)
            } else if key.is_control_char('h') {
                (context.toggle_welcome_popup(), input, EffectView::Nothing)
            } else {
                (context, input.write(character), EffectView::Nothing)
            },
            KeyCode::Esc => (
                AppContextView { show_command_popup: false, ..context },
                input,
                EffectView::Nothing,
            ),
            KeyCode::Enter => match input.taken() {
                Some(line) => {
                    let (after, effect) = submit_command(context, line);
                    (after, input.reset(), effect)
                },
                None => (context, input.reset(), EffectView::Nothing),
            },
            KeyCode::Delete => (context, input.remove(), EffectView::Nothing),
            KeyCode::Backspace => (context, input.remove_previous(), EffectView::Nothing),
            KeyCode::Left => (context, input.move_cursor(CursorMovement::Left), EffectView::Nothing),
            KeyCode::Right => (
                context,
                input.move_cursor(CursorMovement::Right),
                EffectView::Nothing,
            ),
            KeyCode::Home => (
                context,
                input.move_cursor(CursorMovement::Start),
                EffectView::Nothing,
            ),
            KeyCode::End => (context, input.move_cursor(CursorMovement::End), EffectView::Nothing),
            _ => (context, input, EffectView::Nothing),
        },
    }
}

impl CommandInput {
    /// An empty command line behind its prompt.
    pub fn new() -> (made: Self)
        ensures
            made@.wf(),
            made@ == InputView::with_prompt(":> "@),
    {
        CommandInput { input: Input::new(Some(":> ")) }
    }

    /// The line as it is shown, prompt included.
    pub fn get_input(&self) -> (text: String)
        ensures
            text@ == self@.buffer,
            self@.wf(),
    {
        self.input.get_input()
    }

    /// The cursor's cell when the line is laid out in rows of `width`
    /// columns, each coordinate cut to sixteen bits.
    pub fn cursor_location(&self, width: usize) -> (location: (u16, u16))
        ensures
            location.0 == self@.cursor_cell(width as nat).0 % 0x1_0000,
            location.1 == self@.cursor_cell(width as nat).1 % 0x1_0000,
            self@.wf(),
    {
        self.input.cursor_location(width)
    }

    /// Carries out a command.
    pub fn handle_command(&mut self, context: &mut AppContext, command: Command) -> (effect: Effect)
        ensures
            final(self)@ == old(self)@,
            (final(context)@, effect@) == command_step(old(context)@, command@),
            old(context)@.inv() ==> final(context)@.inv(),
    {
        match command {
            Command::Connect { address } => Effect::Connect { address },
            Command::Quit => {
                context.should_quit = true;
                Effect::Nothing
            },
        }
    }

    /// Takes one terminal event while the command window is open.
    pub fn handle_input_event(&mut self, event: Event, context: &mut AppContext) -> (effect: Effect)
        ensures
            final(self)@.wf(),
            (final(context)@, final(self)@, effect@) == palette_step(
                old(context)@,
                old(self)@,
                event,
            ),
            old(context)@.inv() ==> final(context)@.inv(),
    {
        proof {
            use_type_invariant(&self.input);
        }
        match event {
            Event::Key(key) => {
                match key.code {
                    KeyCode::Char(character) => {
                        if key.is_control_char('c') {
                            context.should_quit = true;
                        } else if key.is_control_char('k') {
                            context.toggle_command_popup();
                        } else if key.is_control_char('u') {
                            self.input.clear_input_to_cursor();
                        } else if key.is_control_char('h') {
                            context.toggle_welcome_popup();
                        } else {
                            self.input.write(character);
                        }
                        Effect::Nothing
                    },
                    KeyCode::Esc => {
                        context.show_command_popup = false;
                        Effect::Nothing
                    },
                    KeyCode::Enter => {
                        match self.input.reset_input() {
                            Some(line) => {
                                context.toggle_command_popup();
                                match Command::from_str(line.as_str()) {
                                    Ok(command) => self.handle_command(context, command),
                                    Err(error) => {
                                        let mut text = String::from_str("Error parsing command: ");
                                        text.append(error.message().as_str());
                                        Effect::LogError { text }
                                    },
                                }
                            },
                            None => Effect::Nothing,
                        }
                    },
                    KeyCode::Delete => {
                        self.input.remove();
                        Effect::Nothing
                    },
                    KeyCode::Backspace => {
                        self.input.remove_previous();
                        Effect::Nothing
                    },
                    KeyCode::Left => {
                        self.input.move_cursor(CursorMovement::Left);
                        Effect::Nothing
                    },
                    KeyCode::Right => {
                        self.input.move_cursor(CursorMovement::Right);
                        Effect::Nothing
                    },
                    KeyCode::Home => {
                        self.input.move_cursor(CursorMovement::Start);
                        Effect::Nothing
                    },
                    KeyCode::End => {
                        self.input.move_cursor(CursorMovement::End);
                        Effect::Nothing
                    },
                    _ => Effect::Nothing,
                }
            },
            Event::Other => Effect::Nothing,
        }
    }
}

} // verus!
