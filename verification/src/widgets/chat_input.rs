use crate::input::chat_input::ChatInput;
use crate::input::InputView;
use crate::root::{rows_view, split_each, split_rows};
use vstd::prelude::*;

verus! {

/// The line of the selected conversation as it is laid out on screen, with
/// the number of rows it was last found to take.
pub struct ChatInputWidget<'a> {
    input: &'a ChatInput,
    length: u16,
}

impl<'a> ChatInputWidget<'a> {
    /// The line that is laid out.
    pub closed spec fn input(&self) -> InputView {
        self.input@
    }

    /// The rows that the line was last found to take.
    pub closed spec fn length(&self) -> u16 {
        self.length
    }

    pub fn new(chat_input: &'a ChatInput) -> (widget: Self)
        ensures
            widget.input() == chat_input@,
            widget.length() == 0,
    {
        ChatInputWidget { input: chat_input, length: 0 }
    }

    /// The cursor's cell in rows of `inner_width` columns. The rows that the
    /// line takes are noted: one more than the cursor's row, and never more
    /// than sixteen bits hold.
    pub fn cursor_location(&mut self, inner_width: usize) -> (location: (u16, u16))
        ensures
            final(self).input() == old(self).input(),
            location.0 == old(self).input().cursor_cell(inner_width as nat).0 % 0x1_0000,
            location.1 == old(self).input().cursor_cell(inner_width as nat).1 % 0x1_0000,
            final(self).length() == if location.1 < u16::MAX {
                location.1 + 1
            } else {
                u16::MAX as int
            },
    {
        let (x, y) = self.input.cursor_location(inner_width);
        self.length = if y < u16::MAX {
            y + 1
        } else {
            u16::MAX
        };
        (x, y)
    }

    pub fn get_length(&self) -> (length: u16)
        ensures
            length == self.length(),
    {
        self.length
    }

    /// The rows in which the line is shown when a row has `inner_width`
    /// columns.
    pub fn rows(&self, inner_width: usize) -> (rows: Vec<String>)
        requires
            inner_width >= 1,
        ensures
            rows_view(rows@) == split_rows(self.input().buffer, inner_width as nat),
    {
        split_each(self.input.get_input(), inner_width)
    }
}

} // verus!
