use crate::input::command_input::CommandInput;
use crate::input::InputView;
use crate::layout::{Constraint, Rect};
use crate::root::{centered_rect, rows_view, split_each, split_rows};
use vstd::prelude::*;

verus! {

/// The command window as it is laid out on screen, with the area it was
/// last given.
pub struct CommandPopup<'a> {
    command_input: &'a CommandInput,
    render_area: Option<Rect>,
}

/// The cursor's place on screen, for a cursor at `cursor` within a window
/// at `popup_area` with a border of one cell. None where the screen's
/// coordinates cannot hold it.
pub open spec fn popup_cursor_at(popup_area: Rect, cursor: (u16, u16)) -> Option<(u16, u16)> {
    if popup_area.x + cursor.0 + 1 <= u16::MAX && popup_area.y + cursor.1 + 1 <= u16::MAX {
        Some(((popup_area.x + cursor.0 + 1) as u16, (popup_area.y + cursor.1 + 1) as u16))
    } else {
        None
    }
}

/// The cursor's place on screen, for a cursor at `cursor` within a window at
/// `popup_area`.
pub fn popup_cursor(popup_area: Rect, cursor: (u16, u16)) -> (place: Option<(u16, u16)>)
    ensures
        place == popup_cursor_at(popup_area, cursor),
{
    if popup_area.x <= u16::MAX - 1 && cursor.0 <= u16::MAX - 1 - popup_area.x && popup_area.y
        <= u16::MAX - 1 && cursor.1 <= u16::MAX - 1 - popup_area.y {
        Some((popup_area.x + cursor.0 + 1, popup_area.y + cursor.1 + 1))
    } else {
        None
    }
}

/// Whether a screen of this height has room for the command window with
/// `rows` rows of text under the first: the window with its border fits,
/// and two cells are left below the middle.
pub open spec fn popup_fits(area: Rect, rows: u16) -> bool {
    rows + 3 <= area.height && (area.height - (rows + 3)) / 2 >= 2
}

/// A cell cut to what the screen's coordinates hold.
pub open spec fn cut_cell(cell: (nat, nat)) -> (u16, u16) {
    ((cell.0 % 0x1_0000) as u16, (cell.1 % 0x1_0000) as u16)
}

/// The cursor's cell within the command window, once a window of the
/// smallest height was laid out at `first`: the line is laid out in the
/// columns that `first` leaves between its borders. None where it leaves
/// none, or where the screen `area` has no room for the rows.
pub open spec fn cursor_within_at(input: InputView, first: Rect, area: Rect) -> Option<(u16, u16)> {
    if first.width < 2 || !popup_fits(area, 0) {
        None
    } else {
        let cursor = cut_cell(input.cursor_cell((first.width - 2) as nat));
        if popup_fits(area, cursor.1) {
            Some(cursor)
        } else {
            None
        }
    }
}

/// The cursor's place on screen in the command window, where the layout
/// puts the window of the smallest height at `first` and the window of the
/// height that the line needs at `second`.
pub open spec fn popup_place(input: InputView, area: Rect, first: Rect, second: Rect) -> Option<
    (u16, u16),
> {
    match cursor_within_at(input, first, area) {
        Some(cursor) => popup_cursor_at(second, cursor),
        None => None,
    }
}

impl<'a> CommandPopup<'a> {
    /// The line that the window shows.
    pub closed spec fn input(&self) -> InputView {
        self.command_input@
    }

    /// The area that the window was last given.
    pub closed spec fn render_area(&self) -> Option<Rect> {
        self.render_area
    }

    /// What placing the cursor in the window `before`, on the screen `area`,
    /// leaves behind: this window, and the place `place`.
    ///
    /// The window shows the same line. Without room for the smallest window
    /// there is no place, and the noted area stays. Else the layout put the
    /// two windows somewhere in `area`, and place and noted area follow from
    /// where it put them.
    pub open spec fn located(&self, before: Self, area: Rect, place: Option<(u16, u16)>) -> bool {
        &&& self.input() == before.input()
        &&& !popup_fits(area, 0) ==> place is None && self.render_area() == before.render_area()
        &&& popup_fits(area, 0) ==> exists|first: Rect, second: Rect|
            {
                &&& area.contains_rect(first)
                &&& area.contains_rect(second)
                &&& match #[trigger] popup_place(before.input(), area, first, second) {
                    Some(place_at) => place == Some(place_at) && self.render_area() == Some(
                        second,
                    ),
                    None => place is None && self.render_area() == before.render_area(),
                }
            }
    }

    pub fn new(command_input: &'a CommandInput) -> (popup: Self)
        ensures
            popup.input() == command_input@,
            popup.render_area() is None,
    {
        CommandPopup { command_input, render_area: None }
    }

    pub fn get_render_area(&self) -> (area: Option<Rect>)
        ensures
            area == self.render_area(),
    {
        self.render_area
    }

    /// The cursor's cell within the window, once a window of the smallest
    /// height was laid out at `first` to learn its width. None where that
    /// window leaves no column for text, or where the screen `area` has no
    /// room for the rows that the line takes at that width.
    pub fn cursor_within(&self, first: Rect, area: Rect) -> (cursor: Option<(u16, u16)>)
        ensures
            cursor == cursor_within_at(self.input(), first, area),
    {
        if first.width < 2 || area.height < 7 {
            return None;
        }
        let inner_width: usize = (first.width - 2) as usize;
        let input_cursor = self.command_input.cursor_location(inner_width);
        if input_cursor.1 > area.height - 7 {
            return None;
        }
        Some(input_cursor)
    }

    /// Lays the window out in the middle of `area`, seven tenths of it wide
    /// and as high as the line needs, notes the window's area and says where
    /// on screen the cursor is.
    ///
    /// The window is laid out twice: first at its smallest height, to learn
    /// its width, and then at the height that the line needs at that width.
    /// The layout decides where in `area` the two land. There is no cursor,
    /// and no area is noted, where the screen has no room for the window or
    /// its coordinates cannot hold the cursor.
    pub fn get_cursor_location(&mut self, area: Rect) -> (place: Option<(u16, u16)>)
        ensures
            final(self).located(*old(self), area, place),
    {
        if area.height < 7 {
            return None;
        }
        let first = centered_rect(Constraint::Percentage(70), Constraint::Length(3), area);
        let input_cursor = match self.cursor_within(first, area) {
            Some(input_cursor) => input_cursor,
            None => {
                assert(popup_place(old(self).input(), area, first, first) is None);
                return None;
            },
        };
        let second = centered_rect(
            Constraint::Percentage(70),
            Constraint::Length(input_cursor.1 + 3),
            area,
        );
        let place = popup_cursor(second, input_cursor);
        if place.is_some() {
            self.render_area = Some(second);
        }
        assert(popup_place(old(self).input(), area, first, second) == place);
        place
    }

    /// The rows in which the line is shown when a row has `inner_width`
    /// columns.
    pub fn rows(&self, inner_width: usize) -> (rows: Vec<String>)
        requires
            inner_width >= 1,
        ensures
            rows_view(rows@) == split_rows(self.input().buffer, inner_width as nat),
    {
        split_each(self.command_input.get_input(), inner_width)
    }
}

} // verus!
