use crate::app_context::{AppContext, AppContextView};
use crate::input::chat_input::ChatInput;
use crate::input::command_input::CommandInput;
use crate::layout::{split, Constraint, Direction, Rect};
use crate::peer::PeerId;
use crate::text::str_chars;
use crate::widgets::chat_input::ChatInputWidget;
use crate::widgets::command_popup::{cut_cell, CommandPopup};
use crate::width::{char_width, display_width};
use vstd::prelude::*;

verus! {

/// Where the row splitter stands after some characters: the rows it has
/// closed, the row it is filling, and the columns that row takes so far.
pub struct Wrapped {
    pub rows: Seq<Seq<char>>,
    pub row: Seq<char>,
    pub columns: nat,
}

/// Takes one more character into the rows. The open row is closed first when
/// it is full, or when the character would not fit in what is left of it.
pub open spec fn wrap_char(state: Wrapped, c: char, width: nat) -> Wrapped {
    let w = display_width(c);
    if (state.columns != 0 && state.columns == width) || state.columns + w > width {
        Wrapped { rows: state.rows.push(state.row), row: seq![c], columns: w }
    } else {
        Wrapped { rows: state.rows, row: state.row.push(c), columns: state.columns + w }
    }
}

/// Where the row splitter stands after all of `text`.
pub open spec fn wrap_all(text: Seq<char>, width: nat) -> Wrapped
    decreases text.len(),
{
    if text.len() == 0 {
        Wrapped { rows: Seq::empty(), row: Seq::empty(), columns: 0 }
    } else {
        wrap_char(wrap_all(text.drop_last(), width), text.last(), width)
    }
}

/// The rows that `text` is laid out in when a row has `width` columns.
pub open spec fn split_rows(text: Seq<char>, width: nat) -> Seq<Seq<char>> {
    let end = wrap_all(text, width);
    if end.row.len() > 0 {
        end.rows.push(end.row)
    } else {
        end.rows
    }
}

/// Closed rows and open row together hold exactly the text read so far.
pub proof fn lemma_wrap_all_keeps_text(text: Seq<char>, width: nat)
    ensures
        wrap_all(text, width).rows.flatten() + wrap_all(text, width).row == text,
    decreases text.len(),
{
    broadcast use Seq::lemma_flatten_push;

    if text.len() > 0 {
        let before = wrap_all(text.drop_last(), width);
        lemma_wrap_all_keeps_text(text.drop_last(), width);
        let after = wrap_char(before, text.last(), width);
        assert(after.rows.flatten() + after.row =~= (before.rows.flatten() + before.row).push(
            text.last(),
        ));
        assert(text.drop_last().push(text.last()) =~= text);
    } else {
        assert(wrap_all(text, width).rows.flatten() + wrap_all(text, width).row =~= text);
    }
}

/// The rows of a text, put one behind the other, are the text again.
pub proof fn lemma_split_rows_concat(text: Seq<char>, width: nat)
    ensures
        split_rows(text, width).flatten() == text,
{
    broadcast use Seq::lemma_flatten_push;

    lemma_wrap_all_keeps_text(text, width);
    let end = wrap_all(text, width);
    if end.row.len() == 0 {
        assert(end.rows.flatten() + end.row =~= end.rows.flatten());
    }
}

/// The rows of strings as rows of characters.
pub open spec fn rows_view(rows: Seq<String>) -> Seq<Seq<char>> {
    rows.map_values(|row: String| row@)
}

/// Splits `input` into rows of at most `width` columns, by display width.
/// A character wider than a whole row still gets a row.
pub fn split_each(input: String, width: usize) -> (rows: Vec<String>)
    requires
        width >= 1,
    ensures
        rows_view(rows@) == split_rows(input@, width as nat),
        rows_view(rows@).flatten() == input@,
{
    let chars = str_chars(input.as_str());
    let mut splitted: Vec<String> = Vec::new();
    let mut row = String::new();
    let mut index: usize = 0;
    let mut i: usize = 0;
    assert(rows_view(splitted@) =~= Seq::empty());
    while i < chars.len()
        invariant
            i <= chars.len(),
            width >= 1,
            index <= width || index <= 3,
            wrap_all(chars@.take(i as int), width as nat).rows == rows_view(splitted@),
            wrap_all(chars@.take(i as int), width as nat).row == row@,
            wrap_all(chars@.take(i as int), width as nat).columns == index,
        decreases chars.len() - i,
    {
        let c = chars[i];
        let w = char_width(c);
        proof {
            let next = chars@.take(i + 1);
            assert(next.drop_last() =~= chars@.take(i as int));
            assert(next.last() == c);
        }
        if (index != 0 && index == width) || index > width || w > width - index {
            let ghost closed = rows_view(splitted@);
            splitted.push(row);
            assert(rows_view(splitted@) =~= closed.push(row@));
            row = String::new();
            index = 0;
            row.push(c);
            assert(row@ =~= seq![c]);
        } else {
            row.push(c);
        }
        index += w;
        i += 1;
    }
    assert(chars@.take(chars.len() as int) =~= chars@);
    if row.as_str().unicode_len() > 0 {
        let ghost closed = rows_view(splitted@);
        splitted.push(row);
        assert(rows_view(splitted@) =~= closed.push(row@));
    }
    proof {
        lemma_split_rows_concat(input@, width as nat);
    }
    splitted
}

/// Whether a part of height `constraint_y` can be centred in `r`: the
/// height is a percentage of at most a hundred, or a length that fits in
/// `r` and leaves two cells below the middle.
pub open spec fn accepts_height(constraint_y: Constraint, r: Rect) -> bool {
    match constraint_y {
        Constraint::Percentage(percent_y) => percent_y <= 100,
        Constraint::Length(length_y) => length_y <= r.height && (r.height - length_y) / 2 >= 2,
        _ => false,
    }
}

/// Whether a part of width `constraint_x` can be centred in `r`: the width
/// is a percentage of at most a hundred, or a length that fits in `r`.
pub open spec fn accepts_width(constraint_x: Constraint, r: Rect) -> bool {
    match constraint_x {
        Constraint::Percentage(percent_x) => percent_x <= 100,
        Constraint::Length(length_x) => length_x <= r.width,
        _ => false,
    }
}

/// Whether `centered_rect` can centre a part of this size in `r`.
pub open spec fn centered_rect_accepts(constraint_x: Constraint, constraint_y: Constraint, r: Rect)
    -> bool {
    accepts_height(constraint_y, r) && accepts_width(constraint_x, r)
}

/// The three rows that `r` is split into to centre a part of height
/// `constraint_y`: the part in the middle, and what is left in equal shares
/// above and below.
pub open spec fn vertical_constraints(constraint_y: Constraint, r: Rect) -> Seq<Constraint> {
    match constraint_y {
        Constraint::Percentage(percent_y) => seq![
            Constraint::Percentage(((100 - percent_y) / 2) as u16),
            Constraint::Percentage(percent_y),
            Constraint::Percentage(((100 - percent_y) / 2) as u16),
        ],
        Constraint::Length(length_y) => seq![
            Constraint::Min(((r.height - length_y) / 2) as u16),
            Constraint::Min(length_y),
            Constraint::Min(((r.height - length_y) / 2 - 2) as u16),
        ],
        _ => Seq::empty(),
    }
}

/// The three columns that the middle row is split into to centre a part of
/// width `constraint_x`.
pub open spec fn horizontal_constraints(constraint_x: Constraint, r: Rect) -> Seq<Constraint> {
    match constraint_x {
        Constraint::Percentage(percent_x) => seq![
            Constraint::Percentage(((100 - percent_x) / 2) as u16),
            Constraint::Percentage(percent_x),
            Constraint::Percentage(((100 - percent_x) / 2) as u16),
        ],
        Constraint::Length(length_x) => seq![
            Constraint::Min(((r.width - length_x) / 2) as u16),
            Constraint::Percentage(length_x),
            Constraint::Min(((r.width - length_x) / 2) as u16),
        ],
        _ => Seq::empty(),
    }
}

fn three(first: Constraint, second: Constraint, third: Constraint) -> (constraints: Vec<Constraint>)
    ensures
        constraints@ == seq![first, second, third],
{
    let mut constraints: Vec<Constraint> = Vec::new();
    constraints.push(first);
    constraints.push(second);
    constraints.push(third);
    assert(constraints@ =~= seq![first, second, third]);
    constraints
}

/// The rows that centre a part of height `constraint_y` in `r`.
pub fn center_vertically(constraint_y: Constraint, r: Rect) -> (constraints: Vec<Constraint>)
    requires
        accepts_height(constraint_y, r),
    ensures
        constraints@ == vertical_constraints(constraint_y, r),
        constraints@.len() == 3,
{
    match constraint_y {
        Constraint::Percentage(percent_y) => three(
            Constraint::Percentage((100 - percent_y) / 2),
            Constraint::Percentage(percent_y),
            Constraint::Percentage((100 - percent_y) / 2),
        ),
        Constraint::Length(length_y) => three(
            Constraint::Min((r.height - length_y) / 2),
            Constraint::Min(length_y),
            Constraint::Min(((r.height - length_y) / 2) - 2),
        ),
        _ => Vec::new(),
    }
}

/// The columns that centre a part of width `constraint_x` in `r`.
pub fn center_horizontally(constraint_x: Constraint, r: Rect) -> (constraints: Vec<Constraint>)
    requires
        accepts_width(constraint_x, r),
    ensures
        constraints@ == horizontal_constraints(constraint_x, r),
        constraints@.len() == 3,
{
    match constraint_x {
        Constraint::Percentage(percent_x) => three(
            Constraint::Percentage((100 - percent_x) / 2),
            Constraint::Percentage(percent_x),
            Constraint::Percentage((100 - percent_x) / 2),
        ),
        Constraint::Length(length_x) => three(
            Constraint::Min((r.width - length_x) / 2),
            Constraint::Percentage(length_x),
            Constraint::Min((r.width - length_x) / 2),
        ),
        _ => Vec::new(),
    }
}

/// A part of `r` in its middle, as wide as `constraint_x` and as high as
/// `constraint_y` ask, as far as the layout grants it: the middle column of
/// the middle row of `r`.
pub fn centered_rect(constraint_x: Constraint, constraint_y: Constraint, r: Rect) -> (part: Rect)
    requires
        centered_rect_accepts(constraint_x, constraint_y, r),
    ensures
        r.contains_rect(part),
{
    let rows = center_vertically(constraint_y, r);
    let popup_layout = split(Direction::Vertical, &rows, r);
    let columns = center_horizontally(constraint_x, r);
    let parts = split(Direction::Horizontal, &columns, popup_layout[1]);
    parts[1]
}

/// The area of a window with a border around `lines` lines of text
/// `width` wide and `pad` cells of padding, in the middle of `area`. Both
/// sizes are cut to sixteen bits. None where `area` has no room for it.
pub fn boxed_rect(width: usize, pad: u16, lines: u16, area: Rect) -> (part: Option<Rect>)
    ensures
        part is Some <==> centered_rect_accepts(
            Constraint::Length(((width + pad) % 0x1_0000) as u16),
            Constraint::Length(((lines + 2) % 0x1_0000) as u16),
            area,
        ),
        part matches Some(part) ==> area.contains_rect(part),
{
    let wide: u16 = (((width % 0x1_0000) as u32 + pad as u32) % 0x1_0000) as u16;
    let high: u16 = ((lines as u32 + 2) % 0x1_0000) as u16;
    assert(wide == (width + pad) % 0x1_0000) by {
        vstd::arithmetic::div_mod::lemma_add_mod_noop(width as int, pad as int, 0x1_0000);
        vstd::arithmetic::div_mod::lemma_add_mod_noop(
            (width % 0x1_0000) as int,
            pad as int,
            0x1_0000,
        );
        vstd::arithmetic::div_mod::lemma_mod_twice(width as int, 0x1_0000);
    }
    if high <= area.height && (area.height - high) / 2 >= 2 && wide <= area.width {
        Some(centered_rect(Constraint::Length(wide), Constraint::Length(high), area))
    } else {
        None
    }
}

/// The rows of the screen: with a selected conversation the title, the
/// system messages, the tabs, the conversation, the status bar and the line
/// under edit, `input_rows` rows high; without one the title and the system
/// messages.
pub open spec fn layout_constraints(chat_selected: bool, input_rows: u16) -> Seq<Constraint> {
    if chat_selected {
        seq![
            Constraint::Length(1),
            Constraint::Percentage(20),
            Constraint::Length(3),
            Constraint::Min(1),
            Constraint::Length(1),
            Constraint::Length(input_rows),
        ]
    } else {
        seq![Constraint::Length(1), Constraint::Min(1)]
    }
}

/// The place on screen of a cursor at `cursor` within the line under edit,
/// where that line is the last of six rows of the screen `area`. None
/// where there are not six rows, or where the screen's coordinates cannot
/// hold the place.
pub open spec fn chat_cursor_at(area: Rect, chunks: Seq<Rect>, cursor: (u16, u16)) -> Option<
    (u16, u16),
> {
    if chunks.len() >= 6 && area.x + cursor.0 <= u16::MAX && chunks[5].y + cursor.1 + 1
        <= u16::MAX {
        Some(((area.x + cursor.0) as u16, (chunks[5].y + cursor.1 + 1) as u16))
    } else {
        None
    }
}

/// The place on screen of a cursor at `cursor` within the line under edit,
/// the last of the six rows `chunks` of the screen `area`.
pub fn chat_cursor(area: Rect, chunks: &Vec<Rect>, cursor: (u16, u16)) -> (place: Option<
    (u16, u16),
>)
    ensures
        place == chat_cursor_at(area, chunks@, cursor),
{
    if chunks.len() < 6 {
        return None;
    }
    let row = chunks[5].y;
    if cursor.0 <= u16::MAX - area.x && row <= u16::MAX - 1 && cursor.1 <= u16::MAX - 1 - row {
        Some((area.x + cursor.0, row + cursor.1 + 1))
    } else {
        None
    }
}

/// One of the parts that the screen is made of.
#[derive(Debug, PartialEq, Eq)]
pub enum Panel {
    TitleBar,
    SystemMessages,
    ChatTabs,
    ChatPanel { peer: PeerId },
    StatusBar,
    ChatInput,
    CommandPopup,
    WelcomePopup,
    AllowConnectionPopup { address: PeerId, accept_selected: bool },
}

pub enum PanelView {
    TitleBar,
    SystemMessages,
    ChatTabs,
    ChatPanel { peer: Seq<char> },
    StatusBar,
    ChatInput,
    CommandPopup,
    WelcomePopup,
    AllowConnectionPopup { address: Seq<char>, accept_selected: bool },
}

impl View for Panel {
    type V = PanelView;

    open spec fn view(&self) -> PanelView {
        match self {
            Panel::TitleBar => PanelView::TitleBar,
            Panel::SystemMessages => PanelView::SystemMessages,
            Panel::ChatTabs => PanelView::ChatTabs,
            Panel::ChatPanel { peer } => PanelView::ChatPanel { peer: peer@ },
            Panel::StatusBar => PanelView::StatusBar,
            Panel::ChatInput => PanelView::ChatInput,
            Panel::CommandPopup => PanelView::CommandPopup,
            Panel::WelcomePopup => PanelView::WelcomePopup,
            Panel::AllowConnectionPopup { address, accept_selected } => {
                PanelView::AllowConnectionPopup { address: address@, accept_selected: *accept_selected }
            },
        }
    }
}

pub open spec fn panels_view(panels: Seq<Panel>) -> Seq<PanelView> {
    panels.map_values(|panel: Panel| panel@)
}

/// The parts that the screen shows in a state, in the order in which they
/// are drawn: the fixed panels first, six with a selected conversation and
/// two without, and over them the windows that are open, the question about
/// a connection on top.
pub open spec fn panels_of(context: AppContextView) -> Seq<PanelView> {
    let fixed = match context.chat_list.current() {
        Some(peer) => seq![
            PanelView::TitleBar,
            PanelView::SystemMessages,
            PanelView::ChatTabs,
            PanelView::ChatPanel { peer },
            PanelView::StatusBar,
            PanelView::ChatInput,
        ],
        None => seq![PanelView::TitleBar, PanelView::SystemMessages],
    };
    let command = if context.show_command_popup {
        seq![PanelView::CommandPopup]
    } else {
        Seq::empty()
    };
    let welcome = if context.show_welcome_popup {
        seq![PanelView::WelcomePopup]
    } else {
        Seq::empty()
    };
    let question = match context.connection_context {
        Some(pending) => seq![
            PanelView::AllowConnectionPopup {
                address: pending.connection_address,
                accept_selected: pending.accept_selected,
            },
        ],
        None => Seq::empty(),
    };
    fixed + command + welcome + question
}

/// The screen as a whole, as it is laid out from the state.
pub struct Root<'a> {
    context: &'a AppContext,
    command_popup: Option<CommandPopup<'a>>,
    chat_input: ChatInputWidget<'a>,
}

impl<'a> Root<'a> {
    /// The state that is shown.
    pub closed spec fn context(&self) -> AppContextView {
        self.context@
    }

    /// The command window, while it is shown.
    pub closed spec fn command_popup(&self) -> Option<CommandPopup<'a>> {
        self.command_popup
    }

    /// The line of the selected conversation.
    pub closed spec fn chat_input(&self) -> ChatInputWidget<'a> {
        self.chat_input
    }

    pub fn new(
        context: &'a AppContext,
        command_input: &'a CommandInput,
        chat_input: &'a ChatInput,
    ) -> (root: Self)
        ensures
            root.context() == context@,
            root.chat_input().input() == chat_input@,
            root.chat_input().length() == 0,
            match root.command_popup() {
                Some(popup) => context@.show_command_popup && popup.input() == command_input@
                    && popup.render_area() is None,
                None => !context@.show_command_popup,
            },
    {
        let command_popup = if context.show_command_popup {
            Some(CommandPopup::new(command_input))
        } else {
            None
        };
        Root { context, command_popup, chat_input: ChatInputWidget::new(chat_input) }
    }

    /// The parts that the screen shows, in the order in which they are
    /// drawn.
    pub fn panels(&self) -> (panels: Vec<Panel>)
        ensures
            panels_view(panels@) == panels_of(self.context()),
    {
        let mut panels: Vec<Panel> = Vec::new();
        panels.push(Panel::TitleBar);
        panels.push(Panel::SystemMessages);
        match self.context.chat_list.current() {
            Some(id) => {
                panels.push(Panel::ChatTabs);
                panels.push(Panel::ChatPanel { peer: id.clone() });
                panels.push(Panel::StatusBar);
                panels.push(Panel::ChatInput);
            },
            None => {},
        }
        if self.context.show_command_popup {
            panels.push(Panel::CommandPopup);
        }
        if self.context.show_welcome_popup {
            panels.push(Panel::WelcomePopup);
        }
        match &self.context.connection_context {
            Some(pending) => {
                panels.push(
                    Panel::AllowConnectionPopup {
                        address: pending.connection_address.clone(),
                        accept_selected: pending.accept_selected,
                    },
                );
            },
            None => {},
        }
        assert(panels_view(panels@) =~= panels_of(self.context()));
        panels
    }

    /// The area that the command window noted when the cursor was last
    /// placed in it.
    pub fn command_area(&self) -> (area: Option<Rect>)
        ensures
            area == match self.command_popup() {
                Some(popup) => popup.render_area(),
                None => None,
            },
    {
        match &self.command_popup {
            Some(popup) => popup.get_render_area(),
            None => None,
        }
    }

    /// The constraints on the rows of the screen.
    pub fn get_constraints(&self) -> (constraints: Vec<Constraint>)
        ensures
            constraints@ == layout_constraints(
                self.context().chat_list.current() is Some,
                self.chat_input().length(),
            ),
    {
        let mut constraints: Vec<Constraint> = Vec::new();
        match self.context.chat_list.current() {
            Some(_) => {
                constraints.push(Constraint::Length(1));
                constraints.push(Constraint::Percentage(20));
                constraints.push(Constraint::Length(3));
                constraints.push(Constraint::Min(1));
                constraints.push(Constraint::Length(1));
                constraints.push(Constraint::Length(self.chat_input.get_length()));
            },
            None => {
                constraints.push(Constraint::Length(1));
                constraints.push(Constraint::Min(1));
            },
        }
        assert(constraints@ =~= layout_constraints(
            self.context().chat_list.current() is Some,
            self.chat_input().length(),
        ));
        constraints
    }

    /// The rows of the screen within `area`: six with a selected
    /// conversation, two without.
    pub fn get_layout(&mut self, area: Rect) -> (chunks: Vec<Rect>)
        ensures
            *final(self) == *old(self),
            chunks.len() == layout_constraints(
                old(self).context().chat_list.current() is Some,
                old(self).chat_input().length(),
            ).len(),
            forall|i: int| 0 <= i < chunks.len() ==> area.contains_rect(#[trigger] chunks[i]),
    {
        let constraints = self.get_constraints();
        split(Direction::Vertical, &constraints, area)
    }

    /// Where on screen the cursor is: in the command window while it is
    /// shown, else in the line of the selected conversation, as the screen
    /// `area` lays them out. The part that holds the cursor notes how it
    /// was laid out.
    ///
    /// There is no cursor without a selected conversation, nor where the
    /// screen is too small or its coordinates cannot hold the place.
    pub fn get_cursor_location(&mut self, area: Rect) -> (place: Option<(u16, u16)>)
        ensures
            final(self).context() == old(self).context(),
            old(self).context().show_command_popup ==> {
                &&& final(self).chat_input() == old(self).chat_input()
                &&& match old(self).command_popup() {
                    Some(before) => final(self).command_popup() matches Some(after)
                        && after.located(before, area, place),
                    None => place is None && final(self).command_popup() is None,
                }
            },
            !old(self).context().show_command_popup ==> {
                &&& final(self).command_popup() == old(self).command_popup()
                &&& final(self).chat_input().input() == old(self).chat_input().input()
                &&& if old(self).context().chat_list.current() is Some && area.width >= 2 {
                    let cursor = cut_cell(
                        old(self).chat_input().input().cursor_cell((area.width - 2) as nat),
                    );
                    &&& final(self).chat_input().length() == if cursor.1 < u16::MAX {
                        cursor.1 + 1
                    } else {
                        u16::MAX as int
                    }
                    &&& exists|chunks: Seq<Rect>|
                        {
                            &&& chunks.len() == 6
                            &&& forall|i: int|
                                0 <= i < chunks.len() ==> area.contains_rect(#[trigger] chunks[i])
                            &&& place == #[trigger] chat_cursor_at(area, chunks, cursor)
                        }
                } else {
                    place is None && final(self).chat_input() == old(self).chat_input()
                }
            },
    {
        if self.context.show_command_popup {
            match &mut self.command_popup {
                Some(popup) => popup.get_cursor_location(area),
                None => None,
            }
        } else {
            let chunks = self.get_layout(area);
            if chunks.len() < 6 || area.width < 2 {
                return None;
            }
            let inner_width: usize = (area.width - 2) as usize;
            let input_cursor = self.chat_input.cursor_location(inner_width);
            let place = chat_cursor(area, &chunks, input_cursor);
            proof {
                let cursor = cut_cell(
                    old(self).chat_input().input().cursor_cell((area.width - 2) as nat),
                );
                assert(cursor == input_cursor);
                assert(chunks@.len() == 6);
                assert(place == chat_cursor_at(area, chunks@, cursor));
            }
            place
        }
    }
}

} // verus!
