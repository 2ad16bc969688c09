use crate::text::{chars_to_string, str_chars};
use crate::width::{char_width, display_width};
use vstd::arithmetic::div_mod::{lemma_fundamental_div_mod, lemma_fundamental_div_mod_converse};
use vstd::prelude::*;

pub mod allow_connection_input;
pub mod chat_input;
pub mod command_input;

verus! {

/// Where a cursor movement takes the cursor.
#[derive(Clone, Copy, Debug, PartialEq, Eq, Structural)]
pub enum CursorMovement {
    Left,
    Right,
    Start,
    End,
}

/// What an `Input` is, mathematically: its characters, the cursor's index
/// among them, and how many leading characters form the fixed prompt.
pub struct InputView {
    pub buffer: Seq<char>,
    pub cursor: nat,
    pub prompt_size: nat,
}

/// One step of the cursor walk: the cell reached from `cell` after a
/// character of display width `char_width`, in rows of `width` columns.
///
/// A character that ends exactly at the row's edge moves the cursor to the
/// start of the next row. One that would cross the edge goes whole to the
/// next row, and the cursor lands behind it.
pub open spec fn advance_cell(cell: (nat, nat), char_width: nat, width: nat) -> (nat, nat) {
    let reached = cell.0 + char_width;
    if reached == width {
        (0, cell.1 + 1)
    } else if reached > width {
        ((reached + char_width - 1 - width) as nat, cell.1 + 1)
    } else {
        (reached, cell.1)
    }
}

/// The cell `(column, row)` reached after walking all of `chars` from the
/// top left corner, in rows of `width` columns.
pub open spec fn cell_after(chars: Seq<char>, width: nat) -> (nat, nat)
    decreases chars.len(),
{
    if chars.len() == 0 {
        (0, 0)
    } else {
        advance_cell(cell_after(chars.drop_last(), width), display_width(chars.last()), width)
    }
}

impl InputView {
    /// The input that holds nothing but `prompt`, with the cursor behind it.
    pub open spec fn with_prompt(prompt: Seq<char>) -> InputView {
        InputView { buffer: prompt, cursor: prompt.len(), prompt_size: prompt.len() }
    }

    /// `prompt_size <= cursor <= len(buffer)`.
    pub open spec fn wf(self) -> bool {
        self.prompt_size <= self.cursor <= self.buffer.len()
    }

    /// The editable region: everything behind the prompt.
    pub open spec fn text(self) -> Seq<char> {
        self.buffer.skip(self.prompt_size as int)
    }

    /// With `character` at the cursor, and the cursor behind it.
    pub open spec fn write(self, character: char) -> InputView {
        InputView {
            buffer: self.buffer.insert(self.cursor as int, character),
            cursor: self.cursor + 1,
            prompt_size: self.prompt_size,
        }
    }

    /// Without the character under the cursor, if there is one.
    pub open spec fn remove(self) -> InputView {
        if self.cursor < self.buffer.len() {
            InputView { buffer: self.buffer.remove(self.cursor as int), ..self }
        } else {
            self
        }
    }

    /// Without the character before the cursor, unless that is the prompt's
    /// last.
    pub open spec fn remove_previous(self) -> InputView {
        if self.cursor > self.prompt_size {
            InputView {
                buffer: self.buffer.remove(self.cursor - 1),
                cursor: (self.cursor - 1) as nat,
                prompt_size: self.prompt_size,
            }
        } else {
            self
        }
    }

    /// With the cursor moved: one step left or right where the prompt and
    /// the end allow it, or to the first or last place it may take.
    pub open spec fn move_cursor(self, movement: CursorMovement) -> InputView {
        match movement {
            CursorMovement::Left => if self.cursor > self.prompt_size {
                InputView { cursor: (self.cursor - 1) as nat, ..self }
            } else {
                self
            },
            CursorMovement::Right => if self.cursor < self.buffer.len() {
                InputView { cursor: self.cursor + 1, ..self }
            } else {
                self
            },
            CursorMovement::Start => InputView { cursor: self.prompt_size, ..self },
            CursorMovement::End => InputView { cursor: self.buffer.len(), ..self },
        }
    }

    /// Without what stands between the prompt and the cursor, and the cursor
    /// behind the prompt.
    pub open spec fn clear_input_to_cursor(self) -> InputView {
        InputView {
            buffer: self.buffer.take(self.prompt_size as int) + self.buffer.skip(
                self.cursor as int,
            ),
            cursor: self.prompt_size,
            prompt_size: self.prompt_size,
        }
    }

    /// The input with its editable region emptied and the cursor behind the
    /// prompt.
    pub open spec fn reset(self) -> InputView {
        InputView {
            buffer: self.buffer.take(self.prompt_size as int),
            cursor: self.prompt_size,
            prompt_size: self.prompt_size,
        }
    }

    /// What a reset hands out: the editable region, or nothing where it is
    /// empty.
    pub open spec fn taken(self) -> Option<Seq<char>> {
        if self.text().len() == 0 {
            None
        } else {
            Some(self.text())
        }
    }

    /// The cursor's cell `(column, row)` in rows of `width` columns, before
    /// it is cut to what a terminal coordinate holds.
    pub open spec fn cursor_cell(self, width: nat) -> (nat, nat) {
        cell_after(self.buffer.take(self.cursor as int), width)
    }
}

/// A line of text under edit: characters, a cursor, and a prompt at the
/// front that no operation edits or lets the cursor enter.
#[derive(Debug)]
pub struct Input {
    buffer: Vec<char>,
    cursor: usize,
    prompt_size: usize,
}

impl View for Input {
    type V = InputView;

    closed spec fn view(&self) -> InputView {
        InputView {
            buffer: self.buffer@,
            cursor: self.cursor as nat,
            prompt_size: self.prompt_size as nat,
        }
    }
}

impl Input {
    /// Every input has its cursor between the prompt and the end.
    #[verifier::type_invariant]
    pub open spec fn inv(self) -> bool {
        self@.wf()
    }

    /// An input that starts with `prompt`, if there is one, and has the
    /// cursor right behind it.
    pub fn new(prompt: Option<&str>) -> (input: Self)
        ensures
            input@.wf(),
            match prompt {
                Some(p) => input@ == InputView::with_prompt(p@),
                None => input@ == InputView::with_prompt(Seq::empty()),
            },
    {
        match prompt {
            Some(p) => {
                let buffer = str_chars(p);
                let n: usize = buffer.len();
                Input { buffer, cursor: n, prompt_size: n }
            },
            None => Input { buffer: Vec::new(), cursor: 0, prompt_size: 0 },
        }
    }

    /// Everything in the buffer, prompt included, as a string.
    pub fn get_input(&self) -> (text: String)
        ensures
            text@ == self@.buffer,
            self@.wf(),
    {
        proof {
            use_type_invariant(self);
        }
        chars_to_string(&self.buffer, 0)
    }

    /// Hands the characters out and leaves an empty input without a prompt.
    fn take_buffer(&mut self) -> (buffer: Vec<char>)
        ensures
            buffer@ == old(self)@.buffer,
            final(self)@ == InputView::with_prompt(Seq::empty()),
    {
        let mut buffer: Vec<char> = Vec::new();
        proof {
            use_type_invariant(&*self);
        }
        self.prompt_size = 0;
        self.cursor = 0;
        core::mem::swap(&mut self.buffer, &mut buffer);
        buffer
    }

    /// Inserts `character` at the cursor and moves the cursor behind it.
    pub fn write(&mut self, character: char)
        ensures
            final(self)@ == old(self)@.write(character),
            final(self)@.wf(),
    {
        proof {
            use_type_invariant(&*self);
        }
        let cursor = self.cursor;
        let prompt_size = self.prompt_size;
        let mut buffer = self.take_buffer();
        buffer.insert(cursor, character);
        assert(cursor < buffer.len());
        *self = Input { buffer, cursor: cursor + 1, prompt_size };
    }

    /// Deletes the character under the cursor, if there is one.
    pub fn remove(&mut self)
        ensures
            final(self)@ == old(self)@.remove(),
            final(self)@.wf(),
    {
        proof {
            use_type_invariant(&*self);
        }
        let cursor = self.cursor;
        let prompt_size = self.prompt_size;
        let mut buffer = self.take_buffer();
        if cursor < buffer.len() {
            buffer.remove(cursor);
        }
        *self = Input { buffer, cursor, prompt_size };
    }

    /// Deletes the character before the cursor, unless the cursor stands
    /// right behind the prompt.
    pub fn remove_previous(&mut self)
        ensures
            final(self)@ == old(self)@.remove_previous(),
            final(self)@.wf(),
    {
        proof {
            use_type_invariant(&*self);
        }
        if self.cursor > self.prompt_size {
            let cursor = self.cursor - 1;
            let prompt_size = self.prompt_size;
            let mut buffer = self.take_buffer();
            buffer.remove(cursor);
            *self = Input { buffer, cursor, prompt_size };
        }
    }

    /// Moves the cursor, never into the prompt nor past the end.
    pub fn move_cursor(&mut self, movement: CursorMovement)
        ensures
            final(self)@ == old(self)@.move_cursor(movement),
            final(self)@.wf(),
    {
        proof {
            use_type_invariant(&*self);
        }
        match movement {
            CursorMovement::Left => {
                if self.cursor > self.prompt_size {
                    self.cursor -= 1;
                }
            },
            CursorMovement::Right => {
                if self.cursor < self.buffer.len() {
                    self.cursor += 1;
                }
            },
            CursorMovement::Start => {
                self.cursor = self.prompt_size;
            },
            CursorMovement::End => {
                self.cursor = self.buffer.len();
            },
        }
    }

    /// Deletes what stands between the prompt and the cursor.
    pub fn clear_input_to_cursor(&mut self)
        ensures
            final(self)@ == old(self)@.clear_input_to_cursor(),
            final(self)@.wf(),
    {
        proof {
            use_type_invariant(&*self);
        }
        let cursor = self.cursor;
        let prompt_size = self.prompt_size;
        let mut buffer = self.take_buffer();
        let ghost before = buffer@;
        let mut tail = buffer.split_off(cursor);
        buffer.truncate(prompt_size);
        buffer.append(&mut tail);
        assert(buffer@ =~= before.take(prompt_size as int) + before.skip(cursor as int));
        *self = Input { buffer, cursor: prompt_size, prompt_size };
    }

    /// Takes the editable region out of the buffer. Returns it, unless it
    /// was empty. The cursor ends right behind the prompt.
    pub fn reset_input(&mut self) -> (taken: Option<String>)
        ensures
            final(self)@ == old(self)@.reset(),
            final(self)@.wf(),
            final(self)@.cursor == final(self)@.prompt_size,
            match taken {
                Some(s) => old(self)@.taken() == Some(s@),
                None => old(self)@.taken() is None,
            },
    {
        proof {
            use_type_invariant(&*self);
        }
        let prompt_size = self.prompt_size;
        let mut buffer = self.take_buffer();
        let ghost before = buffer@;
        let taken = if buffer.len() > prompt_size {
            Some(chars_to_string(&buffer, prompt_size))
        } else {
            None
        };
        buffer.truncate(prompt_size);
        assert(buffer@ =~= before.take(prompt_size as int));
        *self = Input { buffer, cursor: prompt_size, prompt_size };
        taken
    }

    /// The cursor's cell `(column, row)` on screen when the buffer is laid
    /// out in rows of `width` columns, each coordinate cut to sixteen bits.
    pub fn cursor_location(&self, width: usize) -> (location: (u16, u16))
        ensures
            location.0 == self@.cursor_cell(width as nat).0 % 0x1_0000,
            location.1 == self@.cursor_cell(width as nat).1 % 0x1_0000,
            self@.wf(),
    {
        proof {
            use_type_invariant(self);
        }
        let mut column: u128 = 0;
        let mut row: u128 = 0;
        let mut i: usize = 0;
        while i < self.cursor
            invariant
                i <= self.cursor <= self.buffer.len(),
                (column as nat, row as nat) == cell_after(self.buffer@.take(i as int), width as nat),
                column <= 5 * i,
                row <= i,
            decreases self.cursor - i,
        {
            let w: u128 = char_width(self.buffer[i]) as u128;
            proof {
                let next = self.buffer@.take(i + 1);
                assert(next.drop_last() =~= self.buffer@.take(i as int));
                assert(next.last() == self.buffer@[i as int]);
            }
            let reached: u128 = column + w;
            if reached == width as u128 {
                column = 0;
                row += 1;
            } else if reached > width as u128 {
                column = reached - (width as u128) - 1 + w;
                row += 1;
            } else {
                column = reached;
            }
            i += 1;
        }
        ((column % 0x1_0000) as u16, (row % 0x1_0000) as u16)
    }
}

/// Resetting twice: the first reset leaves the editable region empty and the
/// cursor right behind the prompt, so the second hands out nothing and
/// changes nothing.
pub proof fn lemma_reset_twice(input: InputView)
    requires
        input.wf(),
    ensures
        input.reset().wf(),
        input.reset().cursor == input.prompt_size,
        input.reset().taken() is None,
        input.reset().reset() == input.reset(),
{
    let once = input.reset();
    assert(once.buffer.take(once.prompt_size as int) =~= once.buffer);
}

/// Every editing operation keeps the cursor between the prompt and the end
/// of the buffer.
pub proof fn lemma_operations_keep_cursor_in_bounds(
    input: InputView,
    character: char,
    movement: CursorMovement,
)
    requires
        input.wf(),
    ensures
        input.write(character).wf(),
        input.remove().wf(),
        input.remove_previous().wf(),
        input.move_cursor(movement).wf(),
        input.clear_input_to_cursor().wf(),
        input.reset().wf(),
{
}

/// With `width` columns to a row, a walk over `chars`, each one column wide,
/// ends in column `len mod width` of row `len div width`.
pub proof fn lemma_single_width_cell(chars: Seq<char>, width: nat)
    requires
        width >= 1,
        forall|i: int| 0 <= i < chars.len() ==> display_width(#[trigger] chars[i]) == 1,
    ensures
        cell_after(chars, width) == (chars.len() % width, chars.len() / width),
    decreases chars.len(),
{
    if chars.len() > 0 {
        let front = chars.drop_last();
        assert forall|i: int| 0 <= i < front.len() implies display_width(#[trigger] front[i])
            == 1 by {
            assert(front[i] == chars[i]);
        }
        lemma_single_width_cell(front, width);
        let n = front.len() as int;
        let w = width as int;
        assert(display_width(chars[n]) == 1);
        assert(chars.last() == chars[n]);
        assert(cell_after(chars, width) == advance_cell(cell_after(front, width), 1, width));
        lemma_fundamental_div_mod(n, w);
        assert(0 <= n % w < w) by {
            vstd::arithmetic::div_mod::lemma_mod_bound(n, w);
        }
        if n % w + 1 == w {
            assert(n + 1 == (n / w + 1) * w + 0) by (nonlinear_arith)
                requires
                    n == w * (n / w) + n % w,
                    n % w + 1 == w,
            ;
            lemma_fundamental_div_mod_converse(n + 1, w, n / w + 1, 0);
            assert((n + 1) % w == 0 && (n + 1) / w == n / w + 1);
        } else {
            assert(n + 1 == (n / w) * w + (n % w + 1)) by (nonlinear_arith)
                requires
                    n == w * (n / w) + n % w,
            ;
            lemma_fundamental_div_mod_converse(n + 1, w, n / w, n % w + 1);
            assert((n + 1) % w == n % w + 1 && (n + 1) / w == n / w);
        }
        assert(chars.len() == n + 1);
    } else {
        vstd::arithmetic::div_mod::lemma_small_mod(0, width);
        vstd::arithmetic::div_mod::lemma_div_basics(width as int);
        assert(0int % (width as int) == 0);
        assert(0int / (width as int) == 0);
    }
}

/// An input whose characters before the cursor are each one column wide
/// has its cursor in column `cursor mod width` of row `cursor div width`.
pub proof fn lemma_single_width_cursor(input: InputView, width: nat)
    requires
        input.wf(),
        width >= 1,
        forall|i: int| 0 <= i < input.cursor ==> display_width(#[trigger] input.buffer[i]) == 1,
    ensures
        input.cursor_cell(width) == (input.cursor % width, input.cursor / width),
{
    lemma_single_width_cell(input.buffer.take(input.cursor as int), width);
}

impl Default for Input {
    /// An empty input without a prompt.
    fn default() -> (input: Self)
        ensures
            input@ == InputView::with_prompt(Seq::empty()),
            input@.wf(),
    {
        Input { buffer: Vec::new(), cursor: 0, prompt_size: 0 }
    }
}

impl Clone for Input {
    fn clone(&self) -> (copy: Self)
        ensures
            copy@ == self@,
    {
        proof {
            use_type_invariant(self);
        }
        Input { buffer: self.buffer.clone(), cursor: self.cursor, prompt_size: self.prompt_size }
    }
}

} // verus!
