use crate::layout::{Constraint, Rect};
use crate::root::{boxed_rect, centered_rect_accepts};
use vstd::prelude::*;
use vstd::string::{is_ascii_spec_bytes, StringExecFns, StringSliceAdditionalSpecFns};

verus! {

/// The question whether to accept a connection, as it is laid out on
/// screen: the peer's address and the answer that is selected.
pub struct AllowConnectionPopup {
    onion_address: String,
    accept_selected: bool,
}

/// The line above the address.
pub open spec fn intro_text() -> Seq<char> {
    "  Incoming connection from:"@
}

/// The address as it is shown: the peer's identity with `.onion` behind it.
pub open spec fn address_text(onion_address: Seq<char>) -> Seq<char> {
    onion_address + ".onion"@
}

/// How many bytes a text takes, as far as the machine counts.
pub open spec fn byte_len(text: Seq<char>) -> usize {
    vstd::utf8::encode_utf8(text).len() as usize
}

/// The width of the question's text, counted in bytes: that of the line
/// above the address, or of the address where it is longer.
pub open spec fn message_width_of(onion_address: Seq<char>) -> usize {
    if byte_len(address_text(onion_address)) > byte_len(intro_text()) {
        byte_len(address_text(onion_address))
    } else {
        byte_len(intro_text())
    }
}

impl AllowConnectionPopup {
    /// The peer's identity.
    pub closed spec fn onion_address(&self) -> Seq<char> {
        self.onion_address@
    }

    /// Whether "accept" is the selected answer.
    pub closed spec fn accept_selected(&self) -> bool {
        self.accept_selected
    }

    pub fn new(onion_address: &str, accept_selected: bool) -> (popup: Self)
        ensures
            popup.onion_address() == onion_address@,
            popup.accept_selected() == accept_selected,
    {
        AllowConnectionPopup { onion_address: String::from_str(onion_address), accept_selected }
    }

    pub fn is_accept_selected(&self) -> (selected: bool)
        ensures
            selected == self.accept_selected(),
    {
        self.accept_selected
    }

    /// The address as it is shown.
    pub fn address(&self) -> (text: String)
        ensures
            text@ == address_text(self.onion_address()),
    {
        let mut text = self.onion_address.clone();
        text.append(".onion");
        text
    }

    /// The width of the question's text, in bytes.
    pub fn message_width(&self) -> (width: usize)
        ensures
            width == message_width_of(self.onion_address()),
            width >= 27,
    {
        let intro = "  Incoming connection from:";
        let address = self.address();
        proof {
            reveal_strlit("  Incoming connection from:");
            assert(vstd::string::is_ascii(intro));
            is_ascii_spec_bytes(intro);
        }
        let intro_len: usize = intro.len();
        let address_len: usize = address.as_str().len();
        if address_len > intro_len {
            address_len
        } else {
            intro_len
        }
    }

    /// The blanks between the two answers: what the width leaves of the two
    /// answers' eight characters each.
    pub fn spacer(&self) -> (blanks: String)
        ensures
            blanks@ == Seq::new(
                (message_width_of(self.onion_address()) - 16) as nat,
                |i: int| ' ',
            ),
    {
        let num_spaces: usize = self.message_width() - 16;
        let mut blanks = String::new();
        let mut i: usize = 0;
        while i < num_spaces
            invariant
                i <= num_spaces,
                blanks@ == Seq::new(i as nat, |i: int| ' '),
            decreases num_spaces - i,
        {
            blanks.push(' ');
            i += 1;
            assert(blanks@ =~= Seq::new(i as nat, |i: int| ' '));
        }
        blanks
    }

    /// The window's area in the middle of `area`: the text's seven lines
    /// with three cells of padding at each side. None where `area` has no
    /// room for it.
    pub fn popup_area(&self, area: Rect) -> (part: Option<Rect>)
        ensures
            part is Some <==> question_fits(self.onion_address(), area),
            part matches Some(part) ==> area.contains_rect(part),
    {
        boxed_rect(self.message_width(), 6, 7, area)
    }
}

/// Whether the screen `area` has room for the question about the peer
/// `onion_address`: for its seven lines between two border rows, with two
/// cells left below the middle, and for the width of its text with six cells
/// of padding, cut to sixteen bits.
pub open spec fn question_fits(onion_address: Seq<char>, area: Rect) -> bool {
    centered_rect_accepts(
        Constraint::Length(((message_width_of(onion_address) + 6) % 0x1_0000) as u16),
        Constraint::Length(9),
        area,
    )
}

} // verus!
