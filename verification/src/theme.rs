use rand::seq::SliceRandom;
use vstd::prelude::*;

verus! {

/// A colour in which a peer's name is shown.
#[derive(Clone, Copy, Debug, PartialEq, Eq, Structural)]
pub enum Color {
    LightRed,
    Red,
    LightYellow,
    Yellow,
    LightGreen,
    Green,
    Magenta,
}

impl View for Color {
    type V = Color;

    open spec fn view(&self) -> Color {
        *self
    }
}

/// The colours that peers are given, one at random to each.
pub open spec fn message_id_colors() -> Seq<Color> {
    seq![
        Color::LightRed,
        Color::Red,
        Color::LightYellow,
        Color::Yellow,
        Color::LightGreen,
        Color::Green,
        Color::Magenta,
    ]
}

pub fn palette() -> (colors: Vec<Color>)
    ensures
        colors@ == message_id_colors(),
{
    let mut colors: Vec<Color> = Vec::new();
    colors.push(Color::LightRed);
    colors.push(Color::Red);
    colors.push(Color::LightYellow);
    colors.push(Color::Yellow);
    colors.push(Color::LightGreen);
    colors.push(Color::Green);
    colors.push(Color::Magenta);
    assert(colors@ =~= message_id_colors());
    colors
}

/// Calls `rand::seq::SliceRandom::choose` with the thread's generator. It
/// hands out one of the elements, whichever chance picks, and nothing only
/// where there is none to pick.
#[verifier::external_body]
fn pick(colors: &Vec<Color>) -> (picked: Option<Color>)
    ensures
        match picked {
            Some(color) => colors@.contains(color),
            None => colors@.len() == 0,
        },
{
    colors.choose(&mut rand::thread_rng()).copied()
}

/// One of the colours for peers, picked at random.
pub fn random_color() -> (color: Color)
    ensures
        message_id_colors().contains(color),
{
    let colors = palette();
    match pick(&colors) {
        Some(color) => color,
        None => {
            assert(message_id_colors().len() == 7);
            Color::LightRed
        },
    }
}

} // verus!
