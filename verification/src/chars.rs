//! The characters of the palette, in the order shown: frequent ones first,
//! then light, heavy, double and mixed lines.

use vstd::prelude::*;

verus! {

/// One titled group of buttons.
pub struct Section {
    pub title: &'static str,
    pub chars: Vec<char>,
}

/// Whether `c` is in Unicode's Box Drawing block (U+2500 to U+257F).
pub open spec fn is_box_drawing(c: char) -> bool {
    0x2500 <= c as u32 <= 0x257F
}

/// The palette's sections, in the order shown: `よく使う` (frequent, with
/// `├ │ └ ─ ┬` first), `細` (light), `太` (heavy), `二重` (double) and `混`
/// (mixed). Every button is a box-drawing character.
pub fn sections() -> (s: Vec<Section>)
    ensures
        s@.len() == 5,
        s@[0].title@ == "よく使う"@,
        s@[1].title@ == "細"@,
        s@[2].title@ == "太"@,
        s@[3].title@ == "二重"@,
        s@[4].title@ == "混"@,
        s@[0].chars@ == seq!['├', '│', '└', '─', '┬'],
        forall|i: int, j: int| 0 <= i < 5 && 0 <= j < s@[i].chars@.len() ==> is_box_drawing(#[trigger] s@[i].chars@[j]),
{
    let mut s: Vec<Section> = Vec::new();
    let chars: Vec<char> = vec!['├', '│', '└', '─', '┬'];
    assert(forall|j: int| 0 <= j < chars@.len() ==> is_box_drawing(#[trigger] chars@[j]));
    s.push(Section { title: "よく使う", chars });
    let chars: Vec<char> = vec!['─', '│', '┌', '┐', '└', '┘', '├', '┤', '┬', '┴', '┼', '╭', '╮', '╰', '╯', '╴', '╵', '╶', '╷', '┄', '┆', '┈', '┊', '╌', '╎'];
    assert(forall|j: int| 0 <= j < chars@.len() ==> is_box_drawing(#[trigger] chars@[j]));
    s.push(Section { title: "細", chars });
    let chars: Vec<char> = vec!['━', '┃', '┏', '┓', '┗', '┛', '┣', '┫', '┳', '┻', '╋', '╸', '╹', '╺', '╻', '┅', '┇', '┉', '┋', '╍', '╏'];
    assert(forall|j: int| 0 <= j < chars@.len() ==> is_box_drawing(#[trigger] chars@[j]));
    s.push(Section { title: "太", chars });
    let chars: Vec<char> = vec!['═', '║', '╔', '╗', '╚', '╝', '╠', '╣', '╦', '╩', '╬'];
    assert(forall|j: int| 0 <= j < chars@.len() ==> is_box_drawing(#[trigger] chars@[j]));
    s.push(Section { title: "二重", chars });
    let chars: Vec<char> = vec!['┍', '┎', '┑', '┒', '┕', '┖', '┙', '┚', '┝', '┞', '┟', '┠', '┡', '┢', '┥', '┦', '┧', '┨', '┩', '┪', '┭', '┮', '┯', '┰', '┱', '┲', '┵', '┶', '┷', '┸', '┹', '┺', '┽', '┾', '┿', '╀', '╁', '╂', '╃', '╄', '╅', '╆', '╇', '╈', '╉', '╊', '╼', '╽', '╾', '╿', '╒', '╓', '╕', '╖', '╘', '╙', '╛', '╜', '╞', '╟', '╡', '╢', '╤', '╥', '╧', '╨', '╪', '╫'];
    assert(forall|j: int| 0 <= j < chars@.len() ==> is_box_drawing(#[trigger] chars@[j]));
    s.push(Section { title: "混", chars });
    s
}

} // verus!
