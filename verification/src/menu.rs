//! Widgets of the side panel and the pre-game menu whose state has real
//! content: row placement, the score readout, and the line editor behind
//! the name-entry field. Drawing them is left to the caller.

use vstd::prelude::*;

verus! {

broadcast use vstd::string::to_string_from_display_ensures_for_str;

/// One labelled readout of the side panel: a title line and a data line,
/// placed at a fixed column and at three rows per index (two lines of text
/// plus one of spacing).
#[derive(Debug)]
pub struct InfoRow<T> {
    pub title: String,
    pub data: T,
    pub x_offset: u16,
    pub y_position: u16,
}

impl<T> InfoRow<T> {
    pub fn new(title: &str, data: T, x_offset: u16, row_index: u16) -> (r: Self)
        requires
            row_index <= u16::MAX / 3,
        ensures
            r.title@ == title@,
            r.data == data,
            r.x_offset == x_offset,
            r.y_position == row_index * 3,
    {
        Self { title: title.to_string(), data, x_offset, y_position: row_index * 3 }
    }
}

/// The in-game side panel: its column and size, and three readouts
/// (player name, running score, best score).
#[derive(Debug)]
pub struct SidePanel {
    pub x: u16,
    pub width: u16,
    pub height: u16,
    pub player_row: InfoRow<String>,
    pub score_row: InfoRow<u32>,
    pub max_score_row: InfoRow<u32>,
}

impl SidePanel {
    pub fn new(game_width_offset: u16, height: u16, panel_width: u16, player_name: String) -> (r:
        Self)
        requires
            game_width_offset + 2 <= u16::MAX,
        ensures
            r.x == game_width_offset + 2,
            r.width == panel_width,
            r.height == height,
            r.player_row.title@ == "PLAYER"@,
            r.player_row.data == player_name,
            r.player_row.x_offset == r.x,
            r.player_row.y_position == 0,
            r.score_row.title@ == "SCORE"@,
            r.score_row.data == 0u32,
            r.score_row.x_offset == r.x,
            r.score_row.y_position == 3,
            r.max_score_row.title@ == "MAX SCORE"@,
            r.max_score_row.data == 25u32,
            r.max_score_row.x_offset == r.x,
            r.max_score_row.y_position == 6,
    {
        let x = game_width_offset + 2;
        Self {
            x,
            width: panel_width,
            height,
            player_row: InfoRow::new("PLAYER", player_name, x, 0),
            score_row: InfoRow::new("SCORE", 0, x, 1),
            max_score_row: InfoRow::new("MAX SCORE", 25, x, 2),
        }
    }

    /// Replace the score readout's data; every other field is kept.
    pub fn update_score(&mut self, score: u32)
        ensures
            final(self).score_row.data == score,
            final(self).score_row.title == old(self).score_row.title,
            final(self).score_row.x_offset == old(self).score_row.x_offset,
            final(self).score_row.y_position == old(self).score_row.y_position,
            final(self).x == old(self).x,
            final(self).width == old(self).width,
            final(self).height == old(self).height,
            final(self).player_row == old(self).player_row,
            final(self).max_score_row == old(self).max_score_row,
    {
        self.score_row.data = score;
    }
}

/// A key that the name-entry line editor reacts to. Raw key events are
/// mapped to this set (or dropped) before they reach the editor.
#[derive(Debug, Clone, Copy, PartialEq, Eq, Structural)]
pub enum EditKey {
    Char(char),
    Backspace,
    Left,
    Right,
}

/// A single-line text input with a cursor: the name-entry field of the
/// menu. The text is held as its characters; the cursor sits between
/// characters, from 0 to the text's length.
pub struct InputInfoRow {
    pub x: u16,
    pub y: u16,
    pub label: String,
    pub value: Vec<char>,
    pub cursor_position: usize,
}

impl InputInfoRow {
    /// Well-formedness: the cursor never points past the end of the text.
    pub open spec fn wf(self) -> bool {
        self.cursor_position <= self.value@.len()
    }

    pub fn new(x: u16, y: u16, label: &str) -> (r: Self)
        ensures
            r.x == x,
            r.y == y,
            r.label@ == label@,
            r.value@ == Seq::<char>::empty(),
            r.cursor_position == 0,
            r.wf(),
    {
        Self { x, y, label: label.to_string(), value: Vec::new(), cursor_position: 0 }
    }

    /// One editing step: a character is inserted at the cursor (which moves
    /// past it); backspace removes the character before the cursor; left
    /// and right move the cursor within the text; a key with nothing to do
    /// (backspace or left at the start, right at the end) changes nothing.
    pub fn handle_input(&mut self, key: EditKey)
        requires
            old(self).wf(),
            old(self).value@.len() < usize::MAX,
        ensures
            final(self).x == old(self).x,
            final(self).y == old(self).y,
            final(self).label == old(self).label,
            final(self).wf(),
            key matches EditKey::Char(c) ==> {
                &&& final(self).value@ == old(self).value@.insert(
                    old(self).cursor_position as int,
                    c,
                )
                &&& final(self).cursor_position == old(self).cursor_position + 1
            },
            key == EditKey::Backspace && old(self).cursor_position > 0 ==> {
                &&& final(self).value@ == old(self).value@.remove(
                    old(self).cursor_position - 1,
                )
                &&& final(self).cursor_position == old(self).cursor_position - 1
            },
            key == EditKey::Backspace && old(self).cursor_position == 0 ==> {
                &&& final(self).value@ == old(self).value@
                &&& final(self).cursor_position == old(self).cursor_position
            },
            key == EditKey::Left ==> final(self).value@ == old(self).value@,
            key == EditKey::Left && old(self).cursor_position > 0 ==> final(
                self).cursor_position == old(self).cursor_position - 1,
            key == EditKey::Left && old(self).cursor_position == 0 ==> final(
                self).cursor_position == 0,
            key == EditKey::Right ==> final(self).value@ == old(self).value@,
            key == EditKey::Right && old(self).cursor_position < old(self).value@.len() ==> final(
                self).cursor_position == old(self).cursor_position + 1,
            key == EditKey::Right && old(self).cursor_position >= old(self).value@.len() ==> final(
                self).cursor_position == old(self).cursor_position,
    {
        match key {
            EditKey::Char(c) => {
                self.value.insert(self.cursor_position, c);
                self.cursor_position = self.cursor_position + 1;
            },
            EditKey::Backspace => {
                if self.cursor_position > 0 {
                    let target_pos = self.cursor_position - 1;
                    self.value.remove(target_pos);
                    self.cursor_position = target_pos;
                }
            },
            EditKey::Left => {
                if self.cursor_position > 0 {
                    self.cursor_position = self.cursor_position - 1;
                }
            },
            EditKey::Right => {
                if self.cursor_position < self.value.len() {
                    self.cursor_position = self.cursor_position + 1;
                }
            },
        }
    }
}

/// A labelled menu button and whether it is the selected one.
pub struct Button {
    pub x: u16,
    pub y: u16,
    pub label: String,
    pub selected: bool,
}

impl Button {
    pub fn new(x: u16, y: u16, label: &str, selected: bool) -> (r: Self)
        ensures
            r.x == x,
            r.y == y,
            r.label@ == label@,
            r.selected == selected,
    {
        Self { x, y, label: label.to_string(), selected }
    }
}

} // verus!
