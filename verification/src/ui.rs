//! Selection logic of the picker window.
//!
//! The widgets, painting and focus handling live outside the library; what
//! is verified here is what the picker decides on its own input: which
//! keystrokes move the selection or quit, where the selection moves within
//! the grid, and when the selected result may be inserted.

use vstd::prelude::*;

verus! {

/// Movement intent for the picker grid.
#[derive(Clone, Copy, PartialEq, Eq, Structural, Debug)]
pub enum Direction {
    Left,
    Right,
    Up,
    Down,
}

/// A keystroke as the picker's search box sees it.
#[derive(Clone, Copy, PartialEq, Eq, Structural, Debug)]
pub enum PickerKey {
    /// A printable character key.
    Character(char),
    /// The enter key.
    Enter,
    /// Anything else; the picker leaves it to the text box.
    Other,
}

/// What the picker does with a keystroke.
#[derive(Clone, Copy, PartialEq, Eq, Structural, Debug)]
pub enum PickerCommand {
    /// Move the grid selection.
    Move(Direction),
    /// Quit the application.
    Quit,
    /// Insert the selected character.
    Insert,
    /// Nothing; the keystroke belongs to the text box.
    NoOp,
}

/// The vi-style movement keys.
pub open spec fn spec_move_key(c: char) -> Option<Direction> {
    if c == 'h' {
        Some(Direction::Left)
    } else if c == 'k' {
        Some(Direction::Up)
    } else if c == 'j' {
        Some(Direction::Down)
    } else if c == 'l' {
        Some(Direction::Right)
    } else {
        None
    }
}

/// Whether control is held alone, with no other modifier.
pub open spec fn spec_ctrl_only(ctrl: bool, alt: bool, meta: bool, shift: bool) -> bool {
    ctrl && !(alt || meta || shift)
}

/// The picker's keystroke mapping: with control held alone, `h`, `j`,
/// `k`, `l` move the selection and `g` quits; enter inserts the selected
/// character whatever the modifiers; everything else is left alone.
pub open spec fn spec_picker_command(key: PickerKey, ctrl_only: bool) -> PickerCommand {
    match key {
        PickerKey::Character(c) => if ctrl_only {
            if c == 'g' {
                PickerCommand::Quit
            } else {
                match spec_move_key(c) {
                    Some(dir) => PickerCommand::Move(dir),
                    None => PickerCommand::NoOp,
                }
            }
        } else {
            PickerCommand::NoOp
        },
        PickerKey::Enter => PickerCommand::Insert,
        PickerKey::Other => PickerCommand::NoOp,
    }
}

/// Whether control is held alone, with no other modifier.
pub fn ctrl_only(ctrl: bool, alt: bool, meta: bool, shift: bool) -> (r: bool)
    ensures
        r == spec_ctrl_only(ctrl, alt, meta, shift),
{
    ctrl && !(alt || meta || shift)
}

/// Map one keystroke and its modifiers to the picker's command.
pub fn picker_command(key: PickerKey, ctrl: bool, alt: bool, meta: bool, shift: bool) -> (cmd:
    PickerCommand)
    ensures
        cmd == spec_picker_command(key, spec_ctrl_only(ctrl, alt, meta, shift)),
{
    let only_ctrl = ctrl_only(ctrl, alt, meta, shift);
    match key {
        PickerKey::Character(c) => {
            if only_ctrl {
                if c == 'g' {
                    PickerCommand::Quit
                } else if c == 'h' {
                    PickerCommand::Move(Direction::Left)
                } else if c == 'k' {
                    PickerCommand::Move(Direction::Up)
                } else if c == 'j' {
                    PickerCommand::Move(Direction::Down)
                } else if c == 'l' {
                    PickerCommand::Move(Direction::Right)
                } else {
                    PickerCommand::NoOp
                }
            } else {
                PickerCommand::NoOp
            }
        },
        PickerKey::Enter => PickerCommand::Insert,
        PickerKey::Other => PickerCommand::NoOp,
    }
}

/// Where the selection moves within a grid of `len` items laid out in
/// rows of `cols` columns: left and up stop at the first item, right and
/// down stop at the last.
pub open spec fn spec_move_selection(old_idx: int, len: int, cols: int, dir: Direction) -> int {
    match dir {
        Direction::Left => if old_idx > 0 {
            old_idx - 1
        } else {
            0
        },
        Direction::Right => if old_idx + 1 <= len - 1 {
            old_idx + 1
        } else {
            len - 1
        },
        Direction::Up => if old_idx > cols {
            old_idx - cols
        } else {
            0
        },
        Direction::Down => if old_idx + cols <= len - 1 {
            old_idx + cols
        } else {
            len - 1
        },
    }
}

/// Move the selection one step; the result always stays within the list.
pub fn move_selection(old_idx: usize, len: usize, cols: usize, dir: Direction) -> (new_idx: usize)
    requires
        len > 0,
        old_idx < len,
    ensures
        new_idx == spec_move_selection(old_idx as int, len as int, cols as int, dir),
        new_idx < len,
{
    match dir {
        Direction::Left => if old_idx > 0 {
            old_idx - 1
        } else {
            0
        },
        Direction::Right => if old_idx + 1 <= len - 1 {
            old_idx + 1
        } else {
            len - 1
        },
        Direction::Up => if old_idx > cols {
            old_idx - cols
        } else {
            0
        },
        Direction::Down => if cols <= len - 1 - old_idx {
            old_idx + cols
        } else {
            len - 1
        },
    }
}

/// The index of the selected result, when the selection lies within the
/// result list; `None` when the list is too short (then there is nothing
/// to insert or describe).
pub fn selected_result(select_idx: usize, len: usize) -> (r: Option<usize>)
    ensures
        r == (if select_idx < len {
            Some(select_idx)
        } else {
            None::<usize>
        }),
{
    if select_idx < len {
        Some(select_idx)
    } else {
        None
    }
}

} // verus!
