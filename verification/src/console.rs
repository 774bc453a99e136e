//! Decisions of an interactive driver: what a key means in each state of the
//! machine, and where things go on the screen.
//!
//! The driver itself reads keys and draws; nothing here does. It hands over
//! what it has read and acts on what it gets back.

use crate::model::Status;
use vstd::prelude::*;

verus! {

/// A key, as far as the driver tells keys apart.
#[derive(Clone, Copy, Debug, PartialEq, Eq, Structural)]
pub enum Key {
    Enter,
    Backspace,
    Char(char),
    Other,
}

/// What the driver is to do about a key.
#[derive(Clone, Copy, Debug, PartialEq, Eq, Structural)]
pub enum Action {
    /// Nothing.
    Ignore,
    /// Leave the session.
    Quit,
    /// Run one instruction.
    Step,
    /// Add the character to the line that is being typed.
    Append(char),
    /// Take the last character off the line that is being typed.
    Erase,
    /// Deliver the line that was typed to the machine, and start a new one.
    Submit,
}

/// The meaning of `key`. `pressed` tells a key going down from one that
/// repeats or goes up.
///
/// A machine that waits for input takes the keys as text: characters as they
/// go down, `Backspace` and `Enter` in any case. A machine that is ready
/// steps on `n` and quits on `q`, as the key goes down. A halted machine only
/// quits, on any `q`.
pub open spec fn reaction(status: Status, key: Key, pressed: bool) -> Action {
    match status {
        Status::AwaitingInput => match key {
            Key::Enter => Action::Submit,
            Key::Backspace => Action::Erase,
            Key::Char(c) => if pressed {
                Action::Append(c)
            } else {
                Action::Ignore
            },
            Key::Other => Action::Ignore,
        },
        Status::Ready => if pressed && key == Key::Char('n') {
            Action::Step
        } else if pressed && key == Key::Char('q') {
            Action::Quit
        } else {
            Action::Ignore
        },
        Status::Halted => if key == Key::Char('q') {
            Action::Quit
        } else {
            Action::Ignore
        },
    }
}

/// Decides what to do about `key` while the machine is in `status`.
pub fn react(status: Status, key: Key, pressed: bool) -> (r: Action)
    ensures
        r == reaction(status, key, pressed),
{
    match status {
        Status::AwaitingInput => match key {
            Key::Enter => Action::Submit,
            Key::Backspace => Action::Erase,
            Key::Char(c) => if pressed {
                Action::Append(c)
            } else {
                Action::Ignore
            },
            Key::Other => Action::Ignore,
        },
        Status::Ready => match key {
            Key::Char(c) => if pressed && c == 'n' {
                Action::Step
            } else if pressed && c == 'q' {
                Action::Quit
            } else {
                Action::Ignore
            },
            _ => Action::Ignore,
        },
        Status::Halted => match key {
            Key::Char(c) => if c == 'q' {
                Action::Quit
            } else {
                Action::Ignore
            },
            _ => Action::Ignore,
        },
    }
}

/// The number of rows at the bottom of the screen that show the output.
pub const OUTPUT_ROWS: u16 = 7;

/// Where the parts of the display go on a screen of a given size. Rows and
/// columns count from 0.
#[derive(Clone, Copy, Debug, PartialEq, Eq, Structural)]
pub struct Layout {
    /// The column at which the stack is listed; the program is left of it.
    pub stack_column: u16,
    /// The row of the output's heading; the output follows below it.
    pub output_row: u16,
    /// The row in which input is typed.
    pub prompt_row: u16,
    /// The row that says that the program has halted.
    pub halted_row: u16,
    /// The row that shows the program counter.
    pub counter_row: u16,
    /// How many lines of output are shown: the last ones.
    pub output_lines: u16,
}

/// A number of rows or columns kept within what a screen can have.
pub open spec fn clamp(x: int) -> u16 {
    if x < 0 {
        0
    } else if x > u16::MAX {
        u16::MAX
    } else {
        x as u16
    }
}

impl Layout {
    /// The layout for a screen of `columns` by `rows`: the stack begins two
    /// columns right of the middle; the output takes the last rows, with its
    /// heading first and the prompt last; the bottom row shows the counter
    /// and the one above it the halt notice.
    pub open spec fn of(columns: u16, rows: u16) -> Layout {
        Layout {
            stack_column: clamp(columns / 2 + 2),
            output_row: clamp(rows - OUTPUT_ROWS),
            prompt_row: clamp(clamp(rows - OUTPUT_ROWS) + OUTPUT_ROWS - 1),
            halted_row: clamp(rows - 2),
            counter_row: clamp(rows - 1),
            output_lines: (OUTPUT_ROWS - 2) as u16,
        }
    }

    /// Computes the layout for a screen of `columns` by `rows`.
    pub fn for_screen(columns: u16, rows: u16) -> (r: Layout)
        ensures
            r == Layout::of(columns, rows),
    {
        let output_row: u16 = rows.saturating_sub(OUTPUT_ROWS);
        Layout {
            stack_column: columns / 2 + 2,
            output_row,
            prompt_row: output_row.saturating_add(OUTPUT_ROWS - 1),
            halted_row: rows.saturating_sub(2),
            counter_row: rows.saturating_sub(1),
            output_lines: OUTPUT_ROWS - 2,
        }
    }
}

/// The index of the first of the last `shown` items among `total`.
pub fn tail_start(total: usize, shown: usize) -> (r: usize)
    ensures
        r == if total > shown {
            total - shown
        } else {
            0
        },
{
    total.saturating_sub(shown)
}

} // verus!
