//! The navigation loop's state machine.
//!
//! One input event is interpreted against the current selected date
//! to give a [`KeyAction`]; applying the action to the navigation
//! state yields the next state and says whether the loop is over.
//! Date arithmetic that would leave the representable range is
//! swallowed as a no-op: the state does not change.

use vstd::prelude::*;

use crate::date::{
    add_days_spec, add_months_spec, add_days, add_months, first_of_month_spec, valid_date, Date,
};

verus! {

/// One keyboard input, as the loop distinguishes them.
#[derive(Clone, Copy, Debug, PartialEq, Eq, Structural)]
pub enum Key {
    Char(char),
    Esc,
    Left,
    Right,
    Up,
    Down,
    PageUp,
    PageDown,
    Other,
}

/// The result of interpreting one input against the selected date.
#[derive(Clone, Copy, Debug, PartialEq, Eq, Structural)]
pub enum KeyAction {
    /// Leave the loop.
    Quit,
    /// Select the given date and show its month.
    Navigate(Date),
    /// Select today's date.
    Today,
    /// Change nothing; redraw as-is.
    Ignore,
}

/// Whether `key` ends the loop.
pub open spec fn is_quit_key(key: Key) -> bool {
    key == Key::Char('q') || key == Key::Char('Q') || key == Key::Esc
}

/// Whether `key` jumps to today.
pub open spec fn is_today_key(key: Key) -> bool {
    key == Key::Char('t') || key == Key::Char('T')
}

/// Whether `key` jumps to today: the clock should be read again
/// before such an input is applied.
pub fn key_jumps_to_today(key: Key) -> (r: bool)
    ensures
        r == is_today_key(key),
{
    match key {
        Key::Char(c) => c == 't' || c == 'T',
        _ => false,
    }
}

/// `Navigate` when the moved date is representable, `Ignore` when
/// the move fell out of range.
pub open spec fn navigate_or_ignore(moved: Option<Date>) -> KeyAction {
    match moved {
        Some(d) => KeyAction::Navigate(d),
        None => KeyAction::Ignore,
    }
}

/// The action each input maps to, given the current selected date.
pub open spec fn handle_key_spec(key: Key, selected: Date) -> KeyAction {
    if is_quit_key(key) {
        KeyAction::Quit
    } else if is_today_key(key) {
        KeyAction::Today
    } else if key == Key::Left {
        navigate_or_ignore(add_days_spec(selected, -1))
    } else if key == Key::Right {
        navigate_or_ignore(add_days_spec(selected, 1))
    } else if key == Key::Up {
        navigate_or_ignore(add_days_spec(selected, -7))
    } else if key == Key::Down {
        navigate_or_ignore(add_days_spec(selected, 7))
    } else if key == Key::PageUp {
        navigate_or_ignore(add_months_spec(selected, -12))
    } else if key == Key::PageDown {
        navigate_or_ignore(add_months_spec(selected, 12))
    } else {
        KeyAction::Ignore
    }
}

/// Maps one input to its action: `q`, `Q` and Escape quit, `t` and
/// `T` jump to today, the arrows move by a day or a week, Page Up
/// and Page Down by twelve months, and anything else is ignored, as
/// is any move that would leave the representable range.
pub fn handle_key(key: Key, selected: Date) -> (r: KeyAction)
    requires
        valid_date(selected),
    ensures
        r == handle_key_spec(key, selected),
        is_quit_key(key) <==> r == KeyAction::Quit,
        r matches KeyAction::Navigate(d) ==> valid_date(d),
{
    match key {
        Key::Char(c) => {
            if c == 'q' || c == 'Q' {
                KeyAction::Quit
            } else if c == 't' || c == 'T' {
                KeyAction::Today
            } else {
                KeyAction::Ignore
            }
        },
        Key::Esc => KeyAction::Quit,
        Key::Left => match add_days(selected, -1) {
            Some(d) => KeyAction::Navigate(d),
            None => KeyAction::Ignore,
        },
        Key::Right => match add_days(selected, 1) {
            Some(d) => KeyAction::Navigate(d),
            None => KeyAction::Ignore,
        },
        Key::Up => match add_days(selected, -7) {
            Some(d) => KeyAction::Navigate(d),
            None => KeyAction::Ignore,
        },
        Key::Down => match add_days(selected, 7) {
            Some(d) => KeyAction::Navigate(d),
            None => KeyAction::Ignore,
        },
        Key::PageUp => match add_months(selected, -12) {
            Some(d) => KeyAction::Navigate(d),
            None => KeyAction::Ignore,
        },
        Key::PageDown => match add_months(selected, 12) {
            Some(d) => KeyAction::Navigate(d),
            None => KeyAction::Ignore,
        },
        Key::Other => KeyAction::Ignore,
    }
}

/// The navigation loop's state: the selected date and the first day
/// of the month on screen.
#[derive(Clone, Copy, Debug, PartialEq, Eq, Structural)]
pub struct NavState {
    pub selected: Date,
    pub month_start: Date,
}

impl NavState {
    /// The state's invariant: the selected date is representable and
    /// the visible month is the one containing it.
    pub open spec fn wf(self) -> bool {
        &&& valid_date(self.selected)
        &&& self.month_start == first_of_month_spec(self.selected)
    }

    /// The state that shows `selected`.
    pub open spec fn for_selected_spec(selected: Date) -> NavState {
        NavState { selected, month_start: first_of_month_spec(selected) }
    }

    /// Builds the state that shows `selected`.
    pub fn for_selected(selected: Date) -> (r: NavState)
        requires
            valid_date(selected),
        ensures
            r == NavState::for_selected_spec(selected),
            r.wf(),
    {
        NavState { selected, month_start: selected.first_of_month() }
    }

    /// The state after `key`, and whether the loop is over.
    pub open spec fn step_spec(self, key: Key, today: Date) -> (NavState, bool) {
        match handle_key_spec(key, self.selected) {
            KeyAction::Quit => (self, true),
            KeyAction::Navigate(d) => (NavState::for_selected_spec(d), false),
            KeyAction::Today => (NavState::for_selected_spec(today), false),
            KeyAction::Ignore => (self, false),
        }
    }

    /// Applies one input to the state. On Quit the state is returned
    /// unchanged with the finished flag set; every other action
    /// yields the next state to render: both fields updated together,
    /// so the visible month always matches the selected date.
    pub fn step(self, key: Key, today: Date) -> (r: (NavState, bool))
        requires
            self.wf(),
            valid_date(today),
        ensures
            r == self.step_spec(key, today),
            r.0.wf(),
            is_quit_key(key) <==> r.1,
            is_quit_key(key) ==> r.0 == self,
    {
        match handle_key(key, self.selected) {
            KeyAction::Quit => (self, true),
            KeyAction::Navigate(d) => (NavState::for_selected(d), false),
            KeyAction::Today => (NavState::for_selected(today), false),
            KeyAction::Ignore => (self, false),
        }
    }
}

} // verus!
