//! The action mapper: a pure, stateless keymap from raw input events to
//! the date-selection prompt's semantic actions. Unmapped events yield
//! no action at all.

use vstd::prelude::*;

verus! {

/// A raw input event, as the terminal hands it to the driver loop.
#[derive(Clone, Copy, Debug, PartialEq, Eq, Structural)]
pub enum Key {
    ArrowUp,
    ArrowDown,
    ArrowLeft,
    ArrowRight,
    PageUp,
    PageDown,
    Enter,
    Esc,
    Char(char),
}

/// A semantic action of the date-selection prompt, produced and
/// consumed within one loop iteration.
#[derive(Clone, Copy, Debug, PartialEq, Eq, Structural)]
pub enum DateSelectPromptAction {
    GoToPrevDay,
    GoToNextDay,
    GoToPrevWeek,
    GoToNextWeek,
    GoToPrevMonth,
    GoToNextMonth,
    GoToPrevYear,
    GoToNextYear,
    /// Ask to delete the annotation under the cursor.
    Delete,
    /// Answer yes to a pending delete confirmation.
    ConfirmDelete,
    /// Answer no to a pending delete confirmation.
    CancelDelete,
}

/// What the driver loop does with one input event: submit the current
/// answer, abort the session, or hand an inner action to the prompt.
#[derive(Clone, Copy, Debug, PartialEq, Eq, Structural)]
pub enum Action {
    Submit,
    Abort,
    Inner(DateSelectPromptAction),
}

/// The date-selection keymap: arrows move by day and week, page keys by
/// month, brackets by year; `d`, `y` and `n` drive the delete
/// sub-dialog; Enter submits and Esc aborts. With `vim_mode`, `h`,
/// `l`, `k` and `j` move like the arrows. Every other event is ignored.
pub open spec fn spec_map_key(key: Key, vim_mode: bool) -> Option<Action> {
    match key {
        Key::Enter => Some(Action::Submit),
        Key::Esc => Some(Action::Abort),
        Key::ArrowLeft => Some(Action::Inner(DateSelectPromptAction::GoToPrevDay)),
        Key::ArrowRight => Some(Action::Inner(DateSelectPromptAction::GoToNextDay)),
        Key::ArrowUp => Some(Action::Inner(DateSelectPromptAction::GoToPrevWeek)),
        Key::ArrowDown => Some(Action::Inner(DateSelectPromptAction::GoToNextWeek)),
        Key::PageUp => Some(Action::Inner(DateSelectPromptAction::GoToPrevMonth)),
        Key::PageDown => Some(Action::Inner(DateSelectPromptAction::GoToNextMonth)),
        Key::Char(c) => if c == '[' {
            Some(Action::Inner(DateSelectPromptAction::GoToPrevYear))
        } else if c == ']' {
            Some(Action::Inner(DateSelectPromptAction::GoToNextYear))
        } else if c == 'd' {
            Some(Action::Inner(DateSelectPromptAction::Delete))
        } else if c == 'y' {
            Some(Action::Inner(DateSelectPromptAction::ConfirmDelete))
        } else if c == 'n' {
            Some(Action::Inner(DateSelectPromptAction::CancelDelete))
        } else if vim_mode && c == 'h' {
            Some(Action::Inner(DateSelectPromptAction::GoToPrevDay))
        } else if vim_mode && c == 'l' {
            Some(Action::Inner(DateSelectPromptAction::GoToNextDay))
        } else if vim_mode && c == 'k' {
            Some(Action::Inner(DateSelectPromptAction::GoToPrevWeek))
        } else if vim_mode && c == 'j' {
            Some(Action::Inner(DateSelectPromptAction::GoToNextWeek))
        } else {
            None
        },
    }
}

/// Maps one raw input event to its semantic action, exactly as
/// [`spec_map_key`] describes the keymap.
pub fn map_key(key: Key, vim_mode: bool) -> (r: Option<Action>)
    ensures
        r == spec_map_key(key, vim_mode),
{
    match key {
        Key::Enter => Some(Action::Submit),
        Key::Esc => Some(Action::Abort),
        Key::ArrowLeft => Some(Action::Inner(DateSelectPromptAction::GoToPrevDay)),
        Key::ArrowRight => Some(Action::Inner(DateSelectPromptAction::GoToNextDay)),
        Key::ArrowUp => Some(Action::Inner(DateSelectPromptAction::GoToPrevWeek)),
        Key::ArrowDown => Some(Action::Inner(DateSelectPromptAction::GoToNextWeek)),
        Key::PageUp => Some(Action::Inner(DateSelectPromptAction::GoToPrevMonth)),
        Key::PageDown => Some(Action::Inner(DateSelectPromptAction::GoToNextMonth)),
        Key::Char(c) => if c == '[' {
            Some(Action::Inner(DateSelectPromptAction::GoToPrevYear))
        } else if c == ']' {
            Some(Action::Inner(DateSelectPromptAction::GoToNextYear))
        } else if c == 'd' {
            Some(Action::Inner(DateSelectPromptAction::Delete))
        } else if c == 'y' {
            Some(Action::Inner(DateSelectPromptAction::ConfirmDelete))
        } else if c == 'n' {
            Some(Action::Inner(DateSelectPromptAction::CancelDelete))
        } else if vim_mode && c == 'h' {
            Some(Action::Inner(DateSelectPromptAction::GoToPrevDay))
        } else if vim_mode && c == 'l' {
            Some(Action::Inner(DateSelectPromptAction::GoToNextDay))
        } else if vim_mode && c == 'k' {
            Some(Action::Inner(DateSelectPromptAction::GoToPrevWeek))
        } else if vim_mode && c == 'j' {
            Some(Action::Inner(DateSelectPromptAction::GoToNextWeek))
        } else {
            None
        },
    }
}

} // verus!
