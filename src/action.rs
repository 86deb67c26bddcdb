use vstd::prelude::*;

use crate::input::InputAction;
use crate::key::Key;

verus! {

/// What a key means to a prompt: submit, cancel, or an action of the
/// prompt's own kind.
#[derive(Clone, Copy, Debug, PartialEq, Eq)]
pub enum Action<I> {
    Submit,
    Cancel,
    Inner(I),
}

/// The editing action bound to a key, if any.
pub open spec fn input_action_of(key: Key) -> Option<InputAction> {
    match key {
        Key::Backspace => Some(InputAction::DeleteLeft),
        Key::Delete(m) => if m.control {
            Some(InputAction::DeleteWordRight)
        } else {
            Some(InputAction::DeleteRight)
        },
        Key::Home => Some(InputAction::MoveToStart),
        Key::End => Some(InputAction::MoveToEnd),
        Key::Left(m) => if m.control {
            Some(InputAction::MoveWordLeft)
        } else {
            Some(InputAction::MoveLeft)
        },
        Key::Right(m) => if m.control {
            Some(InputAction::MoveWordRight)
        } else {
            Some(InputAction::MoveRight)
        },
        Key::Char(c, m) => if !m.control && !m.alt {
            Some(InputAction::Insert(c))
        } else if c == 'w' && m.control && !m.alt {
            Some(InputAction::DeleteWordLeft)
        } else {
            None
        },
        _ => None,
    }
}

impl InputAction {
    /// Maps a key to an editing action; unbound keys give `None`.
    pub fn from_key(key: Key) -> (r: Option<InputAction>)
        ensures
            r == input_action_of(key),
    {
        match key {
            Key::Backspace => Some(InputAction::DeleteLeft),
            Key::Delete(m) => if m.control {
                Some(InputAction::DeleteWordRight)
            } else {
                Some(InputAction::DeleteRight)
            },
            Key::Home => Some(InputAction::MoveToStart),
            Key::End => Some(InputAction::MoveToEnd),
            Key::Left(m) => if m.control {
                Some(InputAction::MoveWordLeft)
            } else {
                Some(InputAction::MoveLeft)
            },
            Key::Right(m) => if m.control {
                Some(InputAction::MoveWordRight)
            } else {
                Some(InputAction::MoveRight)
            },
            Key::Char(c, m) => if !m.control && !m.alt {
                Some(InputAction::Insert(c))
            } else if c == 'w' && m.control && !m.alt {
                Some(InputAction::DeleteWordLeft)
            } else {
                None
            },
            _ => None,
        }
    }
}

/// Enter submits and Escape cancels; other keys are handed to `inner`.
pub open spec fn prompt_action_of<I>(key: Key, inner: Option<I>) -> Option<Action<I>> {
    match key {
        Key::Enter => Some(Action::Submit),
        Key::Escape => Some(Action::Cancel),
        _ => match inner {
            Some(a) => Some(Action::Inner(a)),
            None => None,
        },
    }
}

/// Options of a free-text prompt.
#[derive(Clone, Copy, Debug, PartialEq, Eq)]
pub struct TextConfig {
    /// Number of suggestions shown at once.
    pub page_size: usize,
}

/// Set of actions for a free-text prompt.
#[derive(Clone, Copy, Debug, PartialEq, Eq)]
pub enum TextPromptAction {
    /// Action on the value text input handler.
    ValueInput(InputAction),
    /// Moves to the suggestion above.
    MoveToSuggestionAbove,
    /// Moves to the suggestion below.
    MoveToSuggestionBelow,
    /// Moves one page of suggestions up.
    MoveToSuggestionPageUp,
    /// Moves one page of suggestions down.
    MoveToSuggestionPageDown,
    /// Completes the input with the current suggestion.
    UseCurrentSuggestion,
}

pub open spec fn text_action_of(key: Key) -> Option<TextPromptAction> {
    match key {
        Key::Up(m) if m.plain() => Some(TextPromptAction::MoveToSuggestionAbove),
        Key::PageUp => Some(TextPromptAction::MoveToSuggestionPageUp),
        Key::Down(m) if m.plain() => Some(TextPromptAction::MoveToSuggestionBelow),
        Key::PageDown => Some(TextPromptAction::MoveToSuggestionPageDown),
        Key::Tab => Some(TextPromptAction::UseCurrentSuggestion),
        _ => match input_action_of(key) {
            Some(a) => Some(TextPromptAction::ValueInput(a)),
            None => None,
        },
    }
}

impl TextPromptAction {
    /// Maps a key to a free-text prompt action; suggestion navigation
    /// comes before text editing.
    pub fn from_key(key: Key, _config: &TextConfig) -> (r: Option<TextPromptAction>)
        ensures
            r == text_action_of(key),
    {
        match key {
            Key::Up(m) if m.is_plain() => Some(TextPromptAction::MoveToSuggestionAbove),
            Key::PageUp => Some(TextPromptAction::MoveToSuggestionPageUp),
            Key::Down(m) if m.is_plain() => Some(TextPromptAction::MoveToSuggestionBelow),
            Key::PageDown => Some(TextPromptAction::MoveToSuggestionPageDown),
            Key::Tab => Some(TextPromptAction::UseCurrentSuggestion),
            _ => match InputAction::from_key(key) {
                Some(a) => Some(TextPromptAction::ValueInput(a)),
                None => None,
            },
        }
    }
}

/// Set of actions for a single-choice list prompt.
#[derive(Clone, Copy, Debug, PartialEq, Eq)]
pub enum SelectPromptAction {
    /// Action on the filter text input.
    FilterInput(InputAction),
    MoveUp,
    MoveDown,
    PageUp,
    PageDown,
    MoveToStart,
    MoveToEnd,
}

pub open spec fn select_action_of(key: Key, vim_mode: bool) -> Option<SelectPromptAction> {
    match key {
        Key::Char('k', m) if vim_mode && m.plain() => Some(SelectPromptAction::MoveUp),
        Key::Char('j', m) if vim_mode && m.plain() => Some(SelectPromptAction::MoveDown),
        Key::Up(m) if m.plain() => Some(SelectPromptAction::MoveUp),
        Key::Down(m) if m.plain() => Some(SelectPromptAction::MoveDown),
        Key::PageUp => Some(SelectPromptAction::PageUp),
        Key::PageDown => Some(SelectPromptAction::PageDown),
        Key::Home => Some(SelectPromptAction::MoveToStart),
        Key::End => Some(SelectPromptAction::MoveToEnd),
        _ => match input_action_of(key) {
            Some(a) => Some(SelectPromptAction::FilterInput(a)),
            None => None,
        },
    }
}

impl SelectPromptAction {
    /// Maps a key to a list prompt action: list navigation (with `j`/`k`
    /// in vim mode) comes before filter editing.
    pub fn from_key(key: Key, vim_mode: bool) -> (r: Option<SelectPromptAction>)
        ensures
            r == select_action_of(key, vim_mode),
    {
        match key {
            Key::Char('k', m) if vim_mode && m.is_plain() => Some(SelectPromptAction::MoveUp),
            Key::Char('j', m) if vim_mode && m.is_plain() => Some(SelectPromptAction::MoveDown),
            Key::Up(m) if m.is_plain() => Some(SelectPromptAction::MoveUp),
            Key::Down(m) if m.is_plain() => Some(SelectPromptAction::MoveDown),
            Key::PageUp => Some(SelectPromptAction::PageUp),
            Key::PageDown => Some(SelectPromptAction::PageDown),
            Key::Home => Some(SelectPromptAction::MoveToStart),
            Key::End => Some(SelectPromptAction::MoveToEnd),
            _ => match InputAction::from_key(key) {
                Some(a) => Some(SelectPromptAction::FilterInput(a)),
                None => None,
            },
        }
    }
}

} // verus!
