//! Keys and the three key tables of the client: one for the article
//! browser, one for the search prompt and one for the preview.

use vstd::prelude::*;

verus! {

/// A key as the terminal reports it.
#[derive(Clone, Copy, Debug, PartialEq, Eq, Structural)]
pub enum Key {
    Char(char),
    Up,
    Down,
    Left,
    Right,
    PageUp,
    PageDown,
    Home,
    End,
    Tab,
    Enter,
    Esc,
    Backspace,
    /// Any key the client has no use for.
    Other,
}

/// One key event: the key, whether Control was held, and whether it is a
/// press (as opposed to a repeat or a release).
#[derive(Clone, Copy, Debug, PartialEq, Eq, Structural)]
pub struct KeyInput {
    pub key: Key,
    pub ctrl: bool,
    pub press: bool,
}

#[derive(Clone, Copy, Debug, PartialEq, Eq, Structural)]
pub enum Direction {
    Up,
    Down,
}

/// How far a move goes.
#[derive(Clone, Copy, Debug, PartialEq, Eq, Structural)]
pub enum Unit {
    Line,
    Page,
    HalfPage,
    /// To the first or the last row.
    Edge,
}

/// What a key asks for, in whichever mode is active.
#[derive(Clone, Copy, Debug, PartialEq, Eq, Structural)]
pub enum Command {
    Quit,
    Move(Direction, Unit),
    FocusFeeds,
    FocusArticles,
    SwitchFocus,
    ToggleRead,
    ToggleFavorite,
    Refresh,
    OpenInBrowser,
    OpenPreview,
    StartSearch,
    ClearSearch,
    ClosePreview,
    ConfirmSearch,
    CancelSearch,
    Type(char),
    Erase,
    Ignore,
}

/// The key table of the article browser.
pub open spec fn browse_command(key: Key, ctrl: bool) -> Command {
    match key {
        Key::Char(c) => {
            if c == 'q' {
                Command::Quit
            } else if c == 'k' {
                Command::Move(Direction::Up, Unit::Line)
            } else if c == 'j' {
                Command::Move(Direction::Down, Unit::Line)
            } else if c == 'u' && ctrl {
                Command::Move(Direction::Up, Unit::HalfPage)
            } else if c == 'd' && ctrl {
                Command::Move(Direction::Down, Unit::HalfPage)
            } else if c == 'g' {
                Command::Move(Direction::Up, Unit::Edge)
            } else if c == 'G' {
                Command::Move(Direction::Down, Unit::Edge)
            } else if c == 'h' {
                Command::FocusFeeds
            } else if c == 'l' {
                Command::FocusArticles
            } else if c == 'r' {
                Command::ToggleRead
            } else if c == 'f' {
                Command::ToggleFavorite
            } else if c == 'R' {
                Command::Refresh
            } else if c == 'o' {
                Command::OpenInBrowser
            } else if c == 'p' {
                Command::OpenPreview
            } else if c == '/' {
                Command::StartSearch
            } else {
                Command::Ignore
            }
        },
        Key::Up => Command::Move(Direction::Up, Unit::Line),
        Key::Down => Command::Move(Direction::Down, Unit::Line),
        Key::PageUp => Command::Move(Direction::Up, Unit::Page),
        Key::PageDown => Command::Move(Direction::Down, Unit::Page),
        Key::Home => Command::Move(Direction::Up, Unit::Edge),
        Key::End => Command::Move(Direction::Down, Unit::Edge),
        Key::Left => Command::FocusFeeds,
        Key::Right => Command::FocusArticles,
        Key::Enter => Command::FocusArticles,
        Key::Tab => Command::SwitchFocus,
        Key::Esc => Command::ClearSearch,
        _ => Command::Ignore,
    }
}

/// The key table of the search prompt.
pub open spec fn search_command(key: Key) -> Command {
    match key {
        Key::Enter => Command::ConfirmSearch,
        Key::Esc => Command::CancelSearch,
        Key::Char(c) => Command::Type(c),
        Key::Backspace => Command::Erase,
        _ => Command::Ignore,
    }
}

/// The key table of the preview.
pub open spec fn preview_command(key: Key, ctrl: bool) -> Command {
    match key {
        Key::Esc => Command::ClosePreview,
        Key::Char(c) => {
            if c == 'p' || c == 'q' {
                Command::ClosePreview
            } else if c == 'k' {
                Command::Move(Direction::Up, Unit::Line)
            } else if c == 'j' {
                Command::Move(Direction::Down, Unit::Line)
            } else if c == 'u' && ctrl {
                Command::Move(Direction::Up, Unit::HalfPage)
            } else if c == 'd' && ctrl {
                Command::Move(Direction::Down, Unit::HalfPage)
            } else if c == 'g' {
                Command::Move(Direction::Up, Unit::Edge)
            } else if c == 'G' {
                Command::Move(Direction::Down, Unit::Edge)
            } else if c == 'o' {
                Command::OpenInBrowser
            } else {
                Command::Ignore
            }
        },
        Key::Up => Command::Move(Direction::Up, Unit::Line),
        Key::Down => Command::Move(Direction::Down, Unit::Line),
        Key::PageUp => Command::Move(Direction::Up, Unit::Page),
        Key::PageDown => Command::Move(Direction::Down, Unit::Page),
        Key::Home => Command::Move(Direction::Up, Unit::Edge),
        Key::End => Command::Move(Direction::Down, Unit::Edge),
        _ => Command::Ignore,
    }
}

/// Looks a key up in the article browser's table.
pub fn browse_command_of(key: Key, ctrl: bool) -> (r: Command)
    ensures
        r == browse_command(key, ctrl),
{
    match key {
        Key::Char(c) => {
            if c == 'q' {
                Command::Quit
            } else if c == 'k' {
                Command::Move(Direction::Up, Unit::Line)
            } else if c == 'j' {
                Command::Move(Direction::Down, Unit::Line)
            } else if c == 'u' && ctrl {
                Command::Move(Direction::Up, Unit::HalfPage)
            } else if c == 'd' && ctrl {
                Command::Move(Direction::Down, Unit::HalfPage)
            } else if c == 'g' {
                Command::Move(Direction::Up, Unit::Edge)
            } else if c == 'G' {
                Command::Move(Direction::Down, Unit::Edge)
            } else if c == 'h' {
                Command::FocusFeeds
            } else if c == 'l' {
                Command::FocusArticles
            } else if c == 'r' {
                Command::ToggleRead
            } else if c == 'f' {
                Command::ToggleFavorite
            } else if c == 'R' {
                Command::Refresh
            } else if c == 'o' {
                Command::OpenInBrowser
            } else if c == 'p' {
                Command::OpenPreview
            } else if c == '/' {
                Command::StartSearch
            } else {
                Command::Ignore
            }
        },
        Key::Up => Command::Move(Direction::Up, Unit::Line),
        Key::Down => Command::Move(Direction::Down, Unit::Line),
        Key::PageUp => Command::Move(Direction::Up, Unit::Page),
        Key::PageDown => Command::Move(Direction::Down, Unit::Page),
        Key::Home => Command::Move(Direction::Up, Unit::Edge),
        Key::End => Command::Move(Direction::Down, Unit::Edge),
        Key::Left => Command::FocusFeeds,
        Key::Right => Command::FocusArticles,
        Key::Enter => Command::FocusArticles,
        Key::Tab => Command::SwitchFocus,
        Key::Esc => Command::ClearSearch,
        _ => Command::Ignore,
    }
}

/// Looks a key up in the search prompt's table.
pub fn search_command_of(key: Key) -> (r: Command)
    ensures
        r == search_command(key),
{
    match key {
        Key::Enter => Command::ConfirmSearch,
        Key::Esc => Command::CancelSearch,
        Key::Char(c) => Command::Type(c),
        Key::Backspace => Command::Erase,
        _ => Command::Ignore,
    }
}

/// Looks a key up in the preview's table.
pub fn preview_command_of(key: Key, ctrl: bool) -> (r: Command)
    ensures
        r == preview_command(key, ctrl),
{
    match key {
        Key::Esc => Command::ClosePreview,
        Key::Char(c) => {
            if c == 'p' || c == 'q' {
                Command::ClosePreview
            } else if c == 'k' {
                Command::Move(Direction::Up, Unit::Line)
            } else if c == 'j' {
                Command::Move(Direction::Down, Unit::Line)
            } else if c == 'u' && ctrl {
                Command::Move(Direction::Up, Unit::HalfPage)
            } else if c == 'd' && ctrl {
                Command::Move(Direction::Down, Unit::HalfPage)
            } else if c == 'g' {
                Command::Move(Direction::Up, Unit::Edge)
            } else if c == 'G' {
                Command::Move(Direction::Down, Unit::Edge)
            } else if c == 'o' {
                Command::OpenInBrowser
            } else {
                Command::Ignore
            }
        },
        Key::Up => Command::Move(Direction::Up, Unit::Line),
        Key::Down => Command::Move(Direction::Down, Unit::Line),
        Key::PageUp => Command::Move(Direction::Up, Unit::Page),
        Key::PageDown => Command::Move(Direction::Down, Unit::Page),
        Key::Home => Command::Move(Direction::Up, Unit::Edge),
        Key::End => Command::Move(Direction::Down, Unit::Edge),
        _ => Command::Ignore,
    }
}

} // verus!
