//! The catalog of primitive menu items: a stateless factory of the
//! platform-understood standard actions and of the separator marker.
//!
//! Each factory takes no parameters (the semantics of an action are fixed
//! and delegated to the platform) and cannot fail; a platform-level failure
//! to realize an action is deferred to build or attach time.

use vstd::prelude::*;

verus! {

/// The closed enumeration of platform-predefined menu behaviors.
#[derive(Clone, Copy, Debug, PartialEq, Eq, Structural)]
pub enum StandardAction {
    CloseWindow,
    Undo,
    Redo,
    Cut,
    Copy,
    Paste,
    SelectAll,
    Fullscreen,
    About,
    Services,
    Hide,
    HideOthers,
    ShowAll,
    Quit,
}

/// One entry of a submenu: either a standard action or a separator line.
/// Immutable once constructed; it has no identity beyond its position.
#[derive(Clone, Copy, Debug, PartialEq, Eq, Structural)]
pub enum MenuItem {
    Standard(StandardAction),
    Separator,
}

pub fn close_window() -> (r: MenuItem)
    ensures
        r == MenuItem::Standard(StandardAction::CloseWindow),
{
    MenuItem::Standard(StandardAction::CloseWindow)
}

pub fn undo() -> (r: MenuItem)
    ensures
        r == MenuItem::Standard(StandardAction::Undo),
{
    MenuItem::Standard(StandardAction::Undo)
}

pub fn redo() -> (r: MenuItem)
    ensures
        r == MenuItem::Standard(StandardAction::Redo),
{
    MenuItem::Standard(StandardAction::Redo)
}

pub fn cut() -> (r: MenuItem)
    ensures
        r == MenuItem::Standard(StandardAction::Cut),
{
    MenuItem::Standard(StandardAction::Cut)
}

pub fn copy() -> (r: MenuItem)
    ensures
        r == MenuItem::Standard(StandardAction::Copy),
{
    MenuItem::Standard(StandardAction::Copy)
}

pub fn paste() -> (r: MenuItem)
    ensures
        r == MenuItem::Standard(StandardAction::Paste),
{
    MenuItem::Standard(StandardAction::Paste)
}

pub fn select_all() -> (r: MenuItem)
    ensures
        r == MenuItem::Standard(StandardAction::SelectAll),
{
    MenuItem::Standard(StandardAction::SelectAll)
}

pub fn fullscreen() -> (r: MenuItem)
    ensures
        r == MenuItem::Standard(StandardAction::Fullscreen),
{
    MenuItem::Standard(StandardAction::Fullscreen)
}

pub fn about() -> (r: MenuItem)
    ensures
        r == MenuItem::Standard(StandardAction::About),
{
    MenuItem::Standard(StandardAction::About)
}

pub fn services() -> (r: MenuItem)
    ensures
        r == MenuItem::Standard(StandardAction::Services),
{
    MenuItem::Standard(StandardAction::Services)
}

pub fn hide_app() -> (r: MenuItem)
    ensures
        r == MenuItem::Standard(StandardAction::Hide),
{
    MenuItem::Standard(StandardAction::Hide)
}

pub fn hide_others() -> (r: MenuItem)
    ensures
        r == MenuItem::Standard(StandardAction::HideOthers),
{
    MenuItem::Standard(StandardAction::HideOthers)
}

pub fn show_all() -> (r: MenuItem)
    ensures
        r == MenuItem::Standard(StandardAction::ShowAll),
{
    MenuItem::Standard(StandardAction::ShowAll)
}

pub fn quit() -> (r: MenuItem)
    ensures
        r == MenuItem::Standard(StandardAction::Quit),
{
    MenuItem::Standard(StandardAction::Quit)
}

pub fn separator() -> (r: MenuItem)
    ensures
        r == MenuItem::Separator,
{
    MenuItem::Separator
}

} // verus!
