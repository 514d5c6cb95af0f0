//! Declarative construction of a native application menu bar: a catalog of
//! standard menu actions, a builder for titled submenus, a builder for the
//! root menu, and the protocol that attaches the finished menu to a running
//! application handle.

pub mod app;
pub mod catalog;
pub mod error;
pub mod layout;
pub mod menu;
pub mod submenu;
