//! The single error kind of the menu subsystem.

use vstd::prelude::*;

verus! {

/// Raised when the platform rejects creation or attachment of a menu:
/// a malformed (empty) submenu title, a builder reused after it was
/// consumed, or an application handle that is no longer able to accept
/// a menu. Construction of catalog items themselves cannot fail; every
/// failure surfaces at `build` or at attach time.
#[derive(Clone, Copy, Debug, PartialEq, Eq, Structural)]
pub enum PlatformMenuError {
    /// The submenu title is not a non-empty label.
    InvalidTitle,
    /// `build` was called on a builder that a previous `build` consumed.
    BuilderConsumed,
    /// The application handle is torn down and accepts no menu.
    HandleTornDown,
}

} // verus!
