//! The application-handle side of the attach protocol.
//!
//! The real application instance is created by the surrounding shell before
//! menu construction begins and outlives the menu; this module models the
//! part of it the menu subsystem reads and writes — whether the instance
//! still accepts a menu, which menu is active, and the registration and
//! invocation of the menu-event callback. The shell performs the native
//! rendering; the protocol here decides what each operation returns and how
//! the handle's state changes.

use vstd::prelude::*;

use crate::catalog::StandardAction;
use crate::error::PlatformMenuError;
use crate::menu::Menu;
use crate::menu::MenuView;

verus! {

broadcast use crate::menu::lemma_menu_deep_is_view;

/// The mathematical model of an application handle.
pub struct AppView {
    pub id: u64,
    pub live: bool,
    pub active_menu: Option<MenuView>,
    pub handler_registered: bool,
    pub handler_invocations: nat,
}

/// A selection event arriving from the menu bar: either one of the
/// platform-predefined standard actions, which the platform handles itself,
/// or a custom item (carrying its identifier), which is routed to the
/// registered callback. No custom item exists in the present catalog.
#[derive(Clone, Copy, Debug, PartialEq, Eq, Structural)]
pub enum MenuEvent {
    Standard(StandardAction),
    Custom(u64),
}

/// A running application instance, identified by `id`. It is the sole owner
/// of the attached menu after a successful attach.
pub struct AppHandle {
    id: u64,
    live: bool,
    active_menu: Option<Menu>,
    handler_registered: bool,
    handler_invocations: u64,
}

impl View for AppHandle {
    type V = AppView;

    closed spec fn view(&self) -> AppView {
        AppView {
            id: self.id,
            live: self.live,
            active_menu: self.active_menu.deep_view(),
            handler_registered: self.handler_registered,
            handler_invocations: self.handler_invocations as nat,
        }
    }
}

/// How one selection event changes a handle: a custom selection with a
/// registered callback invokes it once; a standard selection, or any
/// selection without a registered callback, leaves the handle untouched.
pub open spec fn dispatched(a: AppView, event: MenuEvent) -> AppView {
    if (event matches MenuEvent::Custom(_)) && a.handler_registered {
        AppView {
            id: a.id,
            live: a.live,
            active_menu: a.active_menu,
            handler_registered: a.handler_registered,
            handler_invocations: a.handler_invocations + 1,
        }
    } else {
        a
    }
}

/// A whole session of selection events, dispatched in order.
pub open spec fn after_session(a: AppView, events: Seq<MenuEvent>) -> AppView
    decreases events.len(),
{
    if events.len() == 0 {
        a
    } else {
        after_session(dispatched(a, events[0]), events.drop_first())
    }
}

/// A session made only of standard-action selections leaves the handle
/// untouched; in particular the registered callback is invoked exactly zero
/// times, however long the session runs.
pub proof fn lemma_standard_session(a: AppView, events: Seq<MenuEvent>)
    requires
        forall|i: int| 0 <= i < events.len() ==> ((#[trigger] events[i]) matches MenuEvent::Standard(_)),
    ensures
        after_session(a, events) == a,
    decreases events.len(),
{
    if events.len() > 0 {
        lemma_standard_session(a, events.drop_first());
    }
}

impl AppHandle {
    /// A live handle with no active menu and no callback registered. The
    /// menu subsystem itself never creates the real instance; the shell
    /// supplies it, and this constructor stands where the shell hands the
    /// instance in.
    pub fn new(id: u64) -> (r: Self)
        ensures
            r@ == (AppView {
                id: id,
                live: true,
                active_menu: None::<MenuView>,
                handler_registered: false,
                handler_invocations: 0,
            }),
    {
        AppHandle {
            id,
            live: true,
            active_menu: None,
            handler_registered: false,
            handler_invocations: 0,
        }
    }

    /// The identifier menus are scoped by.
    pub fn id(&self) -> (r: u64)
        ensures
            r == self@.id,
    {
        self.id
    }

    /// Whether the instance still accepts a menu.
    pub fn is_live(&self) -> (r: bool)
        ensures
            r == self@.live,
    {
        self.live
    }

    /// The currently active menu, if any.
    pub fn active_menu(&self) -> (r: &Option<Menu>)
        ensures
            r.deep_view() == self@.active_menu,
    {
        &self.active_menu
    }

    /// Whether the menu-event callback is registered.
    pub fn handler_registered(&self) -> (r: bool)
        ensures
            r == self@.handler_registered,
    {
        self.handler_registered
    }

    /// How many times the menu-event callback has been invoked.
    pub fn handler_invocations(&self) -> (r: u64)
        ensures
            r == self@.handler_invocations,
    {
        self.handler_invocations
    }

    /// Models the end of the instance's life: from here on it accepts no
    /// menu. The active menu, if any, stays with the instance.
    pub fn tear_down(&mut self)
        ensures
            final(self)@ == (AppView {
                id: old(self)@.id,
                live: false,
                active_menu: old(self)@.active_menu,
                handler_registered: old(self)@.handler_registered,
                handler_invocations: old(self)@.handler_invocations,
            }),
    {
        self.live = false;
    }

    /// Installs `menu` as the active menu, taking ownership of it and
    /// replacing any previously active menu. The menu must have been built
    /// for this handle; attaching one built for another handle is a
    /// precondition violation. Succeeds exactly when the instance is live;
    /// on a torn-down instance it fails with `HandleTornDown` and the
    /// previously active menu is left untouched.
    pub fn set_menu(&mut self, menu: Menu) -> (r: Result<(), PlatformMenuError>)
        requires
            menu@.handle_id == old(self)@.id,
        ensures
            old(self)@.live ==> r == Ok::<(), PlatformMenuError>(()) && final(self)@ == (AppView {
                id: old(self)@.id,
                live: true,
                active_menu: Some(menu@),
                handler_registered: old(self)@.handler_registered,
                handler_invocations: old(self)@.handler_invocations,
            }),
            !old(self)@.live ==> r == Err::<(), PlatformMenuError>(
                PlatformMenuError::HandleTornDown,
            ) && final(self)@ == old(self)@,
    {
        if !self.live {
            return Err(PlatformMenuError::HandleTornDown);
        }
        self.active_menu = Some(menu);
        Ok(())
    }

    /// Registers the menu-event callback. It is invoked only when a custom
    /// (non-standard) item is selected; with no custom items in the present
    /// catalog it is a documented no-op extension point, kept wired for
    /// future custom items rather than deleted.
    pub fn on_menu_event(&mut self)
        ensures
            final(self)@ == (AppView {
                id: old(self)@.id,
                live: old(self)@.live,
                active_menu: old(self)@.active_menu,
                handler_registered: true,
                handler_invocations: old(self)@.handler_invocations,
            }),
    {
        self.handler_registered = true;
    }

    /// Routes one selection event: a custom selection invokes the
    /// registered callback once; everything else leaves the handle
    /// untouched.
    pub fn dispatch_menu_event(&mut self, event: MenuEvent)
        requires
            old(self)@.handler_invocations < u64::MAX,
        ensures
            final(self)@ == dispatched(old(self)@, event),
    {
        match event {
            MenuEvent::Standard(_) => {},
            MenuEvent::Custom(_) => {
                if self.handler_registered {
                    self.handler_invocations = self.handler_invocations + 1;
                }
            },
        }
    }
}

} // verus!
