//! The application's standard menu layout: an application-identity submenu,
//! then File, Edit and View, each made of catalog primitives, assembled into
//! one menu bar and attached during startup.
//!
//! The spec functions below state the layout exactly — every submenu title
//! and every item, in display order — and each build function is proved to
//! produce it. Construction of this layout cannot fail: every title is
//! non-empty and every builder is fresh, so the only failure left in the
//! whole pipeline is attaching to a handle that no longer accepts a menu.

use vstd::prelude::*;

use crate::app::AppHandle;
use crate::app::AppView;
use crate::catalog::MenuItem;
use crate::catalog::StandardAction;
use crate::error::PlatformMenuError;
use crate::menu::Menu;
use crate::menu::MenuBuilder;
use crate::menu::MenuView;
use crate::submenu::Submenu;
use crate::submenu::SubmenuBuilder;
use crate::submenu::SubmenuView;

verus! {

broadcast use crate::submenu::lemma_submenu_deep_is_view;

/// The application-identity submenu, pinned first by platform convention:
/// about, services, the hide/show group and quit, in their customary
/// separator-delimited groups.
pub open spec fn app_submenu_view() -> SubmenuView {
    SubmenuView {
        title: "MeasureGuide"@,
        items: seq![
            MenuItem::Standard(StandardAction::About),
            MenuItem::Separator,
            MenuItem::Standard(StandardAction::Services),
            MenuItem::Separator,
            MenuItem::Standard(StandardAction::Hide),
            MenuItem::Standard(StandardAction::HideOthers),
            MenuItem::Standard(StandardAction::ShowAll),
            MenuItem::Separator,
            MenuItem::Standard(StandardAction::Quit),
        ],
    }
}

/// The File submenu: just the close-window action.
pub open spec fn file_submenu_view() -> SubmenuView {
    SubmenuView {
        title: "File"@,
        items: seq![MenuItem::Standard(StandardAction::CloseWindow)],
    }
}

/// The Edit submenu: undo and redo, then the clipboard group.
pub open spec fn edit_submenu_view() -> SubmenuView {
    SubmenuView {
        title: "Edit"@,
        items: seq![
            MenuItem::Standard(StandardAction::Undo),
            MenuItem::Standard(StandardAction::Redo),
            MenuItem::Separator,
            MenuItem::Standard(StandardAction::Cut),
            MenuItem::Standard(StandardAction::Copy),
            MenuItem::Standard(StandardAction::Paste),
            MenuItem::Standard(StandardAction::SelectAll),
        ],
    }
}

/// The View submenu: just the fullscreen toggle.
pub open spec fn view_submenu_view() -> SubmenuView {
    SubmenuView {
        title: "View"@,
        items: seq![MenuItem::Standard(StandardAction::Fullscreen)],
    }
}

/// The whole standard menu bar for the handle `id`: the application-identity
/// submenu first, then File, Edit, View.
pub open spec fn standard_menu_view(id: u64) -> MenuView {
    MenuView {
        handle_id: id,
        submenus: seq![
            app_submenu_view(),
            file_submenu_view(),
            edit_submenu_view(),
            view_submenu_view(),
        ],
    }
}

/// Builds the application-identity submenu of the standard layout.
pub fn build_app_submenu() -> (r: Submenu)
    ensures
        r@ == app_submenu_view(),
{
    let mut builder = SubmenuBuilder::new("MeasureGuide")
        .about()
        .separator()
        .services()
        .separator()
        .hide_app()
        .hide_others()
        .show_all()
        .separator()
        .quit();
    proof {
        reveal_strlit("MeasureGuide");
    }
    match builder.build() {
        Ok(sm) => {
            proof {
                assert(sm@.items =~= app_submenu_view().items);
            }
            sm
        },
        Err(_) => unreached(),
    }
}

/// Builds the File submenu of the standard layout.
pub fn build_file_submenu() -> (r: Submenu)
    ensures
        r@ == file_submenu_view(),
{
    let mut builder = SubmenuBuilder::new("File").close_window();
    proof {
        reveal_strlit("File");
    }
    match builder.build() {
        Ok(sm) => {
            proof {
                assert(sm@.items =~= file_submenu_view().items);
            }
            sm
        },
        Err(_) => unreached(),
    }
}

/// Builds the Edit submenu of the standard layout.
pub fn build_edit_submenu() -> (r: Submenu)
    ensures
        r@ == edit_submenu_view(),
{
    let mut builder = SubmenuBuilder::new("Edit")
        .undo()
        .redo()
        .separator()
        .cut()
        .copy()
        .paste()
        .select_all();
    proof {
        reveal_strlit("Edit");
    }
    match builder.build() {
        Ok(sm) => {
            proof {
                assert(sm@.items =~= edit_submenu_view().items);
            }
            sm
        },
        Err(_) => unreached(),
    }
}

/// Builds the View submenu of the standard layout.
pub fn build_view_submenu() -> (r: Submenu)
    ensures
        r@ == view_submenu_view(),
{
    let mut builder = SubmenuBuilder::new("View").fullscreen();
    proof {
        reveal_strlit("View");
    }
    match builder.build() {
        Ok(sm) => {
            proof {
                assert(sm@.items =~= view_submenu_view().items);
            }
            sm
        },
        Err(_) => unreached(),
    }
}

/// Assembles the standard menu bar for `app`, submenus in their platform
/// order.
pub fn build_standard_menu(app: &AppHandle) -> (r: Menu)
    ensures
        r@ == standard_menu_view(app@.id),
{
    let mut subs: Vec<Submenu> = Vec::new();
    subs.push(build_app_submenu());
    subs.push(build_file_submenu());
    subs.push(build_edit_submenu());
    subs.push(build_view_submenu());
    proof {
        assert(subs.deep_view() =~= standard_menu_view(app@.id).submenus);
    }
    let mut builder = MenuBuilder::new(app).items(subs);
    match builder.build() {
        Ok(m) => {
            proof {
                assert(m@.submenus =~= standard_menu_view(app@.id).submenus);
            }
            m
        },
        Err(_) => unreached(),
    }
}

/// The whole startup pipeline of the menu subsystem: builds the standard
/// menu bar and installs it on `app`. Succeeds exactly when the handle is
/// live, and then the standard layout is the active menu; on a torn-down
/// handle it fails with `HandleTornDown` and the handle — its previously
/// active menu included — is left untouched. The first error aborts the
/// pipeline, so no partial menu is ever attached.
pub fn install_standard_menu(app: &mut AppHandle) -> (r: Result<(), PlatformMenuError>)
    ensures
        old(app)@.live ==> r == Ok::<(), PlatformMenuError>(()) && final(app)@ == (AppView {
            id: old(app)@.id,
            live: true,
            active_menu: Some(standard_menu_view(old(app)@.id)),
            handler_registered: old(app)@.handler_registered,
            handler_invocations: old(app)@.handler_invocations,
        }),
        !old(app)@.live ==> r == Err::<(), PlatformMenuError>(PlatformMenuError::HandleTornDown)
            && final(app)@ == old(app)@,
{
    let menu = build_standard_menu(app);
    app.set_menu(menu)
}

} // verus!
