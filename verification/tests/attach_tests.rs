use menubar::app::AppHandle;
use menubar::app::MenuEvent;
use menubar::catalog::StandardAction;
use menubar::error::PlatformMenuError;
use menubar::menu::Menu;
use menubar::menu::MenuBuilder;
use menubar::submenu::Submenu;
use menubar::submenu::SubmenuBuilder;

fn edit_submenu() -> Submenu {
    let mut builder = SubmenuBuilder::new("Edit")
        .undo()
        .redo()
        .separator()
        .cut()
        .copy()
        .paste()
        .select_all();
    builder.build().unwrap()
}

fn app_submenu() -> Submenu {
    let mut builder = SubmenuBuilder::new("MeasureGuide")
        .about()
        .separator()
        .services()
        .separator()
        .hide_app()
        .hide_others()
        .show_all()
        .separator()
        .quit();
    builder.build().unwrap()
}

fn file_submenu() -> Submenu {
    let mut builder = SubmenuBuilder::new("File").close_window();
    builder.build().unwrap()
}

fn view_submenu() -> Submenu {
    let mut builder = SubmenuBuilder::new("View").fullscreen();
    builder.build().unwrap()
}

fn full_menu(app: &AppHandle) -> Menu {
    let mut builder = MenuBuilder::new(app).items(vec![
        app_submenu(),
        file_submenu(),
        edit_submenu(),
        view_submenu(),
    ]);
    builder.build().unwrap()
}

#[test]
fn attach_installs_the_menu() {
    let mut app = AppHandle::new(1);
    assert!(app.is_live());
    assert!(app.active_menu().is_none());
    let menu = full_menu(&app);
    assert_eq!(app.set_menu(menu), Ok(()));
    assert!(app.active_menu().is_some());
}

#[test]
fn menu_bar_of_four_submenus_scenario() {
    let mut app = AppHandle::new(2);
    let menu = full_menu(&app);
    assert_eq!(app.set_menu(menu), Ok(()));
    let active = app.active_menu().as_ref().unwrap();
    assert_eq!(active.submenu_count(), 4);
    assert_eq!(active.submenu_at(0).title(), "MeasureGuide");
    assert_eq!(active.submenu_at(1).title(), "File");
    assert_eq!(active.submenu_at(2).title(), "Edit");
    assert_eq!(active.submenu_at(3).title(), "View");
}

#[test]
fn attach_replaces_the_previous_menu() {
    let mut app = AppHandle::new(3);
    let mut only_file = MenuBuilder::new(&app).items(vec![file_submenu()]);
    assert_eq!(app.set_menu(only_file.build().unwrap()), Ok(()));
    let menu = full_menu(&app);
    assert_eq!(app.set_menu(menu), Ok(()));
    let active = app.active_menu().as_ref().unwrap();
    assert_eq!(active.submenu_count(), 4);
}

#[test]
fn attach_after_tear_down_fails_and_keeps_previous_menu() {
    let mut app = AppHandle::new(4);
    let mut only_file = MenuBuilder::new(&app).items(vec![file_submenu()]);
    assert_eq!(app.set_menu(only_file.build().unwrap()), Ok(()));
    let replacement = full_menu(&app);
    app.tear_down();
    assert!(!app.is_live());
    assert_eq!(app.set_menu(replacement), Err(PlatformMenuError::HandleTornDown));
    let active = app.active_menu().as_ref().unwrap();
    assert_eq!(active.submenu_count(), 1);
    assert_eq!(active.submenu_at(0).title(), "File");
}

#[test]
fn attach_to_never_used_torn_down_handle_fails() {
    let mut app = AppHandle::new(5);
    let menu = full_menu(&app);
    app.tear_down();
    assert_eq!(app.set_menu(menu), Err(PlatformMenuError::HandleTornDown));
    assert!(app.active_menu().is_none());
}

#[test]
fn standard_only_session_never_invokes_handler() {
    let mut app = AppHandle::new(6);
    app.on_menu_event();
    assert!(app.handler_registered());
    let menu = full_menu(&app);
    assert_eq!(app.set_menu(menu), Ok(()));
    let session = [
        MenuEvent::Standard(StandardAction::Undo),
        MenuEvent::Standard(StandardAction::Redo),
        MenuEvent::Standard(StandardAction::Cut),
        MenuEvent::Standard(StandardAction::Copy),
        MenuEvent::Standard(StandardAction::Paste),
        MenuEvent::Standard(StandardAction::SelectAll),
        MenuEvent::Standard(StandardAction::Fullscreen),
        MenuEvent::Standard(StandardAction::CloseWindow),
        MenuEvent::Standard(StandardAction::Quit),
    ];
    for event in session {
        app.dispatch_menu_event(event);
    }
    assert_eq!(app.handler_invocations(), 0);
    assert!(app.handler_registered());
}

#[test]
fn custom_selection_invokes_registered_handler() {
    let mut app = AppHandle::new(7);
    app.dispatch_menu_event(MenuEvent::Custom(10));
    assert_eq!(app.handler_invocations(), 0);
    app.on_menu_event();
    app.dispatch_menu_event(MenuEvent::Custom(10));
    assert_eq!(app.handler_invocations(), 1);
    app.dispatch_menu_event(MenuEvent::Standard(StandardAction::Quit));
    assert_eq!(app.handler_invocations(), 1);
}
