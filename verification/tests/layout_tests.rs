use menubar::app::AppHandle;
use menubar::catalog::MenuItem;
use menubar::catalog::StandardAction;
use menubar::error::PlatformMenuError;
use menubar::layout::build_edit_submenu;
use menubar::layout::build_standard_menu;
use menubar::layout::install_standard_menu;

#[test]
fn standard_edit_submenu_layout() {
    let submenu = build_edit_submenu();
    assert_eq!(submenu.title(), "Edit");
    assert_eq!(submenu.len(), 7);
    assert_eq!(submenu.item_at(0), MenuItem::Standard(StandardAction::Undo));
    assert_eq!(submenu.item_at(1), MenuItem::Standard(StandardAction::Redo));
    assert_eq!(submenu.item_at(2), MenuItem::Separator);
    assert_eq!(submenu.item_at(3), MenuItem::Standard(StandardAction::Cut));
    assert_eq!(submenu.item_at(4), MenuItem::Standard(StandardAction::Copy));
    assert_eq!(submenu.item_at(5), MenuItem::Standard(StandardAction::Paste));
    assert_eq!(submenu.item_at(6), MenuItem::Standard(StandardAction::SelectAll));
}

#[test]
fn standard_menu_holds_the_four_submenus_in_order() {
    let app = AppHandle::new(21);
    let menu = build_standard_menu(&app);
    assert_eq!(menu.handle_id(), 21);
    assert_eq!(menu.submenu_count(), 4);
    assert_eq!(menu.submenu_at(0).title(), "MeasureGuide");
    assert_eq!(menu.submenu_at(0).len(), 9);
    assert_eq!(menu.submenu_at(0).item_at(8), MenuItem::Standard(StandardAction::Quit));
    assert_eq!(menu.submenu_at(1).title(), "File");
    assert_eq!(menu.submenu_at(1).len(), 1);
    assert_eq!(menu.submenu_at(2).title(), "Edit");
    assert_eq!(menu.submenu_at(2).len(), 7);
    assert_eq!(menu.submenu_at(3).title(), "View");
    assert_eq!(menu.submenu_at(3).len(), 1);
    assert_eq!(menu.flattened_len(), 18);
}

#[test]
fn install_standard_menu_attaches_on_a_live_handle() {
    let mut app = AppHandle::new(22);
    assert_eq!(install_standard_menu(&mut app), Ok(()));
    let active = app.active_menu().as_ref().unwrap();
    assert_eq!(active.submenu_count(), 4);
    assert_eq!(active.submenu_at(0).title(), "MeasureGuide");
}

#[test]
fn install_standard_menu_fails_on_a_torn_down_handle() {
    let mut app = AppHandle::new(23);
    app.tear_down();
    assert_eq!(install_standard_menu(&mut app), Err(PlatformMenuError::HandleTornDown));
    assert!(app.active_menu().is_none());
}
