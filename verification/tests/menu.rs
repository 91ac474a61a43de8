use tray_lifecycle::lifecycle::{Controller, Directive, Trigger, Visibility};
use tray_lifecycle::menu::{menu_trigger, tray_menu, MenuAction};

#[test]
fn menu_has_show_then_quit() {
    let menu = tray_menu();
    assert_eq!(menu.len(), 2);
    assert_eq!(menu[0].id(), "show");
    assert_eq!(menu[1].id(), "quit");
}

#[test]
fn menu_labels() {
    let menu = tray_menu();
    assert_eq!(menu[0].label(), "Hiện DinoMoney");
    assert_eq!(menu[1].label(), "Thoát DinoMoney");
}

#[test]
fn menu_items_are_enabled() {
    for item in tray_menu() {
        assert!(item.enabled());
    }
}

#[test]
fn action_ids_and_labels() {
    assert_eq!(MenuAction::Show.id(), "show");
    assert_eq!(MenuAction::Quit.id(), "quit");
    assert_eq!(MenuAction::Show.label(), "Hiện DinoMoney");
    assert_eq!(MenuAction::Quit.label(), "Thoát DinoMoney");
}

#[test]
fn action_is_found_by_its_id() {
    for action in [MenuAction::Show, MenuAction::Quit] {
        assert_eq!(MenuAction::from_id(action.id()), Some(action));
    }
    assert_ne!(MenuAction::Show.id(), MenuAction::Quit.id());
}

#[test]
fn unknown_ids_stand_for_no_action() {
    for id in ["", "s", "sho", "shows", "Show", "SHOW", "quit ", " quit", "qui", "exit", "hide", "shoW", "quiT", "tiuq"] {
        assert_eq!(MenuAction::from_id(id), None);
        assert_eq!(menu_trigger(id), None);
    }
}

#[test]
fn ids_that_differ_beyond_ascii_stand_for_no_action() {
    assert_eq!(MenuAction::from_id("shòw"), None);
    assert_eq!(MenuAction::from_id("Hiện DinoMoney"), None);
    assert_eq!(MenuAction::from_id("quit\u{0}"), None);
}

#[test]
fn actions_set_off_their_triggers() {
    assert_eq!(MenuAction::Show.trigger(), Trigger::TrayActivate);
    assert_eq!(MenuAction::Quit.trigger(), Trigger::QuitRequested);
    assert_eq!(menu_trigger("show"), Some(Trigger::TrayActivate));
    assert_eq!(menu_trigger("quit"), Some(Trigger::QuitRequested));
}

#[test]
fn every_menu_item_is_dispatched() {
    for item in tray_menu() {
        assert!(menu_trigger(item.id()).is_some());
    }
}

#[test]
fn show_item_brings_the_window_back() {
    let mut controller = Controller::new();
    controller.handle(Trigger::CloseRequested);
    assert_eq!(controller.on_menu_event("show"), Some(Directive::ShowAndFocus));
    assert_eq!(controller.visibility(), Visibility::Shown);
}

#[test]
fn quit_item_exits_with_zero() {
    let mut controller = Controller::new();
    assert_eq!(controller.on_menu_event("quit"), Some(Directive::Exit { code: 0 }));
    controller.handle(Trigger::CloseRequested);
    assert_eq!(controller.on_menu_event("quit"), Some(Directive::Exit { code: 0 }));
    assert_eq!(controller.visibility(), Visibility::Hidden);
}

#[test]
fn unknown_menu_id_is_ignored() {
    let mut controller = Controller::new();
    assert_eq!(controller.on_menu_event("about"), None);
    assert_eq!(controller.visibility(), Visibility::Shown);
    controller.handle(Trigger::CloseRequested);
    assert_eq!(controller.on_menu_event(""), None);
    assert_eq!(controller.visibility(), Visibility::Hidden);
}
