use chops::bootstrap::{bootstrap_plan, forward_menu_event, LogLevel, Plugin};
use chops::menu::MenuId;

#[test]
fn plugins_are_registered_in_order() {
    let p = bootstrap_plan(false, false);
    assert_eq!(
        p.plugins,
        vec![Plugin::FileSystem, Plugin::Dialog, Plugin::Shell]
    );
}

#[test]
fn release_builds_attach_no_logger() {
    let p = bootstrap_plan(true, false);
    assert_eq!(p.log_level, None);
}

#[test]
fn debug_builds_log_at_info() {
    let p = bootstrap_plan(false, true);
    assert_eq!(p.log_level, Some(LogLevel::Info));
}

#[test]
fn plan_menu_matches_the_platform() {
    assert_eq!(bootstrap_plan(true, false).menu.submenus.len(), 7);
    assert_eq!(bootstrap_plan(false, true).menu.submenus.len(), 5);
}

#[test]
fn menu_clicks_are_forwarded_under_the_fixed_topic() {
    let e = forward_menu_event("metronome_play");
    assert_eq!(e.topic, "menu-action");
    assert_eq!(e.payload, "metronome_play");
}

#[test]
fn every_known_identifier_is_forwarded_verbatim() {
    let ids = [
        MenuId::MetronomeToggle,
        MenuId::MetronomePlay,
        MenuId::MetronomeTempoDown,
        MenuId::MetronomeTempoUp,
        MenuId::HelpShortcuts,
    ];
    for id in ids {
        let e = forward_menu_event(id.id_str());
        assert_eq!(e.topic, "menu-action");
        assert_eq!(e.payload, id.id_str());
    }
}

#[test]
fn unknown_identifiers_are_forwarded_unchanged_too() {
    let e = forward_menu_event("some_future_entry");
    assert_eq!(e.payload, "some_future_entry");
}
