use chops::menu::{
    collect_custom_ids, create_app_menu, CustomItem, MenuId, MenuItem, PredefinedAction,
};

#[test]
fn id_strings_are_the_known_tags() {
    assert_eq!(MenuId::MetronomeToggle.id_str(), "metronome_toggle");
    assert_eq!(MenuId::MetronomePlay.id_str(), "metronome_play");
    assert_eq!(MenuId::MetronomeTempoDown.id_str(), "metronome_tempo_down");
    assert_eq!(MenuId::MetronomeTempoUp.id_str(), "metronome_tempo_up");
    assert_eq!(MenuId::HelpShortcuts.id_str(), "help_shortcuts");
}

#[test]
fn id_strings_are_pairwise_distinct() {
    let ids = [
        MenuId::MetronomeToggle,
        MenuId::MetronomePlay,
        MenuId::MetronomeTempoDown,
        MenuId::MetronomeTempoUp,
        MenuId::HelpShortcuts,
    ];
    for i in 0..ids.len() {
        for j in 0..ids.len() {
            if i != j {
                assert_ne!(ids[i].id_str(), ids[j].id_str());
            }
        }
    }
}

#[test]
fn macos_menu_has_seven_submenus_in_order() {
    let m = create_app_menu(true);
    let titles: Vec<&str> = m.submenus.iter().map(|s| s.title).collect();
    assert_eq!(
        titles,
        vec!["Chops", "File", "Edit", "View", "Practice", "Window", "Help"]
    );
}

#[test]
fn other_platform_menu_has_five_submenus_in_order() {
    let m = create_app_menu(false);
    let titles: Vec<&str> = m.submenus.iter().map(|s| s.title).collect();
    assert_eq!(titles, vec!["File", "Edit", "Practice", "Window", "Help"]);
}

#[test]
fn app_submenu_lists_the_macos_application_actions() {
    let m = create_app_menu(true);
    let items = &m.submenus[0].items;
    assert_eq!(items.len(), 9);
    assert!(matches!(
        items[0],
        MenuItem::Predefined { action: PredefinedAction::About, text: Some("About Chops") }
    ));
    assert!(matches!(items[1], MenuItem::Separator));
    assert!(matches!(
        items[2],
        MenuItem::Predefined { action: PredefinedAction::Services, text: None }
    ));
    assert!(matches!(items[3], MenuItem::Separator));
    assert!(matches!(
        items[4],
        MenuItem::Predefined { action: PredefinedAction::Hide, text: None }
    ));
    assert!(matches!(
        items[5],
        MenuItem::Predefined { action: PredefinedAction::HideOthers, text: None }
    ));
    assert!(matches!(
        items[6],
        MenuItem::Predefined { action: PredefinedAction::ShowAll, text: None }
    ));
    assert!(matches!(items[7], MenuItem::Separator));
    assert!(matches!(
        items[8],
        MenuItem::Predefined { action: PredefinedAction::Quit, text: None }
    ));
}

#[test]
fn file_submenu_only_closes_the_window() {
    let m = create_app_menu(false);
    let items = &m.submenus[0].items;
    assert_eq!(items.len(), 1);
    assert!(matches!(
        items[0],
        MenuItem::Predefined { action: PredefinedAction::CloseWindow, text: None }
    ));
}

#[test]
fn edit_submenu_lists_the_editing_actions() {
    let m = create_app_menu(false);
    let items = &m.submenus[1].items;
    assert_eq!(items.len(), 7);
    assert!(matches!(
        items[0],
        MenuItem::Predefined { action: PredefinedAction::Undo, text: None }
    ));
    assert!(matches!(
        items[1],
        MenuItem::Predefined { action: PredefinedAction::Redo, text: None }
    ));
    assert!(matches!(items[2], MenuItem::Separator));
    assert!(matches!(
        items[3],
        MenuItem::Predefined { action: PredefinedAction::Cut, text: None }
    ));
    assert!(matches!(
        items[4],
        MenuItem::Predefined { action: PredefinedAction::CopySelection, text: None }
    ));
    assert!(matches!(
        items[5],
        MenuItem::Predefined { action: PredefinedAction::Paste, text: None }
    ));
    assert!(matches!(
        items[6],
        MenuItem::Predefined { action: PredefinedAction::SelectAll, text: None }
    ));
}

#[test]
fn view_submenu_toggles_fullscreen_on_macos() {
    let m = create_app_menu(true);
    let items = &m.submenus[3].items;
    assert_eq!(items.len(), 1);
    assert!(matches!(
        items[0],
        MenuItem::Predefined { action: PredefinedAction::Fullscreen, text: None }
    ));
}

#[test]
fn window_submenu_lists_the_window_actions() {
    let m = create_app_menu(false);
    let items = &m.submenus[3].items;
    assert_eq!(items.len(), 4);
    assert!(matches!(
        items[0],
        MenuItem::Predefined { action: PredefinedAction::Minimize, text: None }
    ));
    assert!(matches!(
        items[1],
        MenuItem::Predefined { action: PredefinedAction::Maximize, text: None }
    ));
    assert!(matches!(items[2], MenuItem::Separator));
    assert!(matches!(
        items[3],
        MenuItem::Predefined { action: PredefinedAction::CloseWindow, text: None }
    ));
}

fn assert_custom(item: &MenuItem, id: MenuId, label: &str, accelerator: &str) {
    match item {
        MenuItem::Custom(CustomItem {
            id: got_id,
            label: got_label,
            accelerator: got_accelerator,
        }) => {
            assert_eq!(*got_id, id);
            assert_eq!(*got_label, label);
            assert_eq!(*got_accelerator, Some(accelerator));
        }
        _ => panic!("expected a custom entry"),
    }
}

#[test]
fn practice_submenu_drives_the_metronome() {
    let m = create_app_menu(false);
    let practice = &m.submenus[2];
    assert_eq!(practice.title, "Practice");
    assert_eq!(practice.items.len(), 5);
    assert_custom(
        &practice.items[0],
        MenuId::MetronomeToggle,
        "Open/Close Metronome",
        "M",
    );
    assert_custom(
        &practice.items[1],
        MenuId::MetronomePlay,
        "Start/Stop Metronome",
        "K",
    );
    assert!(matches!(practice.items[2], MenuItem::Separator));
    assert_custom(
        &practice.items[3],
        MenuId::MetronomeTempoDown,
        "Decrease Tempo",
        "[",
    );
    assert_custom(
        &practice.items[4],
        MenuId::MetronomeTempoUp,
        "Increase Tempo",
        "]",
    );
}

#[test]
fn help_submenu_opens_the_shortcuts() {
    let m = create_app_menu(true);
    let help = &m.submenus[6];
    assert_eq!(help.title, "Help");
    assert_eq!(help.items.len(), 1);
    assert_custom(
        &help.items[0],
        MenuId::HelpShortcuts,
        "Keyboard Shortcuts",
        "?",
    );
}

#[test]
fn custom_ids_are_the_five_known_ones_on_both_platforms() {
    let expected = vec![
        MenuId::MetronomeToggle,
        MenuId::MetronomePlay,
        MenuId::MetronomeTempoDown,
        MenuId::MetronomeTempoUp,
        MenuId::HelpShortcuts,
    ];
    assert_eq!(collect_custom_ids(&create_app_menu(true)), expected);
    assert_eq!(collect_custom_ids(&create_app_menu(false)), expected);
}
