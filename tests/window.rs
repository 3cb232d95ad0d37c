use ha_assist_shell::lifecycle::Shell;
use ha_assist_shell::navigation::{Effect, Notification, Page, WindowState};
use ha_assist_shell::route::{navigation_script, page_url, path_of};
use ha_assist_shell::tray::{available_actions, default_shortcuts, tray_menu, MenuEntry, TrayAction};

fn hidden(page: Page) -> WindowState {
    WindowState { visible: false, page }
}

#[test]
fn starts_visible_on_main() {
    let s = WindowState::new();
    assert_eq!(s, WindowState { visible: true, page: Page::Main });
    assert_eq!(Shell::new().window, s);
}

#[test]
fn show_main_from_hidden_settings() {
    let mut s = hidden(Page::Settings);
    let e = s.show_main();
    assert_eq!(s, WindowState { visible: true, page: Page::Main });
    assert_eq!(
        e,
        vec![Effect::Show, Effect::Focus, Effect::Navigate(Page::Main), Effect::Emit(Notification::Focus)]
    );
}

#[test]
fn show_settings_from_visible_main() {
    let mut s = WindowState::new();
    let e = s.show_settings();
    assert_eq!(s, WindowState { visible: true, page: Page::Settings });
    assert_eq!(
        e,
        vec![Effect::Show, Effect::Focus, Effect::Navigate(Page::Settings), Effect::Emit(Notification::Focus)]
    );
}

#[test]
fn toggle_hides_visible_window_and_keeps_page() {
    let mut s = WindowState { visible: true, page: Page::Settings };
    assert_eq!(s.toggle(), vec![Effect::Hide]);
    assert_eq!(s, hidden(Page::Settings));
}

#[test]
fn toggle_from_hidden_settings_goes_to_main() {
    let mut s = hidden(Page::Settings);
    let e = s.toggle();
    assert_eq!(s, WindowState { visible: true, page: Page::Main });
    assert_eq!(
        e,
        vec![Effect::Show, Effect::Focus, Effect::Navigate(Page::Main), Effect::Emit(Notification::Focus)]
    );
}

#[test]
fn toggle_from_hidden_main_is_a_bare_show() {
    let mut s = hidden(Page::Main);
    let e = s.toggle();
    assert_eq!(s, WindowState { visible: true, page: Page::Main });
    assert_eq!(e, vec![Effect::Show, Effect::Focus, Effect::Emit(Notification::Focus)]);
}

#[test]
fn toggle_twice_from_visible_main_returns_to_same_state() {
    let mut s = WindowState::new();
    assert_eq!(s.toggle(), vec![Effect::Hide]);
    assert_eq!(s.toggle(), vec![Effect::Show, Effect::Focus, Effect::Emit(Notification::Focus)]);
    assert_eq!(s, WindowState::new());
}

#[test]
fn toggle_twice_from_visible_settings_lands_on_main() {
    let mut s = WindowState { visible: true, page: Page::Settings };
    s.toggle();
    s.toggle();
    assert_eq!(s, WindowState { visible: true, page: Page::Main });
}

#[test]
fn toggle_twice_from_hidden_settings() {
    let mut s = hidden(Page::Settings);
    s.toggle();
    assert_eq!(s, WindowState { visible: true, page: Page::Main });
    s.toggle();
    assert_eq!(s, hidden(Page::Main));
}

#[test]
fn hide_window_keeps_page() {
    let mut s = WindowState { visible: true, page: Page::Settings };
    assert_eq!(s.hide_window(), vec![Effect::Hide]);
    assert_eq!(s, hidden(Page::Settings));
}

#[test]
fn voice_pipeline_from_hidden_shows_then_triggers() {
    let mut s = hidden(Page::Settings);
    let e = s.trigger_voice_pipeline();
    assert_eq!(
        e,
        vec![
            Effect::Show,
            Effect::Focus,
            Effect::Emit(Notification::Focus),
            Effect::Emit(Notification::TriggerVoicePipeline)
        ]
    );
    assert_eq!(s, WindowState { visible: true, page: Page::Settings });
}

#[test]
fn voice_pipeline_when_visible_only_triggers() {
    let mut s = WindowState::new();
    assert_eq!(s.trigger_voice_pipeline(), vec![Effect::Emit(Notification::TriggerVoicePipeline)]);
    assert_eq!(s, WindowState::new());
}

#[test]
fn observe_visibility_keeps_page() {
    let mut s = WindowState { visible: true, page: Page::Settings };
    s.observe_visibility(false);
    assert_eq!(s, hidden(Page::Settings));
}

#[test]
fn close_then_tray_toggle_shows_window() {
    let mut sh = Shell::new();
    assert_eq!(sh.close_requested(), vec![Effect::Hide]);
    assert!(!sh.window.visible);
    let e = sh.tray_menu_selected("toggle_window");
    assert!(sh.window.visible);
    assert!(!e.contains(&Effect::Exit(0)));
}

#[test]
fn tray_quit_closes_then_exits_zero() {
    let mut sh = Shell::new();
    assert_eq!(sh.tray_menu_selected("quit_application"), vec![Effect::CloseWindow, Effect::Exit(0)]);
    assert!(!sh.window.visible);
}

#[test]
fn tray_unknown_id_does_nothing() {
    let mut sh = Shell::new();
    assert_eq!(sh.tray_menu_selected("reboot"), Vec::<Effect>::new());
    assert_eq!(sh.window, WindowState::new());
}

#[test]
fn tray_open_settings_and_logs() {
    let mut sh = Shell::new();
    sh.close_requested();
    let e = sh.tray_menu_selected("open_settings");
    assert_eq!(e[2], Effect::Navigate(Page::Settings));
    assert_eq!(sh.window, WindowState { visible: true, page: Page::Settings });
    assert_eq!(sh.tray_menu_selected("open_logs_directory"), vec![Effect::OpenLogsDirectory]);
    assert_eq!(sh.window, WindowState { visible: true, page: Page::Settings });
}

#[test]
fn tray_voice_item_and_left_click() {
    let mut sh = Shell::new();
    assert_eq!(
        sh.tray_menu_selected("trigger_voice_pipeline"),
        vec![Effect::Emit(Notification::TriggerVoicePipeline)]
    );
    assert_eq!(sh.tray_left_click(), vec![Effect::Hide]);
    assert!(!sh.window.visible);
    assert_eq!(sh.perform(TrayAction::ToggleWindow).len(), 3);
    assert!(sh.window.visible);
}

#[test]
fn menu_ids_resolve_to_their_actions() {
    let all = [
        TrayAction::ToggleWindow,
        TrayAction::TriggerVoicePipeline,
        TrayAction::OpenSettings,
        TrayAction::OpenLogsDirectory,
        TrayAction::QuitApplication,
    ];
    for a in all {
        assert_eq!(TrayAction::from_menu_id(&a.menu_id()), Some(a));
    }
    assert_eq!(TrayAction::QuitApplication.menu_id(), "quit_application");
    assert_eq!(TrayAction::from_menu_id("Toggle_Window"), None);
    assert_eq!(TrayAction::from_menu_id(""), None);
}

#[test]
fn tray_menu_layout() {
    let m = tray_menu();
    assert_eq!(m.len(), 7);
    assert!(matches!(m[2], MenuEntry::Separator));
    assert!(matches!(m[5], MenuEntry::Separator));
    match &m[0] {
        MenuEntry::Item { action, label } => {
            assert_eq!(*action, TrayAction::ToggleWindow);
            assert_eq!(label, "Show/Hide Window (Alt+A)");
        }
        MenuEntry::Separator => panic!("expected an item"),
    }
    match &m[6] {
        MenuEntry::Item { action, label } => {
            assert_eq!(*action, TrayAction::QuitApplication);
            assert_eq!(label, "Quit");
        }
        MenuEntry::Separator => panic!("expected an item"),
    }
}

#[test]
fn shortcuts_and_partial_registration() {
    let b = default_shortcuts();
    assert_eq!(b.len(), 2);
    assert_eq!(b[0].accelerator, "Alt+A");
    assert_eq!(b[0].action, TrayAction::ToggleWindow);
    assert_eq!(b[1].accelerator, "Alt+Shift+A");
    assert_eq!(b[1].action, TrayAction::TriggerVoicePipeline);
    assert_eq!(available_actions(&b, &vec![true, true]), vec![TrayAction::ToggleWindow, TrayAction::TriggerVoicePipeline]);
    assert_eq!(available_actions(&b, &vec![false, true]), vec![TrayAction::TriggerVoicePipeline]);
    assert_eq!(available_actions(&b, &vec![false, false]), Vec::<TrayAction>::new());
}

#[test]
fn page_urls_replace_the_path() {
    assert_eq!(path_of(Page::Main), "/");
    assert_eq!(path_of(Page::Settings), "/settings");
    assert_eq!(
        page_url("http://localhost:1420/settings?x=1", Page::Main),
        Some("http://localhost:1420/?x=1".to_string())
    );
    assert_eq!(
        page_url("tauri://localhost/", Page::Settings),
        Some("tauri://localhost/settings".to_string())
    );
    assert_eq!(page_url("not a url", Page::Main), None);
}

#[test]
fn navigation_script_sets_location() {
    assert_eq!(
        navigation_script("http://localhost:1420/settings", Page::Main),
        Some("window.location.href = 'http://localhost:1420/';".to_string())
    );
    assert_eq!(navigation_script("", Page::Settings), None);
}
