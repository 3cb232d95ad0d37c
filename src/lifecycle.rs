//! The application object: it owns the window state, turns user input from
//! the tray, shortcuts and the window system into transitions, and decides
//! how the application ends.
use vstd::prelude::*;
use crate::navigation::{
    Effect, Notification, Page, WindowState, bare_show_effects, show_page_effects,
    toggle_effects, toggle_state, voice_effects, voice_state,
};
use crate::tray::{TrayAction, action_of_id};

verus! {

/// The running shell. A window close request only hides the window; the
/// application ends only through [`TrayAction::QuitApplication`].
#[derive(Clone, Copy, Debug)]
pub struct Shell {
    pub window: WindowState,
}

pub open spec fn perform_state(s: WindowState, a: TrayAction) -> WindowState {
    match a {
        TrayAction::ToggleWindow => toggle_state(s),
        TrayAction::TriggerVoicePipeline => voice_state(s),
        TrayAction::OpenSettings => WindowState { visible: true, page: Page::Settings },
        TrayAction::OpenLogsDirectory => s,
        TrayAction::QuitApplication => WindowState { visible: false, page: s.page },
    }
}

pub open spec fn perform_effects(s: WindowState, a: TrayAction) -> Seq<Effect> {
    match a {
        TrayAction::ToggleWindow => toggle_effects(s),
        TrayAction::TriggerVoicePipeline => voice_effects(s),
        TrayAction::OpenSettings => show_page_effects(Page::Settings),
        TrayAction::OpenLogsDirectory => seq![Effect::OpenLogsDirectory],
        TrayAction::QuitApplication => seq![Effect::CloseWindow, Effect::Exit(0)],
    }
}

pub open spec fn close_state(s: WindowState) -> WindowState {
    WindowState { visible: false, page: s.page }
}

impl Shell {
    /// The shell at startup, with its window visible on the main page.
    pub fn new() -> (r: Shell)
        ensures
            r.window == (WindowState { visible: true, page: Page::Main }),
    {
        Shell { window: WindowState::new() }
    }

    /// The user asked the window system to close the window: hide it and
    /// keep running in the tray.
    pub fn close_requested(&mut self) -> (r: Vec<Effect>)
        ensures
            final(self).window == close_state(old(self).window),
            r@ == seq![Effect::Hide],
    {
        self.window.hide_window()
    }

    /// Performs one action of the fixed set.
    pub fn perform(&mut self, action: TrayAction) -> (r: Vec<Effect>)
        ensures
            final(self).window == perform_state(old(self).window, action),
            r@ == perform_effects(old(self).window, action),
    {
        match action {
            TrayAction::ToggleWindow => self.window.toggle(),
            TrayAction::TriggerVoicePipeline => self.window.trigger_voice_pipeline(),
            TrayAction::OpenSettings => self.window.show_settings(),
            TrayAction::OpenLogsDirectory => {
                let mut r: Vec<Effect> = Vec::new();
                r.push(Effect::OpenLogsDirectory);
                proof {
                    assert(r@ =~= seq![Effect::OpenLogsDirectory]);
                }
                r
            },
            TrayAction::QuitApplication => self.quit(),
        }
    }

    /// Closes the window, then ends the process with status 0.
    pub fn quit(&mut self) -> (r: Vec<Effect>)
        ensures
            final(self).window == (WindowState { visible: false, page: old(self).window.page }),
            r@ == seq![Effect::CloseWindow, Effect::Exit(0)],
    {
        self.window.visible = false;
        let mut r: Vec<Effect> = Vec::new();
        r.push(Effect::CloseWindow);
        r.push(Effect::Exit(0));
        proof {
            assert(r@ =~= seq![Effect::CloseWindow, Effect::Exit(0)]);
        }
        r
    }

    /// A tray menu item was selected; an unknown identifier does nothing.
    pub fn tray_menu_selected(&mut self, id: &str) -> (r: Vec<Effect>)
        ensures
            action_of_id(id@) matches Some(a) ==> final(self).window == perform_state(
                old(self).window,
                a,
            ) && r@ == perform_effects(old(self).window, a),
            action_of_id(id@) is None ==> *final(self) == *old(self) && r@.len() == 0,
    {
        match TrayAction::from_menu_id(id) {
            Some(a) => self.perform(a),
            None => Vec::new(),
        }
    }

    /// A left click on the tray icon toggles the window.
    pub fn tray_left_click(&mut self) -> (r: Vec<Effect>)
        ensures
            final(self).window == toggle_state(old(self).window),
            r@ == toggle_effects(old(self).window),
    {
        self.window.toggle()
    }
}

/// Toggling twice. From a hidden window the first toggle shows it on the
/// main page (replacing the settings page, otherwise keeping the page) and
/// the second hides it again. From a visible window two toggles leave it
/// visible on the main page: the same state when it was on the main page,
/// the second toggle then being a bare show of that same page.
pub proof fn lemma_toggle_twice(s: WindowState)
    ensures
        !s.visible ==> toggle_state(s) == (WindowState { visible: true, page: Page::Main }),
        !s.visible && s.page == Page::Settings ==> toggle_effects(s) == show_page_effects(
            Page::Main,
        ),
        !s.visible && s.page == Page::Main ==> toggle_effects(s) == bare_show_effects(),
        !s.visible ==> toggle_state(toggle_state(s)) == (WindowState {
            visible: false,
            page: Page::Main,
        }),
        s.visible ==> toggle_state(toggle_state(s)) == (WindowState {
            visible: true,
            page: Page::Main,
        }),
        s.visible && s.page == Page::Main ==> toggle_state(toggle_state(s)) == s
            && toggle_effects(s) == seq![Effect::Hide] && toggle_effects(toggle_state(s))
            == bare_show_effects(),
{
}

/// A close request followed by the tray's toggle item leaves the window
/// visible, and neither step ends the process.
pub proof fn lemma_close_then_toggle(s: WindowState)
    ensures
        perform_state(close_state(s), TrayAction::ToggleWindow).visible,
        !perform_effects(close_state(s), TrayAction::ToggleWindow).contains(Effect::Exit(0)),
        !seq![Effect::Hide].contains(Effect::Exit(0)),
{
    let e = perform_effects(close_state(s), TrayAction::ToggleWindow);
    if e.contains(Effect::Exit(0)) {
        let i = choose|i: int| 0 <= i < e.len() && e[i] == Effect::Exit(0);
        assert(e[i] != Effect::Exit(0));
    }
    if seq![Effect::Hide].contains(Effect::Exit(0)) {
        let i = choose|i: int| 0 <= i < 1 && seq![Effect::Hide][i] == Effect::Exit(0);
        assert(seq![Effect::Hide][i] == Effect::Hide);
    }
}

/// Triggering the voice pipeline on a hidden window shows and focuses it,
/// sends the focus notification, then the trigger notification, and keeps
/// the page.
pub proof fn lemma_voice_from_hidden(s: WindowState)
    requires
        !s.visible,
    ensures
        voice_state(s) == (WindowState { visible: true, page: s.page }),
        voice_effects(s) == seq![
            Effect::Show,
            Effect::Focus,
            Effect::Emit(Notification::Focus),
            Effect::Emit(Notification::TriggerVoicePipeline),
        ],
{
    assert(voice_effects(s) =~= seq![
        Effect::Show,
        Effect::Focus,
        Effect::Emit(Notification::Focus),
        Effect::Emit(Notification::TriggerVoicePipeline),
    ]);
}

} // verus!
