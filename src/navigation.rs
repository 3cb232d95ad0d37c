//! The window visibility / page state machine.
//!
//! Each transition updates the in-memory [`WindowState`] and returns the
//! ordered list of [`Effect`]s that the host must perform on the real window.
use vstd::prelude::*;

verus! {

/// The logical page that the embedded view displays.
#[derive(Clone, Copy, Debug, PartialEq, Eq, Structural)]
pub enum Page {
    Main,
    Settings,
}

/// Notifications pushed to the embedded view.
#[derive(Clone, Copy, Debug, PartialEq, Eq, Structural)]
pub enum Notification {
    /// The window was brought forward; the view may reset its own UI state.
    Focus,
    /// The view should start its voice-input flow.
    TriggerVoicePipeline,
}

/// One step that the host performs on the window or the process, in order.
#[derive(Clone, Copy, Debug, PartialEq, Eq, Structural)]
pub enum Effect {
    Show,
    Focus,
    Hide,
    Navigate(Page),
    Emit(Notification),
    CloseWindow,
    OpenLogsDirectory,
    Exit(i32),
}

/// What the shell knows of its main window.
#[derive(Clone, Copy, Debug, PartialEq, Eq, Structural)]
pub struct WindowState {
    pub visible: bool,
    pub page: Page,
}

/// The effects of bringing the window forward on `page`.
pub open spec fn show_page_effects(page: Page) -> Seq<Effect> {
    seq![Effect::Show, Effect::Focus, Effect::Navigate(page), Effect::Emit(Notification::Focus)]
}

/// The effects of a bare show that keeps the current page.
pub open spec fn bare_show_effects() -> Seq<Effect> {
    seq![Effect::Show, Effect::Focus, Effect::Emit(Notification::Focus)]
}

pub open spec fn toggle_state(s: WindowState) -> WindowState {
    if s.visible {
        WindowState { visible: false, page: s.page }
    } else {
        WindowState { visible: true, page: Page::Main }
    }
}

pub open spec fn toggle_effects(s: WindowState) -> Seq<Effect> {
    if s.visible {
        seq![Effect::Hide]
    } else if s.page == Page::Settings {
        show_page_effects(Page::Main)
    } else {
        bare_show_effects()
    }
}

pub open spec fn voice_state(s: WindowState) -> WindowState {
    WindowState { visible: true, page: s.page }
}

pub open spec fn voice_effects(s: WindowState) -> Seq<Effect> {
    if s.visible {
        seq![Effect::Emit(Notification::TriggerVoicePipeline)]
    } else {
        bare_show_effects().push(Effect::Emit(Notification::TriggerVoicePipeline))
    }
}

fn show_page_vec(page: Page) -> (r: Vec<Effect>)
    ensures
        r@ == show_page_effects(page),
{
    let mut r: Vec<Effect> = Vec::new();
    r.push(Effect::Show);
    r.push(Effect::Focus);
    r.push(Effect::Navigate(page));
    r.push(Effect::Emit(Notification::Focus));
    proof {
        assert(r@ =~= show_page_effects(page));
    }
    r
}

fn bare_show_vec() -> (r: Vec<Effect>)
    ensures
        r@ == bare_show_effects(),
{
    let mut r: Vec<Effect> = Vec::new();
    r.push(Effect::Show);
    r.push(Effect::Focus);
    r.push(Effect::Emit(Notification::Focus));
    proof {
        assert(r@ =~= bare_show_effects());
    }
    r
}

impl WindowState {
    /// The state at startup: visible on the main page.
    pub fn new() -> (r: WindowState)
        ensures
            r.visible,
            r.page == Page::Main,
    {
        WindowState { visible: true, page: Page::Main }
    }

    /// Records the visibility that the host observed on the real window.
    pub fn observe_visibility(&mut self, visible: bool)
        ensures
            final(self).visible == visible,
            final(self).page == old(self).page,
    {
        self.visible = visible;
    }

    /// From any state to visible on the main page.
    pub fn show_main(&mut self) -> (r: Vec<Effect>)
        ensures
            final(self).visible,
            final(self).page == Page::Main,
            r@ == show_page_effects(Page::Main),
    {
        self.visible = true;
        self.page = Page::Main;
        show_page_vec(Page::Main)
    }

    /// From any state to visible on the settings page.
    pub fn show_settings(&mut self) -> (r: Vec<Effect>)
        ensures
            final(self).visible,
            final(self).page == Page::Settings,
            r@ == show_page_effects(Page::Settings),
    {
        self.visible = true;
        self.page = Page::Settings;
        show_page_vec(Page::Settings)
    }

    /// Hides a visible window; brings a hidden one back, on the main page
    /// when it was left on the settings page, else with a bare show.
    pub fn toggle(&mut self) -> (r: Vec<Effect>)
        ensures
            *final(self) == toggle_state(*old(self)),
            r@ == toggle_effects(*old(self)),
    {
        if self.visible {
            self.visible = false;
            let mut r: Vec<Effect> = Vec::new();
            r.push(Effect::Hide);
            proof {
                assert(r@ =~= seq![Effect::Hide]);
            }
            r
        } else {
            match self.page {
                Page::Settings => self.show_main(),
                Page::Main => {
                    self.visible = true;
                    bare_show_vec()
                },
            }
        }
    }

    /// From any state to hidden, keeping the page.
    pub fn hide_window(&mut self) -> (r: Vec<Effect>)
        ensures
            !final(self).visible,
            final(self).page == old(self).page,
            r@ == seq![Effect::Hide],
    {
        self.visible = false;
        let mut r: Vec<Effect> = Vec::new();
        r.push(Effect::Hide);
        proof {
            assert(r@ =~= seq![Effect::Hide]);
        }
        r
    }

    /// Makes the window visible on its current page if needed, then asks the
    /// view to start its voice-input flow.
    pub fn trigger_voice_pipeline(&mut self) -> (r: Vec<Effect>)
        ensures
            *final(self) == voice_state(*old(self)),
            r@ == voice_effects(*old(self)),
    {
        let mut r: Vec<Effect> = if self.visible {
            Vec::new()
        } else {
            bare_show_vec()
        };
        self.visible = true;
        r.push(Effect::Emit(Notification::TriggerVoicePipeline));
        proof {
            assert(r@ =~= voice_effects(*old(self)));
        }
        r
    }
}

} // verus!
