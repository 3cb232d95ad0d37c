//! Core of a tray-resident desktop shell: the main window's visibility and
//! page state machine, tray and shortcut dispatch, the application lifecycle
//! and the persisted settings record.
pub mod navigation;
pub mod tray;
pub mod lifecycle;
pub mod route;
pub mod json;
pub mod settings;
pub mod store;
