//! The logic of the Vuho dictation UI: what the menu bar, the overlay and the
//! settings tab show, and how the model-provisioning loop moves from one state
//! to the next.

pub mod app_status;
pub mod assets;
pub mod channels;
pub mod demo;
pub mod domain;
pub mod event_loop;
pub mod hotkey_presets;
pub mod languages;
pub mod model_rows;
pub mod overlay;
pub mod panel;
pub mod parts;
pub mod provisioning;
pub mod provisioning_loop;
pub mod readiness;
pub mod settings_tab;
pub mod settings_window;
pub mod status_bar;
pub mod text;
pub mod theme;
