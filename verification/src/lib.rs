//! Platform-independent decision logic of the GPUI iOS and macOS native
//! platform layers: UITextInput position arithmetic, hardware keyboard
//! decoding, dispatcher timing, touch and drop handling, the window's
//! lifecycle and teardown, the pasteboard, native control configuration
//! plans, sidebar and panel rules, and the example app's logger, demo
//! catalogue and demo state.

pub mod dispatcher;
pub mod text_input;
pub mod strings;
pub mod keyboard;
pub mod controls;
pub mod ios_controls;
pub mod mac_controls;
pub mod panel;
pub mod sidebar;
pub mod logging;
pub mod demos;
pub mod url_scheme;
pub mod platform;
pub mod input;
pub mod window;
pub mod demo_state;
pub mod clipboard;
