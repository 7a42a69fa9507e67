//! Front-end application settings.
//!
//! Persistence — the settings store, serialisation — belongs to the
//! shell; the values and their defaults stand here.

use vstd::prelude::*;

verus! {

/// What the front end remembers about window behaviour.
#[derive(Clone, Copy, Debug, PartialEq, Eq, Structural)]
pub struct AppSettings {
    /// Closing the window quits the app; otherwise it minimises to the
    /// tray.
    pub quit_on_close: bool,
    /// Start minimised to the tray, with no window shown.
    pub start_minimized: bool,
}

impl Default for AppSettings {
    /// The stock behaviour: closing minimises to the tray, and the
    /// window shows at start.
    fn default() -> (r: AppSettings)
        ensures
            !r.quit_on_close,
            !r.start_minimized,
    {
        AppSettings { quit_on_close: false, start_minimized: false }
    }
}

} // verus!
