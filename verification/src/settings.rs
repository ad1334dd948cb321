//! Visibility state of the settings view. The caller reads the keyboard and
//! reports which of the two bindings fired; the transition itself is decided
//! here. Rendering the view belongs to the presentation layer.

use vstd::prelude::*;

verus! {

/// Whether the settings view is shown.
#[derive(Debug)]
pub struct SettingsView {
    pub show: bool,
}

impl SettingsView {
    /// A fresh, hidden settings view.
    pub fn new() -> (r: Self)
        ensures
            !r.show,
    {
        SettingsView { show: false }
    }

    /// Applies one round of input: escape hides the view, then the toggle
    /// binding flips it.
    pub fn handle_input(&mut self, escape_pressed: bool, toggle_pressed: bool)
        ensures
            final(self).show == (if toggle_pressed {
                !(!escape_pressed && old(self).show)
            } else {
                !escape_pressed && old(self).show
            }),
    {
        if escape_pressed {
            self.show = false;
        }
        if toggle_pressed {
            self.show = !self.show;
        }
    }
}

} // verus!
