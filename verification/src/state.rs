//! What the application remembers of its global shortcuts.

use crate::text::clone_opt_string;
use vstd::prelude::*;

verus! {

/// Why each shortcut could not be registered, where it could not.
#[derive(Debug)]
pub struct ShortcutErrors {
    /// Why the toggle shortcut failed to register.
    pub toggle_error: Option<String>,
    /// Why the hold shortcut failed to register.
    pub hold_error: Option<String>,
    /// Why the paste-last shortcut failed to register.
    pub paste_last_error: Option<String>,
}

impl ShortcutErrors {
    /// Whether a shortcut failed to register.
    pub open spec fn any_error(self) -> bool {
        self.toggle_error is Some || self.hold_error is Some || self.paste_last_error is Some
    }

    /// Whether a shortcut failed to register.
    pub fn has_any_error(&self) -> (r: bool)
        ensures
            r == self.any_error(),
    {
        self.toggle_error.is_some() || self.hold_error.is_some() || self.paste_last_error.is_some()
    }
}

impl Default for ShortcutErrors {
    fn default() -> (r: Self)
        ensures
            r == (ShortcutErrors { toggle_error: None, hold_error: None, paste_last_error: None }),
    {
        ShortcutErrors { toggle_error: None, hold_error: None, paste_last_error: None }
    }
}

impl Clone for ShortcutErrors {
    fn clone(&self) -> (r: Self)
        ensures
            r == *self,
    {
        ShortcutErrors {
            toggle_error: clone_opt_string(&self.toggle_error),
            hold_error: clone_opt_string(&self.hold_error),
            paste_last_error: clone_opt_string(&self.paste_last_error),
        }
    }
}

/// How the registration of the shortcuts went.
#[derive(Debug)]
pub struct ShortcutRegistrationResult {
    pub toggle_registered: bool,
    pub hold_registered: bool,
    pub paste_last_registered: bool,
    pub errors: ShortcutErrors,
}

impl Clone for ShortcutRegistrationResult {
    fn clone(&self) -> (r: Self)
        ensures
            r == *self,
    {
        ShortcutRegistrationResult {
            toggle_registered: self.toggle_registered,
            hold_registered: self.hold_registered,
            paste_last_registered: self.paste_last_registered,
            errors: self.errors.clone(),
        }
    }
}

} // verus!
