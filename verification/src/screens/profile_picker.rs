//! The profile picker placeholder screen.

use vstd::prelude::*;

use crate::interaction::{ActionId, Command, ScreenState};
use crate::model::AppConfig;

verus! {

/// A screen that offers nothing yet but refreshing and quitting.
pub struct ProfileScreen;

impl ProfileScreen {
    pub fn new(cfg: AppConfig) -> (r: Self)
        ensures
            r == ProfileScreen,
    {
        ProfileScreen
    }

    pub fn name(&self) -> (r: &'static str)
        ensures
            r@ == "Profile Picker"@,
    {
        "Profile Picker"
    }

    /// Refresh redraws, quit leaves the application, other keys do nothing.
    pub fn handle_command(&mut self, command: Command) -> (r: ScreenState)
        ensures
            r == match command.action {
                ActionId::Refresh => ScreenState::Refresh,
                ActionId::Quit => ScreenState::Quit,
                _ => ScreenState::Stay,
            },
    {
        match command.action {
            ActionId::Refresh => ScreenState::Refresh,
            ActionId::Quit => ScreenState::Quit,
            _ => ScreenState::Stay,
        }
    }
}

} // verus!
