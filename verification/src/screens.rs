//! The application's screens: each keeps its state, reacts to commands and
//! reports what the application loop should do next.

pub mod issue_form;
pub mod issues_table;
pub mod conflicts;
pub mod current_sprint;
pub mod home;
pub mod my_issues;
pub mod profile_creation;
pub mod profiles;
pub mod profile_picker;
pub mod board_selection;
pub mod search_issues;
pub mod issue_detail;
