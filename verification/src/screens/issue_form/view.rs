//! Which overlay the issue form shows over its fields.

use vstd::prelude::*;

use crate::form::{is_dropdown, is_text_type, options_of, FieldType};
use crate::screens::issue_form::state::{overlay_index, IssueFormState, IssueFormSurface};

verus! {

/// The overlay drawn over the form: the text pop-up of a text field (with its
/// least height in rows), or the option list of a drop-down.
#[derive(Clone, Copy, Debug, PartialEq, Eq, Structural)]
pub enum ActiveOverlay {
    TextPopup { field_index: usize, min_height: u16 },
    Dropdown { field_index: usize, option_count: usize },
}

/// The overlay for a form state: the surface's field (or else the selected one)
/// shown as the surface asks, when that field is of the matching kind.
pub open spec fn overlay_for(state: IssueFormState) -> Option<ActiveOverlay> {
    let f = state.form_view();
    let index = match overlay_index(state.surface()) {
        Some(i) => i as nat,
        None => f.selected(),
    };
    if index >= f.field_seq().len() {
        None
    } else {
        let t = f.field_seq()[index as int].field_type;
        match state.surface() {
            IssueFormSurface::TextPopup { .. } => if is_text_type(t) {
                Some(
                    ActiveOverlay::TextPopup {
                        field_index: index as usize,
                        min_height: if t is TextArea {
                            10
                        } else {
                            5
                        },
                    },
                )
            } else {
                None
            },
            IssueFormSurface::Dropdown { .. } => if is_dropdown(t) {
                Some(
                    ActiveOverlay::Dropdown {
                        field_index: index as usize,
                        option_count: options_of(t).len() as usize,
                    },
                )
            } else {
                None
            },
            IssueFormSurface::Form => None,
        }
    }
}

/// Decides what the issue form draws; the drawing itself belongs to the terminal
/// front end.
pub struct IssueFormView;

impl IssueFormView {
    /// The overlay to draw for `state` (see `overlay_for`).
    pub fn active_overlay(state: &IssueFormState) -> (r: Option<ActiveOverlay>)
        ensures
            r == overlay_for(*state),
    {
        let field_index = match state.active_overlay_field_index() {
            Some(i) => i,
            None => state.form().selected_index(),
        };
        let fields = state.form().fields();
        if field_index >= fields.len() {
            return None;
        }
        let field = &fields[field_index];
        match state.active_surface() {
            IssueFormSurface::TextPopup { .. } => match &field.field_type {
                FieldType::Text { .. } => Some(ActiveOverlay::TextPopup { field_index, min_height: 5 }),
                FieldType::TextArea { .. } => Some(ActiveOverlay::TextPopup { field_index, min_height: 10 }),
                _ => None,
            },
            IssueFormSurface::Dropdown { .. } => match &field.field_type {
                FieldType::Select { options, .. } | FieldType::MultiSelect { options, .. } => Some(
                    ActiveOverlay::Dropdown { field_index, option_count: options.len() },
                ),
                _ => None,
            },
            IssueFormSurface::Form => None,
        }
    }
}

} // verus!
