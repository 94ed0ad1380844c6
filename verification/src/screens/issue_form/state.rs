//! The state of the Create Issue / Edit Issue form: its fields, which overlay is
//! active, and what a save submits.

use vstd::prelude::*;
use vstd::string::*;

use crate::form::{
    expanded_of, is_dropdown, CursorState, text_chars, with_expanded, FieldType, FieldValue, FormField, FormState,
    SelectOption,
};
use crate::interaction::FormPurpose;
use crate::model::{AppErrorState, IssueDraft, IssueMutation, IssuePatch};
use crate::text::{is_blank, str_eq, trimmed};

verus! {

/// Which part of the form receives commands.
#[derive(Clone, Copy, Debug, PartialEq, Eq, Structural)]
pub enum IssueFormSurface {
    Form,
    TextPopup { field_index: usize },
    Dropdown { field_index: usize },
}

/// The text of field `i`, when it exists and holds text.
pub open spec fn field_text_of(fields: Seq<FormField>, i: int) -> Option<Seq<char>> {
    if 0 <= i < fields.len() && fields[i].value is Text {
        Some(text_chars(fields[i].value))
    } else {
        None
    }
}

/// The chosen option of field `i`, when it exists and has a single choice.
pub open spec fn field_choice_of(fields: Seq<FormField>, i: int) -> Option<Seq<char>> {
    if 0 <= i < fields.len() && fields[i].value matches FieldValue::Single(Some(s)) {
        Some(fields[i].value->Single_0->0@)
    } else {
        None
    }
}

/// The text of an optional string when present and not blank.
pub open spec fn present_text(s: Option<String>) -> Option<Seq<char>> {
    match s {
        Some(t) => if trimmed(t@).len() == 0 {
            None
        } else {
            Some(t@)
        },
        None => None,
    }
}

/// The form's state: its fields, purpose, initial values, error and active surface.
pub struct IssueFormState {
    form: FormState,
    purpose: FormPurpose,
    project_key: Option<String>,
    initial_summary: String,
    initial_description: String,
    title: String,
    error: Option<AppErrorState>,
    active_surface: IssueFormSurface,
}

/// The labels and options a new form starts with.
pub open spec fn fresh_form(form: FormState, summary: Seq<char>, description: Seq<char>, issue_types: Option<Seq<String>>) -> bool {
    let f = form.field_seq();
    &&& form.selected() == 0
    &&& f.len() == (if issue_types is Some { 3nat } else { 2nat })
    &&& f[0].label@ == "Summary"@
    &&& f[0].field_type == (FieldType::Text { masked: false })
    &&& f[0].required
    &&& f[0].value is Text && text_chars(f[0].value) == summary
    &&& f[0].cursor == (CursorState::Text { position: 0 })
    &&& f[1].label@ == "Description"@
    &&& f[1].field_type == (FieldType::TextArea { rows: 8 })
    &&& !f[1].required
    &&& f[1].value is Text && text_chars(f[1].value) == description
    &&& f[1].cursor == (CursorState::TextArea { row: 0, col: 0 })
    &&& issue_types matches Some(types) ==> {
        &&& f[2].label@ == "Issue Type"@
        &&& f[2].required
        &&& f[2].value == FieldValue::Single(None)
        &&& f[2].cursor == CursorState::Choice
        &&& f[2].field_type matches FieldType::Select { options, expanded, highlighted }
        &&& !expanded && highlighted == 0
        &&& options@.len() == types.len()
        &&& forall|i: int| 0 <= i < types.len() ==> #[trigger] options@[i].value == types[i]
            && options@[i].label == types[i]
    }
}

/// The state of a new form creating an issue in `project_key`, offering
/// `issue_types`: an empty summary and description, no error, the form surface,
/// and the title "Create Issue".
pub open spec fn is_create_state(s: IssueFormState, project_key: Option<String>, issue_types: Seq<String>) -> bool {
    &&& s.purpose_view() == FormPurpose::Create
    &&& s.project_key_view() == project_key
    &&& fresh_form(s.form_view(), Seq::empty(), Seq::empty(), Some(issue_types))
    &&& s.initial_summary_view() == Seq::<char>::empty()
    &&& s.initial_description_view() == Seq::<char>::empty()
    &&& s.error_view() is None
    &&& s.surface() == IssueFormSurface::Form
    &&& s.title_view() == "Create Issue"@
}

/// The state of a new form editing issue `key`: the summary and description
/// filled in, no project, no error, the form surface, and the title
/// "Edit Issue <key>".
pub open spec fn is_edit_state(s: IssueFormState, key: String, summary: Seq<char>, description: Seq<char>) -> bool {
    &&& s.purpose_view() == FormPurpose::Edit(key)
    &&& s.project_key_view() is None
    &&& fresh_form(s.form_view(), summary, description, None)
    &&& s.initial_summary_view() == summary
    &&& s.initial_description_view() == description
    &&& s.error_view() is None
    &&& s.surface() == IssueFormSurface::Form
    &&& s.title_view() == "Edit Issue "@ + key@
}

impl IssueFormState {
    pub closed spec fn form_view(&self) -> FormState {
        self.form
    }

    pub closed spec fn purpose_view(&self) -> FormPurpose {
        self.purpose
    }

    pub closed spec fn project_key_view(&self) -> Option<String> {
        self.project_key
    }

    pub closed spec fn initial_summary_view(&self) -> Seq<char> {
        self.initial_summary@
    }

    pub closed spec fn initial_description_view(&self) -> Seq<char> {
        self.initial_description@
    }

    pub closed spec fn title_view(&self) -> Seq<char> {
        self.title@
    }

    pub closed spec fn error_view(&self) -> Option<AppErrorState> {
        self.error
    }

    pub closed spec fn surface(&self) -> IssueFormSurface {
        self.active_surface
    }

    /// Everything but the form, the error and the surface are equal.
    pub open spec fn same_setup(&self, other: &IssueFormState) -> bool {
        &&& self.purpose_view() == other.purpose_view()
        &&& self.project_key_view() == other.project_key_view()
        &&& self.initial_summary_view() == other.initial_summary_view()
        &&& self.initial_description_view() == other.initial_description_view()
        &&& self.title_view() == other.title_view()
    }

    /// A create form with no project and no issue types.
    pub fn new() -> (r: Self)
        ensures
            r.purpose_view() == FormPurpose::Create,
            r.project_key_view() is None,
            fresh_form(r.form_view(), Seq::empty(), Seq::empty(), Some(Seq::empty())),
            r.error_view() is None,
            r.surface() == IssueFormSurface::Form,
            r.title_view() == "Create Issue"@,
    {
        Self::create(None, Vec::new())
    }

    /// A create form with no project offering the given issue types.
    pub fn with_issue_types(issue_types: Vec<String>) -> (r: Self)
        ensures
            r.purpose_view() == FormPurpose::Create,
            r.project_key_view() is None,
            fresh_form(r.form_view(), Seq::empty(), Seq::empty(), Some(issue_types@)),
            r.error_view() is None,
            r.surface() == IssueFormSurface::Form,
            r.title_view() == "Create Issue"@,
    {
        Self::create(None, issue_types)
    }

    /// A form creating an issue in `project_key`, offering `issue_types`.
    pub fn create(project_key: Option<String>, issue_types: Vec<String>) -> (r: Self)
        ensures
            is_create_state(r, project_key, issue_types@),
            r.purpose_view() == FormPurpose::Create,
            r.project_key_view() == project_key,
            fresh_form(r.form_view(), Seq::empty(), Seq::empty(), Some(issue_types@)),
            r.initial_summary_view() == Seq::<char>::empty(),
            r.initial_description_view() == Seq::<char>::empty(),
            r.error_view() is None,
            r.surface() == IssueFormSurface::Form,
            r.title_view() == "Create Issue"@,
    {
        Self::with_values(FormPurpose::Create, project_key, issue_types, String::new(), String::new())
    }

    /// A form editing the summary and description of issue `key`.
    pub fn edit(key: String, summary: String, description: Option<String>) -> (r: Self)
        ensures
            is_edit_state(
                r,
                key,
                summary@,
                match description {
                    Some(d) => d@,
                    None => Seq::empty(),
                },
            ),
            r.purpose_view() == FormPurpose::Edit(key),
            r.project_key_view() is None,
            fresh_form(
                r.form_view(),
                summary@,
                match description {
                    Some(d) => d@,
                    None => Seq::empty(),
                },
                None,
            ),
            r.initial_summary_view() == summary@,
            r.initial_description_view() == match description {
                Some(d) => d@,
                None => Seq::<char>::empty(),
            },
            r.error_view() is None,
            r.surface() == IssueFormSurface::Form,
            r.title_view() == "Edit Issue "@ + key@,
    {
        let description = match description {
            Some(d) => d,
            None => String::new(),
        };
        Self::with_values(FormPurpose::Edit(key), None, Vec::new(), summary, description)
    }

    fn with_values(
        purpose: FormPurpose,
        project_key: Option<String>,
        issue_types: Vec<String>,
        summary: String,
        description: String,
    ) -> (r: Self)
        ensures
            r.purpose_view() == purpose,
            r.project_key_view() == project_key,
            fresh_form(
                r.form_view(),
                summary@,
                description@,
                if purpose is Create {
                    Some(issue_types@)
                } else {
                    None
                },
            ),
            r.initial_summary_view() == summary@,
            r.initial_description_view() == description@,
            r.error_view() is None,
            r.surface() == IssueFormSurface::Form,
            r.title_view() == match purpose {
                FormPurpose::Create => "Create Issue"@,
                FormPurpose::Edit(key) => "Edit Issue "@ + key@,
            },
    {
        let include_issue_type = match &purpose {
            FormPurpose::Create => true,
            FormPurpose::Edit(_) => false,
        };
        let title = match &purpose {
            FormPurpose::Create => String::from_str("Create Issue"),
            FormPurpose::Edit(key) => {
                let mut t = String::from_str("Edit Issue ");
                t.append(key.as_str());
                t
            },
        };
        let form = Self::create_form(issue_types, summary.as_str(), description.as_str(), include_issue_type);
        IssueFormState {
            form,
            purpose,
            project_key,
            initial_summary: summary,
            initial_description: description,
            title,
            error: None,
            active_surface: IssueFormSurface::Form,
        }
    }

    pub fn set_error(&mut self, error: AppErrorState)
        ensures
            final(self).error_view() == Some(error),
            final(self).form_view() == old(self).form_view(),
            final(self).surface() == old(self).surface(),
            final(self).same_setup(old(self)),
    {
        self.error = Some(error);
    }

    pub fn clear_error(&mut self)
        ensures
            final(self).error_view() is None,
            final(self).form_view() == old(self).form_view(),
            final(self).surface() == old(self).surface(),
            final(self).same_setup(old(self)),
    {
        self.error = None;
    }

    pub fn error(&self) -> (r: Option<&AppErrorState>)
        ensures
            r == match self.error_view() {
                Some(e) => Some(&e),
                None => None,
            },
    {
        match &self.error {
            Some(e) => Some(e),
            None => None,
        }
    }

    pub fn form(&self) -> (r: &FormState)
        ensures
            *r == self.form_view(),
    {
        &self.form
    }

    pub fn form_mut(&mut self) -> (r: &mut FormState)
        ensures
            *r == old(self).form_view(),
            final(self).form_view() == *final(r),
            final(self).error_view() == old(self).error_view(),
            final(self).surface() == old(self).surface(),
            final(self).same_setup(old(self)),
    {
        &mut self.form
    }

    pub fn title(&self) -> (r: &str)
        ensures
            r@ == self.title_view(),
    {
        self.title.as_str()
    }

    /// "Create Issue" or "Edit Issue".
    pub fn screen_name(&self) -> (r: &'static str)
        ensures
            r@ == (if self.purpose_view() is Create {
                "Create Issue"@
            } else {
                "Edit Issue"@
            }),
    {
        match self.purpose {
            FormPurpose::Create => "Create Issue",
            FormPurpose::Edit(_) => "Edit Issue",
        }
    }

    fn field_text(&self, index: usize, label: &str) -> (r: Result<&str, String>)
        ensures
            match field_text_of(self.form_view().field_seq(), index as int) {
                Some(t) => r is Ok && r->Ok_0@ == t,
                None => r is Err && r->Err_0@ == label@ + " field is unavailable"@,
            },
    {
        let fields = self.form.fields();
        if index < fields.len() {
            match fields[index].value.as_text() {
                Some(t) => return Ok(t),
                None => {},
            }
        }
        let mut message = String::from_str(label);
        message.append(" field is unavailable");
        Err(message)
    }

    /// What saving the form submits: an error message when a required value is
    /// missing, nothing when an edit changes nothing, or the mutation to apply.
    pub fn submission(&self) -> (r: Result<Option<IssueMutation>, String>)
        ensures
            submission_matches(*self, r),
    {
        proof {
            reveal_strlit("Summary");
            reveal_strlit("Description");
            reveal_strlit(" field is unavailable");
            reveal_strlit("Summary field is unavailable");
            reveal_strlit("Description field is unavailable");
            assert("Summary"@ + " field is unavailable"@ =~= "Summary field is unavailable"@);
            assert("Description"@ + " field is unavailable"@ =~= "Description field is unavailable"@);
        }
        let summary = match self.field_text(0, "Summary") {
            Ok(s) => s,
            Err(e) => return Err(e),
        };
        let description = match self.field_text(1, "Description") {
            Ok(s) => s,
            Err(e) => return Err(e),
        };
        if is_blank(summary) {
            return Err(String::from_str("Summary is required"));
        }
        match &self.purpose {
            FormPurpose::Create => {
                let project_key = match &self.project_key {
                    Some(key) => {
                        if is_blank(key.as_str()) {
                            return Err(String::from_str("Project key is required"));
                        }
                        key
                    },
                    None => return Err(String::from_str("Project key is required")),
                };
                let fields = self.form.fields();
                let issue_type = if 2 < fields.len() {
                    fields[2].value.as_single()
                } else {
                    None
                };
                let issue_type = match issue_type {
                    Some(t) => {
                        if is_blank(t) {
                            return Err(String::from_str("Issue Type is required"));
                        }
                        t
                    },
                    None => return Err(String::from_str("Issue Type is required")),
                };
                let description = if is_blank(description) {
                    None
                } else {
                    Some(String::from_str(description))
                };
                Ok(
                    Some(
                        IssueMutation::Create(
                            IssueDraft {
                                project_key: project_key.clone(),
                                issue_type: String::from_str(issue_type),
                                summary: String::from_str(summary),
                                description,
                            },
                        ),
                    ),
                )
            },
            FormPurpose::Edit(key) => {
                let patch = IssuePatch {
                    summary: if str_eq(summary, self.initial_summary.as_str()) {
                        None
                    } else {
                        Some(String::from_str(summary))
                    },
                    description: if str_eq(description, self.initial_description.as_str()) {
                        None
                    } else {
                        Some(String::from_str(description))
                    },
                    priority: None,
                };
                if patch.is_empty() {
                    Ok(None)
                } else {
                    Ok(Some(IssueMutation::Patch { key: key.clone(), patch }))
                }
            },
        }
    }

    pub fn active_surface(&self) -> (r: IssueFormSurface)
        ensures
            r == self.surface(),
    {
        self.active_surface
    }

    /// The field an overlay belongs to, if one is open.
    pub fn active_overlay_field_index(&self) -> (r: Option<usize>)
        ensures
            r == overlay_index(self.surface()),
    {
        match self.active_surface {
            IssueFormSurface::Form => None,
            IssueFormSurface::TextPopup { field_index } => Some(field_index),
            IssueFormSurface::Dropdown { field_index } => Some(field_index),
        }
    }

    pub fn is_text_popup_open(&self) -> (r: bool)
        ensures
            r == self.surface() is TextPopup,
    {
        match self.active_surface {
            IssueFormSurface::TextPopup { .. } => true,
            _ => false,
        }
    }

    pub fn is_dropdown_open(&self) -> (r: bool)
        ensures
            r == self.surface() is Dropdown,
    {
        match self.active_surface {
            IssueFormSurface::Dropdown { .. } => true,
            _ => false,
        }
    }

    /// Opens the text pop-up on the selected field.
    pub fn open_text_popup(&mut self)
        ensures
            final(self).surface() == (IssueFormSurface::TextPopup {
                field_index: old(self).form_view().selected() as usize,
            }),
            final(self).form_view() == old(self).form_view(),
            final(self).error_view() == old(self).error_view(),
            final(self).same_setup(old(self)),
    {
        self.active_surface = IssueFormSurface::TextPopup { field_index: self.form.selected_index() };
    }

    /// Closes the text pop-up, if it is open.
    pub fn close_text_popup(&mut self)
        ensures
            final(self).surface() == (if old(self).surface() is TextPopup {
                IssueFormSurface::Form
            } else {
                old(self).surface()
            }),
            final(self).form_view() == old(self).form_view(),
            final(self).error_view() == old(self).error_view(),
            final(self).same_setup(old(self)),
    {
        if self.is_text_popup_open() {
            self.active_surface = IssueFormSurface::Form;
        }
    }

    /// Opens the option list of the selected field when it is a drop-down.
    pub fn open_dropdown(&mut self)
        ensures
            opened_dropdown(*old(self), *final(self)),
            final(self).error_view() == old(self).error_view(),
            final(self).same_setup(old(self)),
    {
        let selected = self.form.selected_index();
        let is_choice = match self.form.selected_field() {
            Some(field) => match &field.field_type {
                FieldType::Select { .. } | FieldType::MultiSelect { .. } => true,
                _ => false,
            },
            None => false,
        };
        if is_choice {
            self.form.set_expanded_at(selected, true);
            self.active_surface = IssueFormSurface::Dropdown { field_index: selected };
        }
    }

    /// Closes the option list of the overlay's field and, when a drop-down is
    /// open, returns to the form.
    pub fn close_dropdown(&mut self)
        ensures
            closed_dropdown(*old(self), *final(self)),
            final(self).error_view() == old(self).error_view(),
            final(self).same_setup(old(self)),
    {
        match self.active_overlay_field_index() {
            Some(index) => self.form.set_expanded_at(index, false),
            None => {},
        }
        if self.is_dropdown_open() {
            self.active_surface = IssueFormSurface::Form;
        }
    }

    /// Closes whichever overlay is open.
    pub fn close_active_overlay(&mut self)
        ensures
            overlay_closed(*old(self), *final(self)),
            final(self).error_view() == old(self).error_view(),
            final(self).same_setup(old(self)),
    {
        match self.active_surface {
            IssueFormSurface::Form => {},
            IssueFormSurface::TextPopup { .. } => self.close_text_popup(),
            IssueFormSurface::Dropdown { .. } => self.close_dropdown(),
        }
    }

    /// The field whose inline content the pop-up replaces.
    pub fn hide_form_content_for(&self) -> (r: Option<usize>)
        ensures
            r == match self.surface() {
                IssueFormSurface::TextPopup { field_index } => Some(field_index),
                _ => None,
            },
    {
        match self.active_surface {
            IssueFormSurface::TextPopup { field_index } => Some(field_index),
            _ => None,
        }
    }

    fn create_form(
        issue_types: Vec<String>,
        summary: &str,
        description: &str,
        include_issue_type: bool,
    ) -> (r: FormState)
        ensures
            fresh_form(
                r,
                summary@,
                description@,
                if include_issue_type {
                    Some(issue_types@)
                } else {
                    None
                },
            ),
    {
        let mut fields: Vec<FormField> = Vec::new();
        fields.push(FormField::text("Summary", false).required().with_value(summary));
        fields.push(FormField::textarea("Description", 8).with_value(description));
        if include_issue_type {
            let mut options: Vec<SelectOption> = Vec::new();
            let mut i: usize = 0;
            while i < issue_types.len()
                invariant
                    i <= issue_types@.len(),
                    options@.len() == i,
                    forall|j: int| 0 <= j < i ==> #[trigger] options@[j].value == issue_types@[j]
                        && options@[j].label == issue_types@[j],
                decreases issue_types@.len() - i,
            {
                options.push(SelectOption::new(issue_types[i].clone(), issue_types[i].clone()));
                i += 1;
            }
            fields.push(FormField::select("Issue Type", options).required());
        }
        FormState::new(fields)
    }
}

/// The field index of an open overlay.
pub open spec fn overlay_index(s: IssueFormSurface) -> Option<usize> {
    match s {
        IssueFormSurface::Form => None,
        IssueFormSurface::TextPopup { field_index } => Some(field_index),
        IssueFormSurface::Dropdown { field_index } => Some(field_index),
    }
}

/// The form with the option list of field `index` opened or closed.
pub open spec fn expanded_at(form: FormState, index: nat, value: bool, after: FormState) -> bool {
    &&& after.selected() == form.selected()
    &&& after.field_seq().len() == form.field_seq().len()
    &&& forall|i: int|
        0 <= i < form.field_seq().len() && i != index ==> #[trigger] after.field_seq()[i]
            == form.field_seq()[i]
    &&& index < form.field_seq().len() ==> after.field_seq()[index as int] == (FormField {
        field_type: with_expanded(form.field_seq()[index as int].field_type, value),
        ..form.field_seq()[index as int]
    })
}

/// `after` opened the selected drop-down, or is `before` when the selected field
/// is not a drop-down.
pub open spec fn opened_dropdown(before: IssueFormState, after: IssueFormState) -> bool {
    let f = before.form_view();
    if f.selected() < f.field_seq().len() && is_dropdown(f.field_seq()[f.selected() as int].field_type) {
        &&& expanded_at(f, f.selected(), true, after.form_view())
        &&& after.surface() == (IssueFormSurface::Dropdown { field_index: f.selected() as usize })
    } else {
        after.form_view() == before.form_view() && after.surface() == before.surface()
    }
}

/// `after` closed the option list of the overlay's field, and left a drop-down
/// surface for the form.
pub open spec fn closed_dropdown(before: IssueFormState, after: IssueFormState) -> bool {
    &&& match overlay_index(before.surface()) {
        Some(i) => expanded_at(before.form_view(), i as nat, false, after.form_view()),
        None => after.form_view() == before.form_view(),
    }
    &&& after.surface() == (if before.surface() is Dropdown {
        IssueFormSurface::Form
    } else {
        before.surface()
    })
}

/// Opening a closed drop-down and closing it again leaves the form as it was,
/// back on the form surface.
pub proof fn lemma_close_undoes_open(before: IssueFormState, mid: IssueFormState, after: IssueFormState)
    requires
        before.surface() == IssueFormSurface::Form,
        before.form_view().selected() < before.form_view().field_seq().len(),
        !expanded_of(before.form_view().field_seq()[before.form_view().selected() as int].field_type),
        opened_dropdown(before, mid),
        closed_dropdown(mid, after),
    ensures
        after.form_view().field_seq() == before.form_view().field_seq(),
        after.form_view().selected() == before.form_view().selected(),
        after.surface() == IssueFormSurface::Form,
{
    let f = before.form_view();
    let i = f.selected() as int;
    let t = f.field_seq()[i].field_type;
    f.lemma_selected_fits();
    if is_dropdown(t) {
        let m = mid.form_view();
        assert(overlay_index(mid.surface()) == Some(f.selected() as usize));
        assert(with_expanded(with_expanded(t, true), false) == t);
        assert(m.field_seq()[i].field_type == with_expanded(t, true));
        assert(after.form_view().field_seq()[i] == f.field_seq()[i]);
        assert(after.form_view().field_seq() =~= f.field_seq());
    }
}

/// `after` closed the overlay open in `before`: the pop-up returns to the form,
/// a drop-down is closed as `closed_dropdown` says, and the form surface stays.
pub open spec fn overlay_closed(before: IssueFormState, after: IssueFormState) -> bool {
    match before.surface() {
        IssueFormSurface::Form => after.form_view() == before.form_view() && after.surface()
            == before.surface(),
        IssueFormSurface::TextPopup { .. } => after.surface() == IssueFormSurface::Form
            && after.form_view() == before.form_view(),
        IssueFormSurface::Dropdown { .. } => closed_dropdown(before, after),
    }
}

/// The form, its surface and its error are those of `before`.
pub open spec fn form_unchanged(before: IssueFormState, after: IssueFormState) -> bool {
    &&& after.form_view() == before.form_view()
    &&& after.surface() == before.surface()
    &&& after.error_view() == before.error_view()
}

/// What `submission` returns for a form state.
pub open spec fn submission_matches(s: IssueFormState, r: Result<Option<IssueMutation>, String>) -> bool {
    let fields = s.form_view().field_seq();
    match field_text_of(fields, 0) {
        None => r is Err && r->Err_0@ == "Summary field is unavailable"@,
        Some(summary) => match field_text_of(fields, 1) {
            None => r is Err && r->Err_0@ == "Description field is unavailable"@,
            Some(description) => if trimmed(summary).len() == 0 {
                r is Err && r->Err_0@ == "Summary is required"@
            } else {
                match s.purpose_view() {
                    FormPurpose::Create => if present_text(s.project_key_view()) is None {
                        r is Err && r->Err_0@ == "Project key is required"@
                    } else if field_choice_of(fields, 2) is None || trimmed(
                        field_choice_of(fields, 2)->0,
                    ).len() == 0 {
                        r is Err && r->Err_0@ == "Issue Type is required"@
                    } else {
                        r matches Ok(Some(IssueMutation::Create(draft))) && {
                            &&& draft.project_key == s.project_key_view()->0
                            &&& draft.issue_type@ == field_choice_of(fields, 2)->0
                            &&& draft.summary@ == summary
                            &&& draft.description matches Some(d) ==> d@ == description
                            &&& (draft.description is None) == (trimmed(description).len() == 0)
                        }
                    },
                    FormPurpose::Edit(key) => {
                        let summary_changed = summary != s.initial_summary_view();
                        let description_changed = description != s.initial_description_view();
                        if !summary_changed && !description_changed {
                            r == Ok::<Option<IssueMutation>, String>(None)
                        } else {
                            r matches Ok(Some(IssueMutation::Patch { key: k, patch })) && {
                                &&& k == key
                                &&& patch.priority is None
                                &&& (patch.summary is Some) == summary_changed
                                &&& patch.summary matches Some(v) ==> v@ == summary
                                &&& (patch.description is Some) == description_changed
                                &&& patch.description matches Some(v) ==> v@ == description
                            }
                        }
                    },
                }
            },
        },
    }
}

} // verus!
