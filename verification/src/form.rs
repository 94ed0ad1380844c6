//! A form of labelled fields: single-line and multi-line text with a cursor,
//! and drop-down selections, edited with vim-like motions.

use vstd::prelude::*;
use vstd::string::*;

use crate::interaction::{ActionId, InsertMode};

use crate::text::{
    apply_edit, byte_len, byte_offset, char_index_at_byte, chars_of, clamp_usize, col_bytes,
    column_of, edit_result, index_at_byte, index_in_line, is_blank, line_start_row, row_at,
    row_of, start_of_row, string_of, trimmed, TextEdit, index_at_column,
};

verus! {

/// One choice of a drop-down field.
#[derive(Clone, Debug, PartialEq, Eq)]
pub struct SelectOption {
    pub value: String,
    pub label: String,
}

impl SelectOption {
    pub fn new(value: String, label: String) -> (r: Self)
        ensures
            r.value == value,
            r.label == label,
    {
        SelectOption { value, label }
    }
}

/// The kind of a field, with the state of its drop-down where it has one.
#[derive(Clone, Debug, PartialEq, Eq)]
pub enum FieldType {
    /// A single line of text; `masked` text is shown as asterisks.
    Text { masked: bool },
    /// Several lines of text, shown `rows` rows high.
    TextArea { rows: usize },
    /// One choice out of `options`; `highlighted` is the option under the cursor
    /// while the list is `expanded`.
    Select { options: Vec<SelectOption>, expanded: bool, highlighted: usize },
    /// Any number of choices out of `options`.
    MultiSelect { options: Vec<SelectOption>, expanded: bool, highlighted: usize },
}

impl FieldType {
    /// True for a drop-down whose option list is open.
    pub fn is_expanded(&self) -> (r: bool)
        ensures
            r == expanded_of(*self),
    {
        match self {
            FieldType::Select { expanded, .. } => *expanded,
            FieldType::MultiSelect { expanded, .. } => *expanded,
            _ => false,
        }
    }

    /// Opens or closes the option list of a drop-down; other fields are unchanged.
    pub fn set_expanded(&mut self, value: bool)
        ensures
            *final(self) == with_expanded(*old(self), value),
    {
        match self {
            FieldType::Select { expanded, .. } => {
                *expanded = value;
            },
            FieldType::MultiSelect { expanded, .. } => {
                *expanded = value;
            },
            _ => {},
        }
    }
}

/// Whether a field type is an open drop-down.
pub open spec fn expanded_of(t: FieldType) -> bool {
    match t {
        FieldType::Select { expanded, .. } => expanded,
        FieldType::MultiSelect { expanded, .. } => expanded,
        _ => false,
    }
}

/// A field type with its drop-down opened or closed.
pub open spec fn with_expanded(t: FieldType, value: bool) -> FieldType {
    match t {
        FieldType::Select { options, highlighted, .. } => FieldType::Select {
            options,
            expanded: value,
            highlighted,
        },
        FieldType::MultiSelect { options, highlighted, .. } => FieldType::MultiSelect {
            options,
            expanded: value,
            highlighted,
        },
        _ => t,
    }
}

/// Whether a field type holds text.
pub open spec fn is_text_type(t: FieldType) -> bool {
    t is Text || t is TextArea
}

/// The value a field holds.
#[derive(Clone, Debug, PartialEq, Eq)]
pub enum FieldValue {
    Text(String),
    Single(Option<String>),
    Multiple(Vec<String>),
}

/// The text of a value, empty for a non-text value.
pub open spec fn text_chars(v: FieldValue) -> Seq<char> {
    match v {
        FieldValue::Text(s) => s@,
        _ => Seq::empty(),
    }
}

impl FieldValue {
    /// The text of a text value.
    pub fn as_text(&self) -> (r: Option<&str>)
        ensures
            match *self {
                FieldValue::Text(s) => r is Some && r->0@ == s@,
                _ => r is None,
            },
    {
        match self {
            FieldValue::Text(s) => Some(s.as_str()),
            _ => None,
        }
    }

    /// The text of a text value, for editing in place.
    pub fn as_text_mut(&mut self) -> (r: Option<&mut String>)
        ensures
            (r is Some) == (*old(self) is Text),
            *old(self) is Text ==> *r->0 == old(self)->Text_0 && *final(self) == FieldValue::Text(*final(r->0)),
            !(*old(self) is Text) ==> *final(self) == *old(self),
    {
        match self {
            FieldValue::Text(s) => Some(s),
            _ => None,
        }
    }

    /// The chosen option of a single-choice value.
    pub fn as_single(&self) -> (r: Option<&str>)
        ensures
            match *self {
                FieldValue::Single(Some(s)) => r is Some && r->0@ == s@,
                _ => r is None,
            },
    {
        match self {
            FieldValue::Single(Some(s)) => Some(s.as_str()),
            _ => None,
        }
    }

    /// The chosen options of a multiple-choice value.
    pub fn as_multiple(&self) -> (r: Option<&[String]>)
        ensures
            match *self {
                FieldValue::Multiple(v) => r is Some && r->0@ == v@,
                _ => r is None,
            },
    {
        match self {
            FieldValue::Multiple(v) => Some(v.as_slice()),
            _ => None,
        }
    }
}

/// Where the cursor of a field is: a byte offset in a single line, or a row and
/// a byte column in several lines.
#[derive(Clone, Copy, Debug, PartialEq, Eq)]
pub enum CursorState {
    Text { position: usize },
    TextArea { row: usize, col: usize },
    Choice,
}

/// Why a field's value is not acceptable.
#[derive(Clone, Debug, PartialEq, Eq)]
pub struct ValidationError {
    pub message: String,
}

/// A labelled field of a form.
#[derive(Clone, Debug, PartialEq, Eq)]
pub struct FormField {
    pub label: String,
    pub field_type: FieldType,
    pub value: FieldValue,
    pub cursor: CursorState,
    pub required: bool,
}

/// The character index a field's cursor designates in its text.
pub open spec fn cursor_index(f: FormField) -> nat {
    cursor_index_in(f.cursor, text_chars(f.value))
}

/// The cursor state that designates character index `k` for a field of type `t`.
pub open spec fn cursor_state_for(t: FieldType, cs: Seq<char>, k: nat) -> CursorState {
    if t is TextArea {
        CursorState::TextArea {
            row: clamp_usize(row_of(cs, k)) as usize,
            col: clamp_usize(col_bytes(cs, k)) as usize,
        }
    } else {
        CursorState::Text { position: clamp_usize(byte_len(cs.take(k as int))) as usize }
    }
}

/// Whether text edits apply to a field.
pub open spec fn is_editable(f: FormField) -> bool {
    is_text_type(f.field_type) && f.value is Text
}

/// `after` is `before` with `edit` applied at its cursor, or unchanged when the
/// field does not hold text.
pub open spec fn field_after_edit(before: FormField, edit: TextEdit, after: FormField) -> bool {
    if is_editable(before) {
        let r = edit_result(
            text_chars(before.value),
            cursor_index(before),
            edit,
            before.field_type is TextArea,
        );
        &&& after.label == before.label
        &&& after.field_type == before.field_type
        &&& after.required == before.required
        &&& after.value is Text
        &&& text_chars(after.value) == r.0
        &&& after.cursor == cursor_state_for(before.field_type, r.0, r.1)
    } else {
        after == before
    }
}

/// Whether a value counts as empty for a required field.
pub open spec fn value_is_blank(v: FieldValue) -> bool {
    match v {
        FieldValue::Text(s) => trimmed(s@).len() == 0,
        FieldValue::Single(None) => true,
        FieldValue::Single(Some(s)) => trimmed(s@).len() == 0,
        FieldValue::Multiple(items) => items.len() == 0,
    }
}

impl FormField {
    fn with_parts(label: &str, field_type: FieldType, value: FieldValue, cursor: CursorState) -> (r: Self)
        ensures
            r.label@ == label@,
            r.field_type == field_type,
            r.value == value,
            r.cursor == cursor,
            !r.required,
    {
        FormField { label: String::from_str(label), field_type, value, cursor, required: false }
    }

    /// An empty single-line text field.
    pub fn text(label: &str, masked: bool) -> (r: Self)
        ensures
            r.label@ == label@,
            r.field_type == (FieldType::Text { masked }),
            r.value is Text && text_chars(r.value).len() == 0,
            r.cursor == (CursorState::Text { position: 0 }),
            !r.required,
    {
        Self::with_parts(
            label,
            FieldType::Text { masked },
            FieldValue::Text(String::new()),
            CursorState::Text { position: 0 },
        )
    }

    /// An empty multi-line text field shown `rows` rows high.
    pub fn textarea(label: &str, rows: usize) -> (r: Self)
        ensures
            r.label@ == label@,
            r.field_type == (FieldType::TextArea { rows }),
            r.value is Text && text_chars(r.value).len() == 0,
            r.cursor == (CursorState::TextArea { row: 0, col: 0 }),
            !r.required,
    {
        Self::with_parts(
            label,
            FieldType::TextArea { rows },
            FieldValue::Text(String::new()),
            CursorState::TextArea { row: 0, col: 0 },
        )
    }

    /// A closed single-choice drop-down with nothing chosen.
    pub fn select(label: &str, options: Vec<SelectOption>) -> (r: Self)
        ensures
            r.label@ == label@,
            r.field_type == (FieldType::Select { options, expanded: false, highlighted: 0 }),
            r.value == FieldValue::Single(None),
            r.cursor == CursorState::Choice,
            !r.required,
    {
        Self::with_parts(
            label,
            FieldType::Select { options, expanded: false, highlighted: 0 },
            FieldValue::Single(None),
            CursorState::Choice,
        )
    }

    /// A closed multiple-choice drop-down with nothing chosen.
    pub fn multi_select(label: &str, options: Vec<SelectOption>) -> (r: Self)
        ensures
            r.label@ == label@,
            r.field_type == (FieldType::MultiSelect { options, expanded: false, highlighted: 0 }),
            r.value is Multiple && r.value->Multiple_0@.len() == 0,
            r.cursor == CursorState::Choice,
            !r.required,
    {
        Self::with_parts(
            label,
            FieldType::MultiSelect { options, expanded: false, highlighted: 0 },
            FieldValue::Multiple(Vec::new()),
            CursorState::Choice,
        )
    }

    /// The same field, marked as required.
    pub fn required(self) -> (r: Self)
        ensures
            r == (FormField { required: true, ..self }),
    {
        FormField { required: true, ..self }
    }

    /// The same field holding `value` as its text; the cursor stays where it was.
    pub fn with_value(self, value: &str) -> (r: Self)
        ensures
            r.label == self.label,
            r.field_type == self.field_type,
            r.cursor == self.cursor,
            r.required == self.required,
            r.value is Text && text_chars(r.value) == value@,
    {
        FormField { value: FieldValue::Text(String::from_str(value)), ..self }
    }

    /// A required field that is left blank (only white space, nothing chosen)
    /// reports "<label> is required".
    pub fn validate(&self) -> (r: Option<ValidationError>)
        ensures
            r is Some == (self.required && value_is_blank(self.value)),
            r is Some ==> r->0.message@ == self.label@ + " is required"@,
    {
        if !self.required {
            return None;
        }
        let blank = match &self.value {
            FieldValue::Text(s) => is_blank(s.as_str()),
            FieldValue::Single(None) => true,
            FieldValue::Single(Some(s)) => is_blank(s.as_str()),
            FieldValue::Multiple(items) => items.len() == 0,
        };
        if blank {
            let mut message = self.label.clone();
            message.append(" is required");
            Some(ValidationError { message })
        } else {
            None
        }
    }
}

/// Reads the character index of a cursor state in the text `cs`.
fn read_cursor(cursor: CursorState, cs: &Vec<char>) -> (r: usize)
    ensures
        r == cursor_index_in(cursor, cs@),
        r <= cs@.len(),
{
    match cursor {
        CursorState::Text { position } => char_index_at_byte(cs.as_slice(), position),
        CursorState::TextArea { row, col } => {
            let start = start_of_row(cs.as_slice(), row);
            index_at_column(cs.as_slice(), start, col)
        },
        CursorState::Choice => 0,
    }
}

/// The cursor state designating index `k` in `cs` for a field of type `t`.
fn write_cursor(t: &FieldType, cs: &Vec<char>, k: usize) -> (r: CursorState)
    requires
        k <= cs@.len(),
    ensures
        r == cursor_state_for(*t, cs@, k as nat),
{
    match t {
        FieldType::TextArea { .. } => {
            let row = row_at(cs.as_slice(), k);
            let col = column_of(cs.as_slice(), k);
            CursorState::TextArea { row, col }
        },
        _ => CursorState::Text { position: byte_offset(cs.as_slice(), k) },
    }
}

/// The cursor movement entering insert mode performs.
pub open spec fn insert_edit(m: InsertMode) -> Option<TextEdit> {
    match m {
        InsertMode::Before => None,
        InsertMode::After => Some(TextEdit::AfterCursor),
        InsertMode::LineStart => Some(TextEdit::LineStart),
        InsertMode::LineEnd => Some(TextEdit::LineEnd),
    }
}

/// The cursor motion an action performs on the form surface.
pub open spec fn form_motion(action: ActionId, n: usize) -> Option<TextEdit> {
    match action {
        ActionId::MoveLeft => Some(TextEdit::Left(n)),
        ActionId::MoveRight => Some(TextEdit::Right(n)),
        ActionId::MoveLineStart => Some(TextEdit::LineStart),
        ActionId::MoveLineEnd => Some(TextEdit::LineEnd),
        ActionId::MoveWordForward => Some(TextEdit::WordForward(n)),
        ActionId::MoveWordBackward => Some(TextEdit::WordBackward(n)),
        ActionId::MoveWordEnd => Some(TextEdit::WordEnd(n)),
        _ => None,
    }
}

/// `after` is `before` with `edit` applied, or `before` itself when there is no
/// edit.
pub open spec fn form_edited(before: FormState, edit: Option<TextEdit>, after: FormState) -> bool {
    match edit {
        Some(e) => form_after_edit(before, e, after),
        None => after == before,
    }
}

/// The field selected after moving to the next one, wrapping to the first.
pub open spec fn next_selected(sel: nat, len: nat) -> nat {
    if sel + 1 < len {
        sel + 1
    } else {
        0
    }
}

/// The field selected after moving to the previous one, wrapping to the last.
pub open spec fn prev_selected(sel: nat, len: nat) -> nat {
    if len == 0 {
        0
    } else if sel == 0 {
        (len - 1) as nat
    } else {
        (sel - 1) as nat
    }
}

/// The field selected after `n` moves to the next one.
pub open spec fn next_selected_by(sel: nat, len: nat, n: nat) -> nat
    decreases n,
{
    if n == 0 {
        sel
    } else {
        next_selected(next_selected_by(sel, len, (n - 1) as nat), len)
    }
}

/// The field selected after `n` moves to the previous one.
pub open spec fn prev_selected_by(sel: nat, len: nat, n: nat) -> nat
    decreases n,
{
    if n == 0 {
        sel
    } else {
        prev_selected(prev_selected_by(sel, len, (n - 1) as nat), len)
    }
}

/// The highlighted option after `n` highlight movements.
pub open spec fn moved_highlight_by(h: nat, count: nat, m: HighlightMove, n: nat) -> nat
    decreases n,
{
    if n == 0 {
        h
    } else {
        moved_highlight(moved_highlight_by(h, count, m, (n - 1) as nat), count, m)
    }
}

/// A field with its drop-down highlight moved `n` times (a text field is unchanged).
pub open spec fn highlighted_by(f: FormField, m: HighlightMove, n: nat) -> FormField {
    if is_dropdown(f.field_type) {
        FormField {
            field_type: with_highlighted(
                f.field_type,
                moved_highlight_by(highlighted_of(f.field_type), options_of(f.field_type).len(), m, n),
            ),
            ..f
        }
    } else {
        f
    }
}

/// Moving to the next field as many times as there are fields comes back to
/// the field one started from: the selection wraps around.
pub proof fn lemma_next_selected_cycles(sel: nat, len: nat)
    requires
        sel < len,
    ensures
        next_selected_by(sel, len, len) == sel,
{
    lemma_next_selected_by_mod(sel, len, len);
    assert(((sel + len) as int) % (len as int) == sel) by {
        vstd::arithmetic::div_mod::lemma_mod_add_multiples_vanish(sel as int, len as int);
        vstd::arithmetic::div_mod::lemma_small_mod(sel, len);
    }
}

/// `n` moves to the next field select the field `n` places on, counting round.
pub proof fn lemma_next_selected_by_mod(sel: nat, len: nat, n: nat)
    requires
        sel < len,
    ensures
        next_selected_by(sel, len, n) == ((sel + n) as int) % (len as int),
    decreases n,
{
    if n == 0 {
        vstd::arithmetic::div_mod::lemma_small_mod(sel, len);
    } else {
        lemma_next_selected_by_mod(sel, len, (n - 1) as nat);
        let x = (sel + n - 1) as int;
        let m = len as int;
        let q = x / m;
        let p = x % m;
        vstd::arithmetic::div_mod::lemma_mod_bound(x, m);
        assert(x == q * m + p) by {
            vstd::arithmetic::div_mod::lemma_fundamental_div_mod(x, m);
            vstd::arithmetic::mul::lemma_mul_is_commutative(q, m);
        }
        if p + 1 < m {
            vstd::arithmetic::div_mod::lemma_fundamental_div_mod_converse(x + 1, m, q, p + 1);
        } else {
            assert(x + 1 == (q + 1) * m + 0) by {
                vstd::arithmetic::mul::lemma_mul_is_distributive_add_other_way(m, q, 1);
            }
            vstd::arithmetic::div_mod::lemma_fundamental_div_mod_converse(x + 1, m, q + 1, 0);
        }
    }
}

/// Moving to the previous field undoes moving to the next one.
pub proof fn lemma_prev_undoes_next(sel: nat, len: nat)
    requires
        sel < len,
    ensures
        prev_selected(next_selected(sel, len), len) == sel,
{
}

/// `after` is `before` with the selected field (if any) replaced by `field`.
pub open spec fn selected_replaced(before: FormState, after: FormState, field: FormField) -> bool {
    &&& after.selected() == before.selected()
    &&& after.field_seq().len() == before.field_seq().len()
    &&& forall|i: int|
        0 <= i < before.field_seq().len() && i != before.selected() ==> #[trigger] after.field_seq()[i]
            == before.field_seq()[i]
    &&& before.selected() < before.field_seq().len() ==> after.field_seq()[before.selected() as int]
        == field
}

/// `after` is `before` with the highlighted option of the selected drop-down
/// chosen (see `field_after_choice`).
pub open spec fn form_after_choice(before: FormState, after: FormState) -> bool {
    &&& after.selected() == before.selected()
    &&& after.field_seq().len() == before.field_seq().len()
    &&& forall|i: int|
        0 <= i < before.field_seq().len() && i != before.selected() ==> #[trigger] after.field_seq()[i]
            == before.field_seq()[i]
    &&& before.selected() < before.field_seq().len() ==> field_after_choice(
        before.field_seq()[before.selected() as int],
        after.field_seq()[before.selected() as int],
    )
}

/// The fields of a form and which one is selected.
pub struct FormState {
    fields: Vec<FormField>,
    selected_index: usize,
}

/// `after` is `before` with `edit` applied to the selected field (nothing changes
/// when no field is selected or the selected field holds no text).
pub open spec fn form_after_edit(before: FormState, edit: TextEdit, after: FormState) -> bool {
    &&& after.selected() == before.selected()
    &&& after.field_seq().len() == before.field_seq().len()
    &&& forall|i: int|
        0 <= i < before.field_seq().len() && i != before.selected() ==> #[trigger] after.field_seq()[i]
            == before.field_seq()[i]
    &&& before.selected() < before.field_seq().len() ==> field_after_edit(
        before.field_seq()[before.selected() as int],
        edit,
        after.field_seq()[before.selected() as int],
    )
}

impl FormState {
    pub closed spec fn field_seq(&self) -> Seq<FormField> {
        self.fields@
    }

    pub closed spec fn selected(&self) -> nat {
        self.selected_index as nat
    }

    /// The selection is a machine index.
    pub proof fn lemma_selected_fits(&self)
        ensures
            self.selected() <= usize::MAX,
    {
    }

    /// A form over `fields` with the first one selected.
    pub fn new(fields: Vec<FormField>) -> (r: Self)
        ensures
            r.field_seq() == fields@,
            r.selected() == 0,
    {
        FormState { fields, selected_index: 0 }
    }

    pub fn fields(&self) -> (r: &[FormField])
        ensures
            r@ == self.field_seq(),
    {
        self.fields.as_slice()
    }

    pub fn fields_mut(&mut self) -> (r: &mut Vec<FormField>)
        ensures
            r@ == old(self).field_seq(),
            final(self).field_seq() == final(r)@,
            final(self).selected() == old(self).selected(),
    {
        &mut self.fields
    }

    pub fn selected_index(&self) -> (r: usize)
        ensures
            r == self.selected(),
    {
        self.selected_index
    }

    /// The selected field, if the selection designates one.
    pub fn selected_field(&self) -> (r: Option<&FormField>)
        ensures
            r == (if self.selected() < self.field_seq().len() {
                Some(&self.field_seq()[self.selected() as int])
            } else {
                None
            }),
    {
        if self.selected_index < self.fields.len() {
            Some(&self.fields[self.selected_index])
        } else {
            None
        }
    }

    /// Selects the next field, wrapping from the last to the first.
    pub fn move_next(&mut self)
        ensures
            final(self).field_seq() == old(self).field_seq(),
            final(self).selected() == next_selected(old(self).selected(), old(self).field_seq().len()),
    {
        if self.selected_index < self.fields.len() && self.selected_index + 1 < self.fields.len() {
            self.selected_index = self.selected_index + 1;
        } else {
            self.selected_index = 0;
        }
    }

    /// Selects the previous field, wrapping from the first to the last.
    pub fn move_prev(&mut self)
        ensures
            final(self).field_seq() == old(self).field_seq(),
            final(self).selected() == prev_selected(old(self).selected(), old(self).field_seq().len()),
    {
        if self.fields.len() == 0 {
            self.selected_index = 0;
        } else if self.selected_index == 0 {
            self.selected_index = self.fields.len() - 1;
        } else {
            self.selected_index = self.selected_index - 1;
        }
    }

    /// Selects the first field.
    pub fn move_top(&mut self)
        ensures
            final(self).field_seq() == old(self).field_seq(),
            final(self).selected() == 0,
    {
        self.selected_index = 0;
    }

    /// Selects the last field, if there is one.
    pub fn move_bottom(&mut self)
        ensures
            final(self).field_seq() == old(self).field_seq(),
            final(self).selected() == (if old(self).field_seq().len() == 0 {
                old(self).selected()
            } else {
                (old(self).field_seq().len() - 1) as nat
            }),
    {
        if self.fields.len() > 0 {
            self.selected_index = self.fields.len() - 1;
        }
    }

    /// Opens or closes the option list of the field at `index`.
    pub fn set_expanded_at(&mut self, index: usize, value: bool)
        ensures
            final(self).selected() == old(self).selected(),
            final(self).field_seq().len() == old(self).field_seq().len(),
            forall|i: int|
                0 <= i < old(self).field_seq().len() && i != index ==> #[trigger] final(self).field_seq()[i]
                    == old(self).field_seq()[i],
            index < old(self).field_seq().len() ==> final(self).field_seq()[index as int] == (FormField {
                field_type: with_expanded(old(self).field_seq()[index as int].field_type, value),
                ..old(self).field_seq()[index as int]
            }),
    {
        if index < self.fields.len() {
            self.fields[index].field_type.set_expanded(value);
        }
    }

    /// Opens or closes the option list of the selected drop-down.
    pub fn toggle_dropdown(&mut self)
        ensures
            final(self).selected() == old(self).selected(),
            final(self).field_seq().len() == old(self).field_seq().len(),
            forall|i: int|
                0 <= i < old(self).field_seq().len() && i != old(self).selected() ==> #[trigger] final(self).field_seq()[i]
                    == old(self).field_seq()[i],
            old(self).selected() < old(self).field_seq().len() ==> final(self).field_seq()[old(self).selected() as int] == (FormField {
                field_type: with_expanded(
                    old(self).field_seq()[old(self).selected() as int].field_type,
                    !expanded_of(old(self).field_seq()[old(self).selected() as int].field_type),
                ),
                ..old(self).field_seq()[old(self).selected() as int]
            }),
    {
        if self.selected_index < self.fields.len() {
            let idx = self.selected_index;
            let open = self.fields[idx].field_type.is_expanded();
            self.fields[idx].field_type.set_expanded(!open);
        }
    }

    fn move_highlight(&mut self, m: HighlightMove)
        ensures
            final(self).selected() == old(self).selected(),
            final(self).field_seq().len() == old(self).field_seq().len(),
            forall|i: int|
                0 <= i < old(self).field_seq().len() && i != old(self).selected() ==> #[trigger] final(self).field_seq()[i]
                    == old(self).field_seq()[i],
            old(self).selected() < old(self).field_seq().len() ==> field_after_highlight(
                old(self).field_seq()[old(self).selected() as int],
                m,
                final(self).field_seq()[old(self).selected() as int],
            ),
    {
        if self.selected_index >= self.fields.len() {
            return;
        }
        let idx = self.selected_index;
        match &mut self.fields[idx].field_type {
            FieldType::Select { options, highlighted, .. } => {
                *highlighted = next_highlight(*highlighted, options.len(), m);
            },
            FieldType::MultiSelect { options, highlighted, .. } => {
                *highlighted = next_highlight(*highlighted, options.len(), m);
            },
            _ => {},
        }
    }

    /// Highlights the previous option of the selected drop-down.
    pub fn move_selection_up(&mut self)
        ensures
            final(self).selected() == old(self).selected(),
            final(self).field_seq().len() == old(self).field_seq().len(),
            forall|i: int|
                0 <= i < old(self).field_seq().len() && i != old(self).selected() ==> #[trigger] final(self).field_seq()[i]
                    == old(self).field_seq()[i],
            old(self).selected() < old(self).field_seq().len() ==> field_after_highlight(
                old(self).field_seq()[old(self).selected() as int],
                HighlightMove::Up,
                final(self).field_seq()[old(self).selected() as int],
            ),
    {
        self.move_highlight(HighlightMove::Up);
    }

    /// Highlights the next option of the selected drop-down.
    pub fn move_selection_down(&mut self)
        ensures
            final(self).selected() == old(self).selected(),
            final(self).field_seq().len() == old(self).field_seq().len(),
            forall|i: int|
                0 <= i < old(self).field_seq().len() && i != old(self).selected() ==> #[trigger] final(self).field_seq()[i]
                    == old(self).field_seq()[i],
            old(self).selected() < old(self).field_seq().len() ==> field_after_highlight(
                old(self).field_seq()[old(self).selected() as int],
                HighlightMove::Down,
                final(self).field_seq()[old(self).selected() as int],
            ),
    {
        self.move_highlight(HighlightMove::Down);
    }

    /// Highlights the first option of the selected drop-down.
    pub fn move_selection_top(&mut self)
        ensures
            final(self).selected() == old(self).selected(),
            final(self).field_seq().len() == old(self).field_seq().len(),
            forall|i: int|
                0 <= i < old(self).field_seq().len() && i != old(self).selected() ==> #[trigger] final(self).field_seq()[i]
                    == old(self).field_seq()[i],
            old(self).selected() < old(self).field_seq().len() ==> field_after_highlight(
                old(self).field_seq()[old(self).selected() as int],
                HighlightMove::Top,
                final(self).field_seq()[old(self).selected() as int],
            ),
    {
        self.move_highlight(HighlightMove::Top);
    }

    /// Highlights the last option of the selected drop-down.
    pub fn move_selection_bottom(&mut self)
        ensures
            final(self).selected() == old(self).selected(),
            final(self).field_seq().len() == old(self).field_seq().len(),
            forall|i: int|
                0 <= i < old(self).field_seq().len() && i != old(self).selected() ==> #[trigger] final(self).field_seq()[i]
                    == old(self).field_seq()[i],
            old(self).selected() < old(self).field_seq().len() ==> field_after_highlight(
                old(self).field_seq()[old(self).selected() as int],
                HighlightMove::Bottom,
                final(self).field_seq()[old(self).selected() as int],
            ),
    {
        self.move_highlight(HighlightMove::Bottom);
    }

    /// Chooses the highlighted option of the selected drop-down (see
    /// `field_after_choice`).
    pub fn select_option(&mut self)
        ensures
            form_after_choice(*old(self), *final(self)),
    {
        if self.selected_index >= self.fields.len() {
            return;
        }
        let idx = self.selected_index;
        let ghost before = self.fields@[idx as int];
        let (chosen, single) = match &self.fields[idx].field_type {
            FieldType::Select { options, highlighted, .. } => {
                if *highlighted < options.len() {
                    (Some(options[*highlighted].value.clone()), true)
                } else {
                    (None, true)
                }
            },
            FieldType::MultiSelect { options, highlighted, .. } => {
                if *highlighted < options.len() {
                    (Some(options[*highlighted].value.clone()), false)
                } else {
                    (None, false)
                }
            },
            _ => (None, true),
        };
        assert(chosen is Some <==> (is_dropdown(before.field_type) && highlighted_of(before.field_type)
            < options_of(before.field_type).len()));
        assert(chosen is Some ==> chosen->0 == options_of(before.field_type)[highlighted_of(
            before.field_type,
        ) as int].value);
        assert(is_dropdown(before.field_type) ==> (single <==> before.field_type is Select));
        let Some(v) = chosen else {
            return;
        };
        if single {
            self.fields[idx].value = FieldValue::Single(Some(v));
        } else {
            let items = match &self.fields[idx].value {
                FieldValue::Multiple(items) => toggle_item(items, v),
                _ => {
                    let empty: Vec<String> = Vec::new();
                    assert(texts(empty@) =~= Seq::<Seq<char>>::empty());
                    toggle_item(&empty, v)
                },
            };
            self.fields[idx].value = FieldValue::Multiple(items);
        }
    }

    /// Moves the cursor left `n` characters within the line.
    pub fn move_cursor_left(&mut self, n: usize)
        ensures
            form_after_edit(*old(self), TextEdit::Left(n), *final(self)),
    {
        self.edit_selected(TextEdit::Left(n));
    }

    /// Moves the cursor right `n` characters within the line.
    pub fn move_cursor_right(&mut self, n: usize)
        ensures
            form_after_edit(*old(self), TextEdit::Right(n), *final(self)),
    {
        self.edit_selected(TextEdit::Right(n));
    }

    /// Moves the cursor up `n` rows.
    pub fn move_cursor_up(&mut self, n: usize)
        ensures
            form_after_edit(*old(self), TextEdit::Up(n), *final(self)),
    {
        self.edit_selected(TextEdit::Up(n));
    }

    /// Moves the cursor down `n` rows.
    pub fn move_cursor_down(&mut self, n: usize)
        ensures
            form_after_edit(*old(self), TextEdit::Down(n), *final(self)),
    {
        self.edit_selected(TextEdit::Down(n));
    }

    /// Moves the cursor to the start of its line.
    pub fn move_cursor_line_start(&mut self)
        ensures
            form_after_edit(*old(self), TextEdit::LineStart, *final(self)),
    {
        self.edit_selected(TextEdit::LineStart);
    }

    /// Moves the cursor to the end of its line.
    pub fn move_cursor_line_end(&mut self)
        ensures
            form_after_edit(*old(self), TextEdit::LineEnd, *final(self)),
    {
        self.edit_selected(TextEdit::LineEnd);
    }

    /// Moves the cursor to the start of the `n`-th next word.
    pub fn move_word_right(&mut self, n: usize)
        ensures
            form_after_edit(*old(self), TextEdit::WordForward(n), *final(self)),
    {
        self.edit_selected(TextEdit::WordForward(n));
    }

    /// Moves the cursor to the start of the `n`-th previous word.
    pub fn move_word_left(&mut self, n: usize)
        ensures
            form_after_edit(*old(self), TextEdit::WordBackward(n), *final(self)),
    {
        self.edit_selected(TextEdit::WordBackward(n));
    }

    /// Moves the cursor to the end of the `n`-th word.
    pub fn move_word_end(&mut self, n: usize)
        ensures
            form_after_edit(*old(self), TextEdit::WordEnd(n), *final(self)),
    {
        self.edit_selected(TextEdit::WordEnd(n));
    }

    /// Insert mode before the cursor: the cursor stays.
    pub fn enter_insert_before(&mut self)
        ensures
            *final(self) == *old(self),
    {
    }

    /// Insert mode after the cursor: one character right within the line.
    pub fn enter_insert_after(&mut self)
        ensures
            form_after_edit(*old(self), TextEdit::AfterCursor, *final(self)),
    {
        self.edit_selected(TextEdit::AfterCursor);
    }

    /// Insert mode at the start of the line.
    pub fn enter_insert_line_start(&mut self)
        ensures
            form_after_edit(*old(self), TextEdit::LineStart, *final(self)),
    {
        self.edit_selected(TextEdit::LineStart);
    }

    /// Insert mode at the end of the line.
    pub fn enter_insert_line_end(&mut self)
        ensures
            form_after_edit(*old(self), TextEdit::LineEnd, *final(self)),
    {
        self.edit_selected(TextEdit::LineEnd);
    }

    /// Inserts `c` at the cursor (a newline only in a multi-line field).
    pub fn insert_char(&mut self, c: char)
        ensures
            form_after_edit(*old(self), TextEdit::Insert(c), *final(self)),
    {
        self.edit_selected(TextEdit::Insert(c));
    }

    /// Deletes the character before the cursor.
    pub fn backspace(&mut self)
        ensures
            form_after_edit(*old(self), TextEdit::Backspace, *final(self)),
    {
        self.edit_selected(TextEdit::Backspace);
    }

    /// Deletes the character under the cursor.
    pub fn delete(&mut self)
        ensures
            form_after_edit(*old(self), TextEdit::Delete, *final(self)),
    {
        self.edit_selected(TextEdit::Delete);
    }

    /// Applies a text edit to the selected field (see `field_after_edit`).
    pub fn edit_selected(&mut self, edit: TextEdit)
        ensures
            form_after_edit(*old(self), edit, *final(self)),
    {
        if self.selected_index >= self.fields.len() {
            return;
        }
        let idx = self.selected_index;
        let multiline = match &self.fields[idx].field_type {
            FieldType::TextArea { .. } => true,
            _ => false,
        };
        let editable = match &self.fields[idx].field_type {
            FieldType::Text { .. } | FieldType::TextArea { .. } => true,
            _ => false,
        };
        if !editable {
            return;
        }
        let cs = match &self.fields[idx].value {
            FieldValue::Text(s) => chars_of(s.as_str()),
            _ => {
                return;
            },
        };
        let k = read_cursor(self.fields[idx].cursor, &cs);
        let (ncs, nk) = apply_edit(&cs, k, edit, multiline);
        let cursor = write_cursor(&self.fields[idx].field_type, &ncs, nk);
        let text = string_of(ncs.as_slice());
        self.fields[idx].value = FieldValue::Text(text);
        self.fields[idx].cursor = cursor;
    }
}

/// The options of a drop-down field type (none for text).
pub open spec fn options_of(t: FieldType) -> Seq<SelectOption> {
    match t {
        FieldType::Select { options, .. } => options@,
        FieldType::MultiSelect { options, .. } => options@,
        _ => Seq::empty(),
    }
}

/// The highlighted option of a drop-down field type.
pub open spec fn highlighted_of(t: FieldType) -> nat {
    match t {
        FieldType::Select { highlighted, .. } => highlighted as nat,
        FieldType::MultiSelect { highlighted, .. } => highlighted as nat,
        _ => 0,
    }
}

/// Whether a field type is a drop-down.
pub open spec fn is_dropdown(t: FieldType) -> bool {
    t is Select || t is MultiSelect
}

/// A drop-down field type with another option highlighted.
pub open spec fn with_highlighted(t: FieldType, h: nat) -> FieldType {
    match t {
        FieldType::Select { options, expanded, .. } => FieldType::Select {
            options,
            expanded,
            highlighted: h as usize,
        },
        FieldType::MultiSelect { options, expanded, .. } => FieldType::MultiSelect {
            options,
            expanded,
            highlighted: h as usize,
        },
        _ => t,
    }
}

/// How a highlight movement changes the highlighted option.
#[derive(Clone, Copy, Debug, PartialEq, Eq)]
pub enum HighlightMove {
    Up,
    Down,
    Top,
    Bottom,
}

/// The highlighted option after a movement within `count` options.
pub open spec fn moved_highlight(h: nat, count: nat, m: HighlightMove) -> nat {
    match m {
        HighlightMove::Up => if h > 0 {
            (h - 1) as nat
        } else {
            0
        },
        HighlightMove::Down => if h + 1 < count {
            h + 1
        } else if count > 0 {
            (count - 1) as nat
        } else {
            h
        },
        HighlightMove::Top => 0,
        HighlightMove::Bottom => if count > 0 {
            (count - 1) as nat
        } else {
            h
        },
    }
}

/// `after` is `before` with its drop-down highlight moved (other fields unchanged).
pub open spec fn field_after_highlight(before: FormField, m: HighlightMove, after: FormField) -> bool {
    if is_dropdown(before.field_type) {
        after == FormField {
            field_type: with_highlighted(
                before.field_type,
                moved_highlight(highlighted_of(before.field_type), options_of(before.field_type).len(), m),
            ),
            ..before
        }
    } else {
        after == before
    }
}

/// The texts of a list of strings.
pub open spec fn texts(items: Seq<String>) -> Seq<Seq<char>> {
    items.map_values(|s: String| s@)
}

/// `vs` without any occurrence of `x`.
pub open spec fn without(vs: Seq<Seq<char>>, x: Seq<char>) -> Seq<Seq<char>>
    decreases vs.len(),
{
    if vs.len() == 0 {
        vs
    } else if vs.last() == x {
        without(vs.drop_last(), x)
    } else {
        without(vs.drop_last(), x).push(vs.last())
    }
}

/// `after` is `before` with the highlighted option chosen: a single choice is
/// replaced; a multiple choice has the option added, or removed when present.
/// Nothing changes when no option is highlighted.
pub open spec fn field_after_choice(before: FormField, after: FormField) -> bool {
    let t = before.field_type;
    let h = highlighted_of(t);
    if is_dropdown(t) && h < options_of(t).len() {
        let v = options_of(t)[h as int].value;
        &&& after.label == before.label
        &&& after.field_type == before.field_type
        &&& after.cursor == before.cursor
        &&& after.required == before.required
        &&& if t is Select {
            after.value == FieldValue::Single(Some(v))
        } else {
            let old_items = match before.value {
                FieldValue::Multiple(items) => texts(items@),
                _ => Seq::empty(),
            };
            &&& after.value is Multiple
            &&& texts(after.value->Multiple_0@) == if old_items.contains(v@) {
                without(old_items, v@)
            } else {
                old_items.push(v@)
            }
        }
    } else {
        after == before
    }
}

/// The character index a cursor state designates in the text `cs`.
pub open spec fn cursor_index_in(cursor: CursorState, cs: Seq<char>) -> nat {
    match cursor {
        CursorState::Text { position } => index_at_byte(cs, position as nat),
        CursorState::TextArea { row, col } => index_in_line(
            cs,
            line_start_row(cs, row as nat),
            col as nat,
        ),
        CursorState::Choice => 0,
    }
}

/// The highlighted option after a movement (see `moved_highlight`).
fn next_highlight(h: usize, count: usize, m: HighlightMove) -> (r: usize)
    ensures
        r == moved_highlight(h as nat, count as nat, m),
{
    match m {
        HighlightMove::Up => if h > 0 { h - 1 } else { 0 },
        HighlightMove::Down => if count > 0 && h < count - 1 {
            h + 1
        } else if count > 0 {
            count - 1
        } else {
            h
        },
        HighlightMove::Top => 0,
        HighlightMove::Bottom => if count > 0 { count - 1 } else { h },
    }
}

/// `items` with `v` removed when present, or appended when absent.
fn toggle_item(items: &Vec<String>, v: String) -> (r: Vec<String>)
    ensures
        texts(r@) == if texts(items@).contains(v@) {
            without(texts(items@), v@)
        } else {
            texts(items@).push(v@)
        },
{
    let mut out: Vec<String> = Vec::new();
    let mut found = false;
    let mut i: usize = 0;
    while i < items.len()
        invariant
            i <= items@.len(),
            texts(out@) == without(texts(items@.take(i as int)), v@),
            found == texts(items@.take(i as int)).contains(v@),
        decreases items@.len() - i,
    {
        let same = items[i] == v;
        proof {
            assert(items@.take(i + 1).drop_last() =~= items@.take(i as int));
            assert(texts(items@.take(i + 1)) =~= texts(items@.take(i as int)).push(items@[i as int]@));
            assert(texts(items@.take(i + 1)).drop_last() =~= texts(items@.take(i as int)));
        }
        if same {
            found = true;
        } else {
            let ghost before = out@;
            out.push(items[i].clone());
            proof {
                assert(texts(out@) =~= texts(before).push(items@[i as int]@));
            }
        }
        proof {
            let t = texts(items@.take(i as int));
            if same {
                assert(t.push(v@).contains(v@)) by {
                    assert(t.push(v@)[t.len() as int] == v@);
                }
            } else {
                assert(t.push(items@[i as int]@).contains(v@) == t.contains(v@)) by {
                    if t.contains(v@) {
                        let j = choose|j: int| 0 <= j < t.len() && t[j] == v@;
                        assert(t.push(items@[i as int]@)[j] == v@);
                    }
                    if t.push(items@[i as int]@).contains(v@) {
                        let j = choose|j: int| 0 <= j < t.len() + 1 && t.push(items@[i as int]@)[j] == v@;
                        if j < t.len() {
                            assert(t[j] == v@);
                        }
                    }
                }
            }
        }
        i += 1;
    }
    proof {
        assert(items@.take(items@.len() as int) =~= items@);
    }
    if !found {
        let ghost before = out@;
        out.push(v);
        proof {
            assert(texts(out@) =~= texts(before).push(v@));
            lemma_without_absent(texts(items@), v@);
        }
    }
    out
}

/// Choosing an option of a multiple choice twice leaves the choice as it was
/// when the option was not chosen before: the first choice adds it, the second
/// removes it.
pub proof fn lemma_choosing_twice_restores(f: FormField, g: FormField, h: FormField)
    requires
        f.field_type is MultiSelect,
        highlighted_of(f.field_type) < options_of(f.field_type).len(),
        f.value is Multiple,
        !texts(f.value->Multiple_0@).contains(options_of(f.field_type)[highlighted_of(f.field_type) as int].value@),
        field_after_choice(f, g),
        field_after_choice(g, h),
    ensures
        h.value is Multiple,
        texts(h.value->Multiple_0@) == texts(f.value->Multiple_0@),
{
    let v = options_of(f.field_type)[highlighted_of(f.field_type) as int].value@;
    let old_items = texts(f.value->Multiple_0@);
    assert(old_items.push(v).contains(v)) by {
        assert(old_items.push(v)[old_items.len() as int] == v);
    }
    assert(old_items.push(v).drop_last() =~= old_items);
    lemma_without_absent(old_items, v);
}

/// Removing an absent text changes nothing.
proof fn lemma_without_absent(vs: Seq<Seq<char>>, x: Seq<char>)
    requires
        !vs.contains(x),
    ensures
        without(vs, x) == vs,
    decreases vs.len(),
{
    if vs.len() > 0 {
        assert(!vs.drop_last().contains(x)) by {
            if vs.drop_last().contains(x) {
                let j = choose|j: int| 0 <= j < vs.drop_last().len() && vs.drop_last()[j] == x;
                assert(vs[j] == x);
            }
        }
        lemma_without_absent(vs.drop_last(), x);
        assert(vs.last() != x) by {
            if vs.last() == x {
                assert(vs[vs.len() - 1] == x);
            }
        }
        assert(vs.drop_last().push(vs.last()) =~= vs);
    }
}

} // verus!
