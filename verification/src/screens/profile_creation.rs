//! The profile form: a Jira profile's name, base URL, e-mail and API token,
//! edited with vim-like motions and checked before it is saved.

use vstd::prelude::*;
use vstd::string::*;

use crate::form::{
    cursor_state_for, form_after_edit, form_edited, form_motion, insert_edit, next_selected_by,
    prev_selected_by, text_chars, CursorState, FieldType, FieldValue, FormField, FormState,
};
use crate::interaction::{ActionHint, ActionId, Command, CommandLineCommand, InsertMode, KeyCode, Mode, ScreenState};
use crate::model::{AppErrorState, JiraConfig, ProfileConfig};
use crate::text::{chars_of, index_of_from, is_whitespace, lemma_index_of_from_bounds, text_byte_len, trim, trimmed, whitespace_char, TextEdit};

verus! {

/// The scheme of `url` once parsed as a URL (`reqwest::Url::parse`), or `None`
/// when it does not parse.
pub uninterp spec fn parsed_url_scheme(url: Seq<char>) -> Option<Seq<char>>;

/// `reqwest::Url::parse` followed by `Url::scheme`. The URL grammar is the
/// crate's; the contract only names the result, a function of the text alone.
#[verifier::external_body]
fn url_scheme(url: &str) -> (r: Option<String>)
    ensures
        match r {
            Some(s) => parsed_url_scheme(url@) == Some(s@),
            None => parsed_url_scheme(url@) is None,
        },
{
    match reqwest::Url::parse(url) {
        Ok(parsed) => Some(parsed.scheme().to_string()),
        Err(_) => None,
    }
}

/// A lower-case hexadecimal digit.
pub open spec fn is_lower_hex(c: char) -> bool {
    ('0' <= c && c <= '9') || ('a' <= c && c <= 'f')
}

/// The hyphenated form of a UUID: 36 characters, hyphens at 8, 13, 18 and 23,
/// lower-case hexadecimal digits elsewhere.
pub open spec fn hyphenated_uuid(s: Seq<char>) -> bool {
    &&& s.len() == 36
    &&& forall|i: int|
        0 <= i < 36 ==> if i == 8 || i == 13 || i == 18 || i == 23 {
            #[trigger] s[i] == '-'
        } else {
            is_lower_hex(s[i])
        }
}

/// `uuid::Uuid::now_v7` rendered with `to_string`. The value depends on the
/// clock and a random source; the contract states only its hyphenated
/// lower-case form, which the crate's `Display` implementation writes.
#[verifier::external_body]
fn new_profile_id() -> (r: String)
    ensures
        hyphenated_uuid(r@),
{
    uuid::Uuid::now_v7().to_string()
}

/// The labels of the profile form's fields, in order.
pub open spec fn profile_labels() -> Seq<Seq<char>> {
    seq!["Profile Name"@, "Jira URL"@, "Email"@, "API Token"@]
}

/// The profile form holding `values`, each cursor at the end of its text; only
/// the token is masked.
pub open spec fn profile_form(form: FormState, values: Seq<Seq<char>>) -> bool {
    let f = form.field_seq();
    &&& form.selected() == 0
    &&& f.len() == 4
    &&& forall|i: int|
        0 <= i < 4 ==> {
            &&& (#[trigger] f[i]).label@ == profile_labels()[i]
            &&& f[i].field_type == (FieldType::Text { masked: i == 3 })
            &&& !f[i].required
            &&& f[i].value is Text
            &&& text_chars(f[i].value) == values[i]
            &&& f[i].cursor == cursor_state_for(f[i].field_type, values[i], values[i].len())
        }
}

/// The text of field `i`, empty when it has none.
pub open spec fn field_text_at(fields: Seq<FormField>, i: int) -> Seq<char> {
    if 0 <= i < fields.len() {
        text_chars(fields[i].value)
    } else {
        Seq::empty()
    }
}

/// Why a base URL is refused, given the scheme it parses to.
pub open spec fn url_error(url: Seq<char>, scheme: Option<Seq<char>>) -> Option<Seq<char>> {
    if url.len() == 0 {
        Some("Jira base URL is required"@)
    } else {
        match scheme {
            None => Some("Jira base URL is invalid"@),
            Some(s) => if s == "http"@ || s == "https"@ {
                None
            } else {
                Some("Jira base URL must start with http:// or https://"@)
            },
        }
    }
}

/// An address of exactly one `@` with text on both sides, whose domain holds a
/// dot and neither starts nor ends with one.
pub open spec fn email_shape_ok(e: Seq<char>) -> bool {
    let k = index_of_from(e, '@', 0);
    let domain = e.subrange((k + 1) as int, e.len() as int);
    &&& k < e.len()
    &&& k > 0
    &&& !domain.contains('@')
    &&& domain.len() > 0
    &&& domain[0] != '.'
    &&& domain.last() != '.'
    &&& domain.contains('.')
}

/// The first `c` at or after `i` is at `k` when `s[k]` is `c` and none comes
/// between `i` and `k`.
proof fn lemma_first_index_at(s: Seq<char>, c: char, i: nat, k: nat)
    requires
        i <= k < s.len(),
        s[k as int] == c,
        forall|j: int| i <= j < k ==> s[j] != c,
    ensures
        index_of_from(s, c, i) == k,
    decreases k - i,
{
    if i < k {
        lemma_first_index_at(s, c, i + 1, k);
    }
}

/// When `s` holds no `c` from `i` on, the search runs to the end.
proof fn lemma_no_index_from(s: Seq<char>, c: char, i: nat)
    requires
        i <= s.len(),
        forall|j: int| i <= j < s.len() ==> s[j] != c,
    ensures
        index_of_from(s, c, i) == s.len(),
    decreases s.len() - i,
{
    if i < s.len() {
        lemma_no_index_from(s, c, i + 1);
    }
}

/// The shape of a usable e-mail address, with the `@` at `k`: no white space,
/// exactly one `@`, something before it (whatever characters), and a domain
/// after it that holds a dot and neither starts nor ends with one.
pub open spec fn address_shape(e: Seq<char>, k: int) -> bool {
    let domain = e.subrange(k + 1, e.len() as int);
    &&& forall|i: int| 0 <= i < e.len() ==> !is_whitespace(#[trigger] e[i])
    &&& 0 < k < e.len()
    &&& e[k] == '@'
    &&& forall|i: int| 0 <= i < e.len() && i != k ==> #[trigger] e[i] != '@'
    &&& domain.contains('.')
    &&& domain[0] != '.'
    &&& domain.last() != '.'
}

/// An address is accepted exactly when it has that shape: no white space,
/// one `@` with a non-empty local part of any characters, and a domain holding
/// a dot that neither starts nor ends with one.
pub proof fn lemma_email_accepted_iff_well_shaped(e: Seq<char>)
    ensures
        email_error(e) is None <==> exists|k: int| address_shape(e, k),
{
    if exists|k: int| address_shape(e, k) {
        let k = choose|k: int| address_shape(e, k);
        lemma_first_index_at(e, '@', 0, k as nat);
        let domain = e.subrange(k + 1, e.len() as int);
        assert(!domain.contains('@')) by {
            if domain.contains('@') {
                let j = choose|j: int| 0 <= j < domain.len() && domain[j] == '@';
                assert(e[k + 1 + j] == '@');
            }
        }
        assert(!(exists|i: int| 0 <= i < e.len() && is_whitespace(#[trigger] e[i])));
    }
    if email_error(e) is None {
        let k = index_of_from(e, '@', 0);
        lemma_index_of_from_bounds(e, '@', 0);
        let domain = e.subrange((k + 1) as int, e.len() as int);
        assert forall|i: int| 0 <= i < e.len() && i != k implies #[trigger] e[i] != '@' by {
            if i < k {
                if e[i] == '@' {
                    lemma_first_before(e, '@', 0, i as nat);
                }
            } else {
                assert(domain[i - k - 1] == e[i]);
            }
        }
        assert(address_shape(e, k as int));
    }
}

/// The first `c` from `i` comes no later than any `c` at or after `i`.
proof fn lemma_first_before(s: Seq<char>, c: char, i: nat, j: nat)
    requires
        i <= j < s.len(),
        s[j as int] == c,
    ensures
        index_of_from(s, c, i) <= j,
    decreases j - i,
{
    if i < j && s[i as int] != c {
        lemma_first_before(s, c, i + 1, j);
    }
}

/// Why an e-mail address is refused.
pub open spec fn email_error(e: Seq<char>) -> Option<Seq<char>> {
    if exists|i: int| 0 <= i < e.len() && is_whitespace(#[trigger] e[i]) {
        Some("Email must not contain spaces"@)
    } else if !email_shape_ok(e) {
        Some("Email address is invalid"@)
    } else {
        None
    }
}

/// Why the form's fields do not make a profile, checked in order (name, URL,
/// e-mail, token), given the scheme the URL parses to.
pub open spec fn profile_error(fields: Seq<FormField>, scheme: Option<Seq<char>>) -> Option<Seq<char>> {
    let name = trimmed(field_text_at(fields, 0));
    let url = trimmed(field_text_at(fields, 1));
    let email = trimmed(field_text_at(fields, 2));
    let token = trimmed(field_text_at(fields, 3));
    if name.len() == 0 {
        Some("Profile name is required"@)
    } else if url_error(url, scheme) is Some {
        url_error(url, scheme)
    } else if email.len() == 0 {
        Some("Email is required"@)
    } else if email_error(email) is Some {
        email_error(email)
    } else if token.len() == 0 {
        Some("Jira API token is required"@)
    } else {
        None
    }
}

/// The profile the fields describe, each value trimmed.
pub open spec fn profile_holds_fields(p: ProfileConfig, fields: Seq<FormField>, sync_mode: Option<String>) -> bool {
    &&& p.name@ == trimmed(field_text_at(fields, 0))
    &&& p.jira.base_url@ == trimmed(field_text_at(fields, 1))
    &&& p.jira.username@ == trimmed(field_text_at(fields, 2))
    &&& p.jira.api_token@ == trimmed(field_text_at(fields, 3))
    &&& p.sync_mode == sync_mode
}

/// The profile form's fields, the profile being edited (if any), its sync mode
/// and the error shown.
pub struct ProfileCreationState {
    form: FormState,
    profile_id: Option<String>,
    sync_mode: Option<String>,
    error: Option<AppErrorState>,
}

impl ProfileCreationState {
    pub closed spec fn form_view(&self) -> FormState {
        self.form
    }

    pub closed spec fn profile_id_view(&self) -> Option<String> {
        self.profile_id
    }

    pub closed spec fn sync_mode_view(&self) -> Option<String> {
        self.sync_mode
    }

    pub closed spec fn error_view(&self) -> Option<AppErrorState> {
        self.error
    }

    /// A form for a new profile, or one filled from `profile` to edit it.
    pub fn new(profile: Option<ProfileConfig>) -> (r: Self)
        ensures
            match profile {
                Some(p) => {
                    &&& r.profile_id_view() == Some(p.id)
                    &&& r.sync_mode_view() == p.sync_mode
                    &&& profile_form(
                        r.form_view(),
                        seq![p.name@, p.jira.base_url@, p.jira.username@, p.jira.api_token@],
                    )
                },
                None => {
                    &&& r.profile_id_view() is None
                    &&& r.sync_mode_view() is None
                    &&& profile_form(r.form_view(), seq![Seq::empty(), Seq::empty(), Seq::empty(), Seq::empty()])
                },
            },
            r.error_view() is None,
    {
        match profile {
            Some(p) => Self::from_profile(p),
            None => Self::default(),
        }
    }

    pub fn set_profile_id(&mut self, id: String)
        ensures
            final(self).profile_id_view() == Some(id),
            final(self).form_view() == old(self).form_view(),
            final(self).sync_mode_view() == old(self).sync_mode_view(),
            final(self).error_view() == old(self).error_view(),
    {
        self.profile_id = Some(id);
    }

    pub fn profile_id(&self) -> (r: Option<&str>)
        ensures
            match r {
                Some(id) => self.profile_id_view() matches Some(p) && p@ == id@,
                None => self.profile_id_view() is None,
            },
    {
        match &self.profile_id {
            Some(id) => Some(id.as_str()),
            None => None,
        }
    }

    pub fn set_error(&mut self, error: AppErrorState)
        ensures
            final(self).error_view() == Some(error),
            final(self).form_view() == old(self).form_view(),
            final(self).profile_id_view() == old(self).profile_id_view(),
            final(self).sync_mode_view() == old(self).sync_mode_view(),
    {
        self.error = Some(error);
    }

    pub fn clear_error(&mut self)
        ensures
            final(self).error_view() is None,
            final(self).form_view() == old(self).form_view(),
            final(self).profile_id_view() == old(self).profile_id_view(),
            final(self).sync_mode_view() == old(self).sync_mode_view(),
    {
        self.error = None;
    }

    pub fn error(&self) -> (r: Option<&AppErrorState>)
        ensures
            r == match self.error_view() {
                Some(e) => Some(&e),
                None => None,
            },
    {
        match &self.error {
            Some(e) => Some(e),
            None => None,
        }
    }

    pub fn form(&self) -> (r: &FormState)
        ensures
            *r == self.form_view(),
    {
        &self.form
    }

    pub fn form_mut(&mut self) -> (r: &mut FormState)
        ensures
            *r == old(self).form_view(),
            final(self).form_view() == *final(r),
            final(self).profile_id_view() == old(self).profile_id_view(),
            final(self).sync_mode_view() == old(self).sync_mode_view(),
            final(self).error_view() == old(self).error_view(),
    {
        &mut self.form
    }

    pub fn sync_mode(&self) -> (r: Option<&String>)
        ensures
            r == match self.sync_mode_view() {
                Some(m) => Some(&m),
                None => None,
            },
    {
        match &self.sync_mode {
            Some(m) => Some(m),
            None => None,
        }
    }

    /// "Edit Profile" for a saved profile, else "Profile Creation".
    pub fn title(&self) -> (r: &'static str)
        ensures
            r@ == if self.profile_id_view() is Some {
                "Edit Profile"@
            } else {
                "Profile Creation"@
            },
    {
        match &self.profile_id {
            Some(_) => "Edit Profile",
            None => "Profile Creation",
        }
    }

    /// A text field holding `value` with the cursor at its end.
    fn filled(label: &str, masked: bool, value: &str) -> (r: FormField)
        ensures
            r.label@ == label@,
            r.field_type == (FieldType::Text { masked }),
            !r.required,
            r.value is Text,
            text_chars(r.value) == value@,
            r.cursor == cursor_state_for(r.field_type, value@, value@.len()),
    {
        let mut field = FormField::text(label, masked).with_value(value);
        field.cursor = CursorState::Text { position: text_byte_len(value) };
        proof {
            assert(value@.take(value@.len() as int) =~= value@);
        }
        field
    }

    /// The form filled from a saved profile.
    fn from_profile(profile: ProfileConfig) -> (r: Self)
        ensures
            r.profile_id_view() == Some(profile.id),
            r.sync_mode_view() == profile.sync_mode,
            profile_form(
                r.form_view(),
                seq![profile.name@, profile.jira.base_url@, profile.jira.username@, profile.jira.api_token@],
            ),
            r.error_view() is None,
    {
        let fields = vec![
            Self::filled("Profile Name", false, profile.name.as_str()),
            Self::filled("Jira URL", false, profile.jira.base_url.as_str()),
            Self::filled("Email", false, profile.jira.username.as_str()),
            Self::filled("API Token", true, profile.jira.api_token.as_str()),
        ];
        let r = ProfileCreationState {
            form: FormState::new(fields),
            profile_id: Some(profile.id),
            sync_mode: profile.sync_mode,
            error: None,
        };
        proof {
            reveal_strlit("Profile Name");
            reveal_strlit("Jira URL");
            reveal_strlit("Email");
            reveal_strlit("API Token");
            let values = seq![profile.name@, profile.jira.base_url@, profile.jira.username@, profile.jira.api_token@];
            assert forall|i: int| 0 <= i < 4 implies (#[trigger] r.form_view().field_seq()[i]).label@ == profile_labels()[i] by {}
            assert(profile_form(r.form_view(), values));
        }
        r
    }
}

impl Default for ProfileCreationState {
    fn default() -> (r: Self)
        ensures
            r.profile_id_view() is None,
            r.sync_mode_view() is None,
            r.error_view() is None,
            profile_form(r.form_view(), seq![Seq::empty(), Seq::empty(), Seq::empty(), Seq::empty()]),
    {
        let fields = vec![
            FormField::text("Profile Name", false),
            FormField::text("Jira URL", false),
            FormField::text("Email", false),
            FormField::text("API Token", true),
        ];
        let r = ProfileCreationState { form: FormState::new(fields), profile_id: None, sync_mode: None, error: None };
        proof {
            let values = seq![Seq::<char>::empty(), Seq::empty(), Seq::empty(), Seq::empty()];
            let f = r.form_view().field_seq();
            assert(Seq::<char>::empty().take(0) =~= Seq::<char>::empty());
            assert forall|i: int| 0 <= i < 4 implies text_chars((#[trigger] f[i]).value) == values[i] && f[i].cursor
                == cursor_state_for(f[i].field_type, values[i], values[i].len()) by {
                assert(text_chars(f[i].value) =~= Seq::<char>::empty());
            }
            assert(profile_form(r.form_view(), values));
        }
        r
    }
}

/// The edit a key typed into a profile field performs (Enter types nothing).
pub open spec fn profile_typed_edit(code: KeyCode) -> Option<TextEdit> {
    match code {
        KeyCode::Char(c) => Some(TextEdit::Insert(c)),
        KeyCode::Tab => Some(TextEdit::Insert('\t')),
        KeyCode::Backspace => Some(TextEdit::Backspace),
        KeyCode::Delete => Some(TextEdit::Delete),
        _ => None,
    }
}

/// What a key command does to the profile form.
pub open spec fn profile_form_outcome(f: FormState, c: Command, g: FormState, r: ScreenState) -> bool {
    let len = f.field_seq().len();
    match c.action {
        ActionId::MoveDown => r == ScreenState::Refresh && g.field_seq() == f.field_seq() && g.selected()
            == next_selected_by(f.selected(), len, c.repeat as nat),
        ActionId::MoveUp => r == ScreenState::Refresh && g.field_seq() == f.field_seq() && g.selected()
            == prev_selected_by(f.selected(), len, c.repeat as nat),
        ActionId::MoveTop => r == ScreenState::Refresh && g.field_seq() == f.field_seq() && g.selected() == 0,
        ActionId::MoveBottom => r == ScreenState::Refresh && g.field_seq() == f.field_seq() && g.selected()
            == if len == 0 {
            f.selected()
        } else {
            (len - 1) as nat
        },
        ActionId::MoveLeft | ActionId::MoveRight | ActionId::MoveLineStart | ActionId::MoveLineEnd
        | ActionId::MoveWordForward | ActionId::MoveWordBackward | ActionId::MoveWordEnd => r
            == ScreenState::Refresh && form_edited(f, form_motion(c.action, c.repeat), g),
        ActionId::EnterInsert(m) => r == ScreenState::Refresh && form_edited(f, insert_edit(m), g),
        ActionId::RawInput(code) => r == ScreenState::Refresh && form_edited(f, profile_typed_edit(code), g),
        _ => r == ScreenState::Stay && g == f,
    }
}

/// What saving does with the profile `built` from the form: it is handed on to
/// be saved (and the screen closed on `:wq`), or its error is shown.
pub open spec fn profile_saved(
    built: Result<ProfileConfig, String>,
    close: bool,
    after: ProfileCreationState,
    before: ProfileCreationState,
    r: ScreenState,
) -> bool {
    match built {
        Ok(p) => after.error_view() == before.error_view() && r == if close {
            ScreenState::SaveProfileAndClose(p)
        } else {
            ScreenState::SaveProfile(p)
        },
        Err(message) => {
            &&& r == ScreenState::Refresh
            &&& after.error_view() matches Some(e)
            &&& e.title@ == "Validation Error"@
            &&& e.message == message
        },
    }
}

/// Handles commands for the profile form.
pub struct ProfileCreationController;

impl ProfileCreationController {
    /// Handles a key command (see `profile_form_outcome`); the error is cleared.
    pub fn handle_command(state: &mut ProfileCreationState, command: Command) -> (r: ScreenState)
        ensures
            final(state).error_view() is None,
            final(state).profile_id_view() == old(state).profile_id_view(),
            final(state).sync_mode_view() == old(state).sync_mode_view(),
            profile_form_outcome(old(state).form_view(), command, final(state).form_view(), r),
    {
        state.clear_error();
        let ghost f0 = state.form_view();
        match command.action {
            ActionId::MoveDown => {
                let mut i: usize = 0;
                while i < command.repeat
                    invariant
                        i <= command.repeat,
                        state.form_view().field_seq() == f0.field_seq(),
                        state.form_view().selected() == next_selected_by(
                            f0.selected(),
                            f0.field_seq().len(),
                            i as nat,
                        ),
                        state.error_view() is None,
                        state.profile_id_view() == old(state).profile_id_view(),
                        state.sync_mode_view() == old(state).sync_mode_view(),
                    decreases command.repeat - i,
                {
                    state.form_mut().move_next();
                    i += 1;
                }
                ScreenState::Refresh
            },
            ActionId::MoveUp => {
                let mut i: usize = 0;
                while i < command.repeat
                    invariant
                        i <= command.repeat,
                        state.form_view().field_seq() == f0.field_seq(),
                        state.form_view().selected() == prev_selected_by(
                            f0.selected(),
                            f0.field_seq().len(),
                            i as nat,
                        ),
                        state.error_view() is None,
                        state.profile_id_view() == old(state).profile_id_view(),
                        state.sync_mode_view() == old(state).sync_mode_view(),
                    decreases command.repeat - i,
                {
                    state.form_mut().move_prev();
                    i += 1;
                }
                ScreenState::Refresh
            },
            ActionId::MoveTop => {
                state.form_mut().move_top();
                ScreenState::Refresh
            },
            ActionId::MoveBottom => {
                state.form_mut().move_bottom();
                ScreenState::Refresh
            },
            ActionId::MoveLeft => {
                state.form_mut().move_cursor_left(command.repeat);
                ScreenState::Refresh
            },
            ActionId::MoveRight => {
                state.form_mut().move_cursor_right(command.repeat);
                ScreenState::Refresh
            },
            ActionId::MoveLineStart => {
                state.form_mut().move_cursor_line_start();
                ScreenState::Refresh
            },
            ActionId::MoveLineEnd => {
                state.form_mut().move_cursor_line_end();
                ScreenState::Refresh
            },
            ActionId::MoveWordForward => {
                state.form_mut().move_word_right(command.repeat);
                ScreenState::Refresh
            },
            ActionId::MoveWordBackward => {
                state.form_mut().move_word_left(command.repeat);
                ScreenState::Refresh
            },
            ActionId::MoveWordEnd => {
                state.form_mut().move_word_end(command.repeat);
                ScreenState::Refresh
            },
            ActionId::EnterInsert(mode) => {
                let form = state.form_mut();
                match mode {
                    InsertMode::Before => form.enter_insert_before(),
                    InsertMode::After => form.enter_insert_after(),
                    InsertMode::LineStart => form.enter_insert_line_start(),
                    InsertMode::LineEnd => form.enter_insert_line_end(),
                }
                ScreenState::Refresh
            },
            ActionId::RawInput(c) => {
                handle_raw_input(state.form_mut(), c);
                ScreenState::Refresh
            },
            _ => ScreenState::Stay,
        }
    }

    /// `:w` saves the profile, `:wq` saves it and closes, `:q` closes; an invalid
    /// form shows why instead.
    pub fn handle_command_line(state: &mut ProfileCreationState, cmd: CommandLineCommand) -> (r: ScreenState)
        ensures
            final(state).form_view() == old(state).form_view(),
            final(state).profile_id_view() == old(state).profile_id_view(),
            final(state).sync_mode_view() == old(state).sync_mode_view(),
            match cmd {
                CommandLineCommand::Quit => r == ScreenState::Close && final(state).error_view()
                    == old(state).error_view(),
                _ => exists|built: Result<ProfileConfig, String>|
                    #[trigger] built_from(*old(state), built) && profile_saved(
                        built,
                        cmd == CommandLineCommand::WriteQuit,
                        *final(state),
                        *old(state),
                        r,
                    ),
            },
    {
        match cmd {
            CommandLineCommand::Quit => ScreenState::Close,
            _ => {
                let close = cmd == CommandLineCommand::WriteQuit;
                let built = build_profile(state);
                let ghost b = built;
                let r = match built {
                    Ok(profile) => if close {
                        ScreenState::SaveProfileAndClose(profile)
                    } else {
                        ScreenState::SaveProfile(profile)
                    },
                    Err(err) => {
                        state.set_error(AppErrorState::new("Validation Error", err));
                        ScreenState::Refresh
                    },
                };
                assert(built_from(*old(state), b));
                r
            },
        }
    }
}

/// What `build_profile` may return for a state: the first error of the fields,
/// or the profile they describe, with the saved profile's id or a fresh UUID.
pub open spec fn built_from(state: ProfileCreationState, built: Result<ProfileConfig, String>) -> bool {
    let fields = state.form_view().field_seq();
    let url = trimmed(field_text_at(fields, 1));
    match profile_error(fields, parsed_url_scheme(url)) {
        Some(e) => built is Err && built->Err_0@ == e,
        None => built matches Ok(p) && {
            &&& profile_holds_fields(p, fields, state.sync_mode_view())
            &&& match state.profile_id_view() {
                Some(id) => p.id == id,
                None => hyphenated_uuid(p.id@),
            }
        },
    }
}

/// Builds the profile the form describes (see `built_from`).
pub fn build_profile(state: &ProfileCreationState) -> (r: Result<ProfileConfig, String>)
    ensures
        built_from(*state, r),
{
    let url = trim(field_value(state, 1));
    let scheme = if url.as_str().is_empty() {
        None
    } else {
        url_scheme(url.as_str())
    };
    let scheme_text = match &scheme {
        Some(s) => Some(s.as_str()),
        None => None,
    };
    match check_profile_fields(state, scheme_text) {
        Err(e) => Err(e),
        Ok(()) => {
            let id = match &state.profile_id {
                Some(id) => id.clone(),
                None => new_profile_id(),
            };
            Ok(profile_with_id(state, id))
        },
    }
}

/// The text of field `idx`, empty when it has none.
fn field_value(state: &ProfileCreationState, idx: usize) -> (r: &str)
    ensures
        r@ == field_text_at(state.form_view().field_seq(), idx as int),
{
    proof {
        reveal_strlit("");
    }
    let fields = state.form().fields();
    if idx < fields.len() {
        match fields[idx].value.as_text() {
            Some(t) => t,
            None => "",
        }
    } else {
        ""
    }
}

/// Checks the fields in order (see `profile_error`), given the scheme the
/// trimmed URL parses to.
pub fn check_profile_fields(state: &ProfileCreationState, scheme: Option<&str>) -> (r: Result<(), String>)
    ensures
        match profile_error(
            state.form_view().field_seq(),
            match scheme {
                Some(s) => Some(s@),
                None => None,
            },
        ) {
            Some(e) => r is Err && r->Err_0@ == e,
            None => r is Ok,
        },
{
    let name = trim(field_value(state, 0));
    if name.as_str().is_empty() {
        return Err(String::from_str("Profile name is required"));
    }
    let url = trim(field_value(state, 1));
    match check_url(url.as_str(), scheme) {
        Err(e) => {
            return Err(e);
        },
        Ok(()) => {},
    }
    let username = trim(field_value(state, 2));
    if username.as_str().is_empty() {
        return Err(String::from_str("Email is required"));
    }
    match validate_email(username.as_str()) {
        Err(e) => {
            return Err(e);
        },
        Ok(()) => {},
    }
    let api_token = trim(field_value(state, 3));
    if api_token.as_str().is_empty() {
        return Err(String::from_str("Jira API token is required"));
    }
    Ok(())
}

/// The profile the fields describe, under `id`.
pub fn profile_with_id(state: &ProfileCreationState, id: String) -> (r: ProfileConfig)
    ensures
        r.id == id,
        profile_holds_fields(r, state.form_view().field_seq(), state.sync_mode_view()),
{
    ProfileConfig {
        id,
        name: trim(field_value(state, 0)),
        jira: JiraConfig {
            base_url: trim(field_value(state, 1)),
            username: trim(field_value(state, 2)),
            api_token: trim(field_value(state, 3)),
        },
        sync_mode: match state.sync_mode() {
            Some(m) => Some(m.clone()),
            None => None,
        },
    }
}

/// Checks a base URL: empty, unparsable, or of a scheme other than http and
/// https is refused (see `url_error`, over the scheme the URL parses to).
pub fn validate_url(url: &str) -> (r: Result<(), String>)
    ensures
        match url_error(url@, parsed_url_scheme(url@)) {
            Some(e) => r is Err && r->Err_0@ == e,
            None => r is Ok,
        },
{
    if url.is_empty() {
        return Err(String::from_str("Jira base URL is required"));
    }
    let scheme = url_scheme(url);
    let scheme_text = match &scheme {
        Some(s) => Some(s.as_str()),
        None => None,
    };
    check_url(url, scheme_text)
}

/// Checks a base URL given the scheme it parses to (see `url_error`).
pub fn check_url(url: &str, scheme: Option<&str>) -> (r: Result<(), String>)
    ensures
        match url_error(
            url@,
            match scheme {
                Some(s) => Some(s@),
                None => None,
            },
        ) {
            Some(e) => r is Err && r->Err_0@ == e,
            None => r is Ok,
        },
{
    if url.is_empty() {
        return Err(String::from_str("Jira base URL is required"));
    }
    match scheme {
        None => Err(String::from_str("Jira base URL is invalid")),
        Some(s) => if crate::text::str_eq(s, "http") || crate::text::str_eq(s, "https") {
            Ok(())
        } else {
            Err(String::from_str("Jira base URL must start with http:// or https://"))
        },
    }
}

/// Checks an e-mail address (see `email_error`).
pub fn validate_email(email: &str) -> (r: Result<(), String>)
    ensures
        match email_error(email@) {
            Some(e) => r is Err && r->Err_0@ == e,
            None => r is Ok,
        },
{
    let cs = chars_of(email);
    let n = cs.len();
    let mut i: usize = 0;
    while i < n
        invariant
            i <= n,
            n == cs@.len(),
            cs@ == email@,
            forall|j: int| 0 <= j < i ==> !is_whitespace(#[trigger] cs@[j]),
        decreases n - i,
    {
        if whitespace_char(cs[i]) {
            return Err(String::from_str("Email must not contain spaces"));
        }
        i += 1;
    }
    let mut k: usize = 0;
    while k < n && cs[k] != '@'
        invariant
            k <= n,
            n == cs@.len(),
            index_of_from(cs@, '@', 0) == index_of_from(cs@, '@', k as nat),
        decreases n - k,
    {
        k += 1;
    }
    if k == 0 || k >= n {
        return Err(String::from_str("Email address is invalid"));
    }
    let domain = vstd::slice::slice_subrange(cs.as_slice(), k + 1, n);
    let dn = domain.len();
    let mut has_at = false;
    let mut has_dot = false;
    let mut j: usize = 0;
    while j < dn
        invariant
            j <= dn,
            dn == domain@.len(),
            has_at == domain@.take(j as int).contains('@'),
            has_dot == domain@.take(j as int).contains('.'),
        decreases dn - j,
    {
        proof {
            assert(domain@.take(j + 1) =~= domain@.take(j as int).push(domain@[j as int]));
            lemma_push_contains(domain@.take(j as int), domain@[j as int], '@');
            lemma_push_contains(domain@.take(j as int), domain@[j as int], '.');
        }
        if domain[j] == '@' {
            has_at = true;
        }
        if domain[j] == '.' {
            has_dot = true;
        }
        j += 1;
    }
    proof {
        assert(domain@.take(dn as int) =~= domain@);
    }
    if has_at || dn == 0 || domain[0] == '.' || domain[dn - 1] == '.' || !has_dot {
        return Err(String::from_str("Email address is invalid"));
    }
    Ok(())
}

/// An element is in `s.push(x)` exactly when it is `x` or in `s`.
proof fn lemma_push_contains(s: Seq<char>, x: char, c: char)
    ensures
        s.push(x).contains(c) == (x == c || s.contains(c)),
{
    if s.contains(c) {
        let i = choose|i: int| 0 <= i < s.len() && s[i] == c;
        assert(s.push(x)[i] == c);
    }
    if x == c {
        assert(s.push(x)[s.len() as int] == c);
    }
    if s.push(x).contains(c) {
        let i = choose|i: int| 0 <= i < s.len() + 1 && s.push(x)[i] == c;
        if i < s.len() {
            assert(s[i] == c);
        }
    }
}

/// Typed keys edit the selected field (Enter types nothing).
fn handle_raw_input(form: &mut FormState, code: KeyCode)
    ensures
        form_edited(*old(form), profile_typed_edit(code), *final(form)),
{
    match code {
        KeyCode::Char(ch) => form.insert_char(ch),
        KeyCode::Tab => form.insert_char('\t'),
        KeyCode::Backspace => form.backspace(),
        KeyCode::Delete => form.delete(),
        _ => {},
    }
}

/// The profile screen: the form, the key hints it shows and the mode.
pub struct ProfileCreationScreen {
    state: ProfileCreationState,
    actions: Vec<ActionHint>,
    mode: Mode,
}

impl ProfileCreationScreen {
    pub closed spec fn state_view(&self) -> ProfileCreationState {
        self.state
    }

    pub closed spec fn actions_view(&self) -> Seq<ActionHint> {
        self.actions@
    }

    pub closed spec fn mode_view(&self) -> Mode {
        self.mode
    }

    /// A screen for a new profile, or for editing `profile`, in normal mode.
    pub fn new(profile: Option<ProfileConfig>) -> (r: Self)
        ensures
            r.state_view().error_view() is None,
            match profile {
                Some(p) => r.state_view().profile_id_view() == Some(p.id) && r.state_view().sync_mode_view()
                    == p.sync_mode && profile_form(
                    r.state_view().form_view(),
                    seq![p.name@, p.jira.base_url@, p.jira.username@, p.jira.api_token@],
                ),
                None => r.state_view().profile_id_view() is None && r.state_view().sync_mode_view() is None
                    && profile_form(
                    r.state_view().form_view(),
                    seq![Seq::empty(), Seq::empty(), Seq::empty(), Seq::empty()],
                ),
            },
            r.mode_view() == Mode::Normal,
            r.actions_view().len() == 0,
    {
        ProfileCreationScreen { state: ProfileCreationState::new(profile), actions: Vec::new(), mode: Mode::Normal }
    }

    pub fn set_profile_id(&mut self, id: String)
        ensures
            final(self).state_view().profile_id_view() == Some(id),
            final(self).state_view().form_view() == old(self).state_view().form_view(),
            final(self).state_view().sync_mode_view() == old(self).state_view().sync_mode_view(),
            final(self).state_view().error_view() == old(self).state_view().error_view(),
            final(self).mode_view() == old(self).mode_view(),
            final(self).actions_view() == old(self).actions_view(),
    {
        self.state.set_profile_id(id);
    }

    pub fn state(&self) -> (r: &ProfileCreationState)
        ensures
            *r == self.state_view(),
    {
        &self.state
    }

    pub fn actions(&self) -> (r: &[ActionHint])
        ensures
            r@ == self.actions_view(),
    {
        self.actions.as_slice()
    }

    pub fn mode(&self) -> (r: Mode)
        ensures
            r == self.mode_view(),
    {
        self.mode
    }

    /// The form's title.
    pub fn name(&self) -> (r: &'static str)
        ensures
            r@ == if self.state_view().profile_id_view() is Some {
                "Edit Profile"@
            } else {
                "Profile Creation"@
            },
    {
        self.state.title()
    }

    pub fn set_action_hints(&mut self, actions: Vec<ActionHint>)
        ensures
            final(self).actions_view() == actions@,
            final(self).state_view() == old(self).state_view(),
            final(self).mode_view() == old(self).mode_view(),
    {
        self.actions = actions;
    }

    pub fn set_mode(&mut self, mode: Mode)
        ensures
            final(self).mode_view() == mode,
            final(self).state_view() == old(self).state_view(),
            final(self).actions_view() == old(self).actions_view(),
    {
        self.mode = mode;
    }

    /// Handles `:w`, `:wq` and `:q` (see
    /// `ProfileCreationController::handle_command_line`).
    pub fn handle_command_line(&mut self, cmd: CommandLineCommand) -> (r: ScreenState)
        ensures
            final(self).state_view().form_view() == old(self).state_view().form_view(),
            final(self).state_view().profile_id_view() == old(self).state_view().profile_id_view(),
            final(self).state_view().sync_mode_view() == old(self).state_view().sync_mode_view(),
            final(self).mode_view() == old(self).mode_view(),
            final(self).actions_view() == old(self).actions_view(),
            match cmd {
                CommandLineCommand::Quit => r == ScreenState::Close && final(self).state_view().error_view()
                    == old(self).state_view().error_view(),
                _ => exists|built: Result<ProfileConfig, String>|
                    #[trigger] built_from(old(self).state_view(), built) && profile_saved(
                        built,
                        cmd == CommandLineCommand::WriteQuit,
                        final(self).state_view(),
                        old(self).state_view(),
                        r,
                    ),
            },
    {
        ProfileCreationController::handle_command_line(&mut self.state, cmd)
    }

    /// Handles a key command (see `profile_form_outcome`).
    pub fn handle_command(&mut self, command: Command) -> (r: ScreenState)
        ensures
            final(self).state_view().error_view() is None,
            final(self).state_view().profile_id_view() == old(self).state_view().profile_id_view(),
            final(self).state_view().sync_mode_view() == old(self).state_view().sync_mode_view(),
            profile_form_outcome(old(self).state_view().form_view(), command, final(self).state_view().form_view(), r),
            final(self).mode_view() == old(self).mode_view(),
            final(self).actions_view() == old(self).actions_view(),
    {
        ProfileCreationController::handle_command(&mut self.state, command)
    }
}

} // verus!
