//! The Profiles screen: the saved Jira profiles (the active one marked), or the
//! choices offered when there is none.

use vstd::prelude::*;
use vstd::string::*;

use crate::interaction::{ActionHint, ActionId, Command, Mode, ScreenState};
use crate::model::ProfileConfig;
use crate::text::str_eq;
use crate::viewport::{index_down, index_up, step_down, step_up};

verus! {

/// One entry of the list: what it stands for ("profile", or "empty", "new" and
/// "quit" when there is no profile) and the profile's id.
#[derive(Clone, Debug)]
struct ListEntry {
    id: &'static str,
    profile_id: Option<String>,
}

/// The label of a profile: its name, marked when it is the active one.
pub open spec fn profile_label(p: ProfileConfig, active: Option<Seq<char>>) -> Seq<char> {
    if active == Some(p.id@) {
        p.name@ + " (active)"@
    } else {
        p.name@
    }
}

/// The entry kinds listed for `profiles`.
pub open spec fn entry_kinds(profiles: Seq<ProfileConfig>) -> Seq<Seq<char>> {
    if profiles.len() == 0 {
        seq!["empty"@, "new"@, "quit"@]
    } else {
        Seq::new(profiles.len(), |i: int| "profile"@)
    }
}

/// The profile ids behind the entries listed for `profiles`.
pub open spec fn entry_profile_ids(profiles: Seq<ProfileConfig>) -> Seq<Option<String>> {
    if profiles.len() == 0 {
        seq![None, None, None]
    } else {
        Seq::new(profiles.len(), |i: int| Some(profiles[i].id))
    }
}

/// The labels listed for `profiles`.
pub open spec fn entry_labels(profiles: Seq<ProfileConfig>, active: Option<Seq<char>>) -> Seq<Seq<char>> {
    if profiles.len() == 0 {
        seq!["No profiles found"@, "New profile"@, "Quit"@]
    } else {
        Seq::new(profiles.len(), |i: int| profile_label(profiles[i], active))
    }
}

/// The message shown above the list.
pub open spec fn profiles_message(profiles: Seq<ProfileConfig>) -> Seq<char> {
    if profiles.len() == 0 {
        "No profiles available.\nCreate one to continue."@
    } else {
        "Enter to activate • e to edit • d to delete • n to add"@
    }
}

/// The texts of a list of strings.
pub open spec fn string_texts(items: Seq<String>) -> Seq<Seq<char>> {
    items.map_values(|s: String| s@)
}

/// The index of the first entry standing for profile `id`, if any.
pub open spec fn first_with_id(ids: Seq<Option<String>>, id: Seq<char>, from: nat) -> Option<nat>
    decreases ids.len() - from,
{
    if from >= ids.len() {
        None
    } else if ids[from as int] matches Some(p) && p@ == id {
        Some(from)
    } else {
        first_with_id(ids, id, from + 1)
    }
}

/// The entries listed, their labels, the selection, how many profiles there are
/// and the message.
pub struct ProfilesState {
    entries: Vec<ListEntry>,
    list_items: Vec<String>,
    selected_index: usize,
    profile_count: usize,
    message: String,
}

impl ProfilesState {
    pub closed spec fn kinds(&self) -> Seq<Seq<char>> {
        self.entries@.map_values(|e: ListEntry| e.id@)
    }

    pub closed spec fn profile_ids(&self) -> Seq<Option<String>> {
        self.entries@.map_values(|e: ListEntry| e.profile_id)
    }

    pub closed spec fn labels(&self) -> Seq<Seq<char>> {
        string_texts(self.list_items@)
    }

    pub closed spec fn selected(&self) -> nat {
        self.selected_index as nat
    }

    pub closed spec fn count(&self) -> nat {
        self.profile_count as nat
    }

    pub closed spec fn message_view(&self) -> Seq<char> {
        self.message@
    }

    /// The entries, labels, count and message listed for `profiles`.
    pub open spec fn lists(&self, profiles: Seq<ProfileConfig>, active: Option<Seq<char>>) -> bool {
        &&& self.kinds() == entry_kinds(profiles)
        &&& self.profile_ids() == entry_profile_ids(profiles)
        &&& self.labels() == entry_labels(profiles, active)
        &&& self.count() == profiles.len()
        &&& self.message_view() == profiles_message(profiles)
    }

    /// The list for `profiles`, the first entry selected.
    pub fn new(profiles: &[ProfileConfig], active_id: Option<&str>) -> (r: Self)
        ensures
            r.lists(
                profiles@,
                match active_id {
                    Some(a) => Some(a@),
                    None => None,
                },
            ),
            r.selected() == 0,
    {
        let (entries, labels, profile_count, message) = build_entries(profiles, active_id);
        let mut state = ProfilesState { entries, list_items: Vec::new(), selected_index: 0, profile_count, message };
        state.refresh_items(labels.as_slice());
        state
    }

    /// The profile behind the selected entry, if it stands for one.
    pub fn selected_profile_id(&self) -> (r: Option<&str>)
        ensures
            match r {
                Some(id) => self.selected_profile() == Some(id@),
                None => self.selected_profile() is None,
            },
    {
        if self.selected_index < self.entries.len() {
            match &self.entries[self.selected_index].profile_id {
                Some(id) => Some(id.as_str()),
                None => None,
            }
        } else {
            None
        }
    }

    /// True when there is no profile.
    pub fn is_empty(&self) -> (r: bool)
        ensures
            r == (self.count() == 0),
    {
        self.profile_count == 0
    }

    /// What the selected entry stands for.
    pub fn selected_menu_id(&self) -> (r: Option<&'static str>)
        ensures
            match r {
                Some(id) => self.selected() < self.kinds().len() && self.kinds()[self.selected() as int] == id@,
                None => self.selected() >= self.kinds().len(),
            },
    {
        if self.selected_index < self.entries.len() {
            Some(self.entries[self.selected_index].id)
        } else {
            None
        }
    }

    /// Selects the entry `n` up (at least one), stopping at the first.
    pub fn move_up(&mut self, n: usize)
        ensures
            final(self).selected() == if old(self).kinds().len() == 0 {
                old(self).selected()
            } else {
                index_up(old(self).selected(), n as nat)
            },
            final(self).same_list(*old(self)),
    {
        if self.entries.len() == 0 {
            return;
        }
        self.selected_index = step_up(self.selected_index, n);
    }

    /// Selects the entry `n` down (at least one), stopping at the last.
    pub fn move_down(&mut self, n: usize)
        ensures
            final(self).selected() == if old(self).kinds().len() == 0 {
                old(self).selected()
            } else {
                index_down(old(self).selected(), n as nat, old(self).kinds().len())
            },
            final(self).same_list(*old(self)),
    {
        if self.entries.len() == 0 {
            return;
        }
        self.selected_index = step_down(self.selected_index, n, self.entries.len());
    }

    /// Selects the first entry.
    pub fn move_top(&mut self)
        ensures
            final(self).selected() == if old(self).kinds().len() == 0 {
                old(self).selected()
            } else {
                0
            },
            final(self).same_list(*old(self)),
    {
        if self.entries.len() > 0 {
            self.selected_index = 0;
        }
    }

    /// Selects the last entry.
    pub fn move_bottom(&mut self)
        ensures
            final(self).selected() == if old(self).kinds().len() == 0 {
                old(self).selected()
            } else {
                (old(self).kinds().len() - 1) as nat
            },
            final(self).same_list(*old(self)),
    {
        if self.entries.len() > 0 {
            self.selected_index = self.entries.len() - 1;
        }
    }

    /// The id of the profile behind the selected entry, if it stands for one.
    pub open spec fn selected_profile(&self) -> Option<Seq<char>> {
        if self.selected() < self.profile_ids().len() && self.profile_ids()[self.selected() as int] is Some {
            Some(self.profile_ids()[self.selected() as int]->0@)
        } else {
            None
        }
    }

    /// Everything but the selection is that of `other`.
    pub open spec fn same_list(&self, other: ProfilesState) -> bool {
        &&& self.kinds() == other.kinds()
        &&& self.profile_ids() == other.profile_ids()
        &&& self.labels() == other.labels()
        &&& self.count() == other.count()
        &&& self.message_view() == other.message_view()
    }

    pub fn selected_index(&self) -> (r: usize)
        ensures
            r == self.selected(),
    {
        self.selected_index
    }

    /// The labels of the entries.
    pub fn list_items(&self) -> (r: &[String])
        ensures
            string_texts(r@) == self.labels(),
    {
        self.list_items.as_slice()
    }

    pub fn message(&self) -> (r: &str)
        ensures
            r@ == self.message_view(),
    {
        self.message.as_str()
    }

    /// Lists `profiles` anew and selects the entry of `selected_id` when it is
    /// listed; otherwise the selection index stays as it was.
    pub fn refresh(&mut self, profiles: &[ProfileConfig], active_id: Option<&str>, selected_id: Option<&str>)
        ensures
            final(self).lists(
                profiles@,
                match active_id {
                    Some(a) => Some(a@),
                    None => None,
                },
            ),
            final(self).selected() == match selected_id {
                Some(id) => match first_with_id(entry_profile_ids(profiles@), id@, 0) {
                    Some(i) => i,
                    None => old(self).selected(),
                },
                None => old(self).selected(),
            },
    {
        let ghost active = match active_id {
            Some(a) => Some(a@),
            None => None,
        };
        let (entries, labels, profile_count, message) = build_entries(profiles, active_id);
        self.entries = entries;
        self.refresh_items(labels.as_slice());
        self.profile_count = profile_count;
        self.message = message;
        match selected_id {
            Some(id) => {
                let mut i: usize = 0;
                let n = self.entries.len();
                while i < n
                    invariant
                        i <= n,
                        n == self.entries@.len(),
                        self.profile_ids() == entry_profile_ids(profiles@),
                        self.lists(profiles@, active),
                        self.selected() == old(self).selected(),
                        selected_id == Some(id),
                        active == match active_id {
                            Some(a) => Some(a@),
                            None => None::<Seq<char>>,
                        },
                        first_with_id(self.profile_ids(), id@, 0) == first_with_id(self.profile_ids(), id@, i as nat),
                    decreases n - i,
                {
                    let found = match &self.entries[i].profile_id {
                        Some(p) => str_eq(p.as_str(), id),
                        None => false,
                    };
                    if found {
                        proof {
                            assert(self.profile_ids()[i as int] == self.entries@[i as int].profile_id);
                            assert(first_with_id(self.profile_ids(), id@, i as nat) == Some(i as nat));
                        }
                        self.selected_index = i;
                        return;
                    }
                    i += 1;
                }
            },
            None => {},
        }
    }

    /// Replaces the labels.
    pub fn set_items(&mut self, items: Vec<String>)
        ensures
            final(self).labels() == string_texts(items@),
            final(self).kinds() == old(self).kinds(),
            final(self).profile_ids() == old(self).profile_ids(),
            final(self).selected() == old(self).selected(),
            final(self).count() == old(self).count(),
            final(self).message_view() == old(self).message_view(),
    {
        self.list_items = items;
    }

    /// Replaces the labels with copies of `labels`.
    pub fn refresh_items(&mut self, labels: &[String])
        ensures
            final(self).labels() == string_texts(labels@),
            final(self).kinds() == old(self).kinds(),
            final(self).profile_ids() == old(self).profile_ids(),
            final(self).selected() == old(self).selected(),
            final(self).count() == old(self).count(),
            final(self).message_view() == old(self).message_view(),
    {
        let mut items: Vec<String> = Vec::new();
        let mut i: usize = 0;
        while i < labels.len()
            invariant
                i <= labels@.len(),
                items@ == labels@.take(i as int),
            decreases labels@.len() - i,
        {
            items.push(labels[i].clone());
            proof {
                assert(labels@.take(i + 1) =~= labels@.take(i as int).push(labels@[i as int]));
            }
            i += 1;
        }
        proof {
            assert(labels@.take(labels@.len() as int) =~= labels@);
        }
        self.set_items(items);
    }
}

/// The entries, labels, profile count and message for `profiles`.
fn build_entries(profiles: &[ProfileConfig], active_id: Option<&str>) -> (r: (Vec<ListEntry>, Vec<String>, usize, String))
    ensures
        r.0@.map_values(|e: ListEntry| e.id@) == entry_kinds(profiles@),
        r.0@.map_values(|e: ListEntry| e.profile_id) == entry_profile_ids(profiles@),
        string_texts(r.1@) == entry_labels(
            profiles@,
            match active_id {
                Some(a) => Some(a@),
                None => None,
            },
        ),
        r.2 == profiles@.len(),
        r.3@ == profiles_message(profiles@),
{
    let ghost active = match active_id {
        Some(a) => Some(a@),
        None => None,
    };
    if profiles.len() == 0 {
        let entries = vec![
            ListEntry { id: "empty", profile_id: None },
            ListEntry { id: "new", profile_id: None },
            ListEntry { id: "quit", profile_id: None },
        ];
        let labels = vec![
            String::from_str("No profiles found"),
            String::from_str("New profile"),
            String::from_str("Quit"),
        ];
        let message = String::from_str("No profiles available.\nCreate one to continue.");
        assert(entries@.map_values(|e: ListEntry| e.id@) =~= entry_kinds(profiles@));
        assert(entries@.map_values(|e: ListEntry| e.profile_id) =~= entry_profile_ids(profiles@));
        assert(string_texts(labels@) =~= entry_labels(profiles@, active));
        return (entries, labels, 0, message);
    }
    let mut entries: Vec<ListEntry> = Vec::new();
    let mut labels: Vec<String> = Vec::new();
    let mut i: usize = 0;
    while i < profiles.len()
        invariant
            i <= profiles@.len(),
            profiles@.len() > 0,
            entries@.len() == i,
            labels@.len() == i,
            active == match active_id {
                Some(a) => Some(a@),
                None => None::<Seq<char>>,
            },
            forall|j: int|
                0 <= j < i ==> {
                    &&& (#[trigger] entries@[j]).id@ == "profile"@
                    &&& entries@[j].profile_id == Some(profiles@[j].id)
                },
            forall|j: int| 0 <= j < i ==> (#[trigger] labels@[j])@ == profile_label(profiles@[j], active),
        decreases profiles@.len() - i,
    {
        let profile = &profiles[i];
        let is_active = match active_id {
            Some(a) => str_eq(profile.id.as_str(), a),
            None => false,
        };
        let label = if is_active {
            let mut l = profile.name.clone();
            l.append(" (active)");
            l
        } else {
            profile.name.clone()
        };
        entries.push(ListEntry { id: "profile", profile_id: Some(profile.id.clone()) });
        labels.push(label);
        i += 1;
    }
    let message = String::from_str("Enter to activate • e to edit • d to delete • n to add");
    assert(entries@.map_values(|e: ListEntry| e.id@) =~= entry_kinds(profiles@));
    assert(entries@.map_values(|e: ListEntry| e.profile_id) =~= entry_profile_ids(profiles@));
    assert(string_texts(labels@) =~= entry_labels(profiles@, active));
    (entries, labels, profiles.len(), message)
}

/// Handles commands for the profiles list.
pub struct ProfilesController;

impl ProfilesController {
    /// The motions move the selection; other keys are left to the application.
    pub fn handle_command(state: &mut ProfilesState, command: Command) -> (r: ScreenState)
        ensures
            final(state).same_list(*old(state)),
            match command.action {
                ActionId::MoveUp | ActionId::MoveDown | ActionId::MoveTop | ActionId::MoveBottom => r
                    == ScreenState::Refresh,
                _ => r == ScreenState::Stay && final(state).selected() == old(state).selected(),
            },
            command.action == ActionId::MoveUp ==> final(state).selected() == if old(state).kinds().len() == 0 {
                old(state).selected()
            } else {
                index_up(old(state).selected(), command.repeat as nat)
            },
            command.action == ActionId::MoveDown ==> final(state).selected() == if old(state).kinds().len() == 0 {
                old(state).selected()
            } else {
                index_down(old(state).selected(), command.repeat as nat, old(state).kinds().len())
            },
            command.action == ActionId::MoveTop ==> final(state).selected() == if old(state).kinds().len() == 0 {
                old(state).selected()
            } else {
                0
            },
            command.action == ActionId::MoveBottom ==> final(state).selected() == if old(state).kinds().len()
                == 0 {
                old(state).selected()
            } else {
                (old(state).kinds().len() - 1) as nat
            },
    {
        match command.action {
            ActionId::MoveUp => {
                state.move_up(command.repeat);
                ScreenState::Refresh
            },
            ActionId::MoveDown => {
                state.move_down(command.repeat);
                ScreenState::Refresh
            },
            ActionId::MoveTop => {
                state.move_top();
                ScreenState::Refresh
            },
            ActionId::MoveBottom => {
                state.move_bottom();
                ScreenState::Refresh
            },
            _ => ScreenState::Stay,
        }
    }
}

/// The profiles screen: the list, the mode and the key hints it shows.
pub struct ProfilesScreen {
    state: ProfilesState,
    mode: Mode,
    actions: Vec<ActionHint>,
}

impl ProfilesScreen {
    pub closed spec fn state_view(&self) -> ProfilesState {
        self.state
    }

    pub closed spec fn mode_view(&self) -> Mode {
        self.mode
    }

    pub closed spec fn actions_view(&self) -> Seq<ActionHint> {
        self.actions@
    }

    pub fn new(profiles: &[ProfileConfig], active_id: Option<&str>) -> (r: Self)
        ensures
            r.state_view().lists(
                profiles@,
                match active_id {
                    Some(a) => Some(a@),
                    None => None,
                },
            ),
            r.state_view().selected() == 0,
            r.mode_view() == Mode::Normal,
            r.actions_view().len() == 0,
    {
        ProfilesScreen { state: ProfilesState::new(profiles, active_id), mode: Mode::Normal, actions: Vec::new() }
    }

    pub fn state(&self) -> (r: &ProfilesState)
        ensures
            *r == self.state_view(),
    {
        &self.state
    }

    pub fn selected_profile_id(&self) -> (r: Option<&str>)
        ensures
            match r {
                Some(id) => self.state_view().selected_profile() == Some(id@),
                None => self.state_view().selected_profile() is None,
            },
    {
        self.state.selected_profile_id()
    }

    pub fn is_empty(&self) -> (r: bool)
        ensures
            r == (self.state_view().count() == 0),
    {
        self.state.is_empty()
    }

    pub fn move_up(&mut self, n: usize)
        ensures
            final(self).state_view().selected() == if old(self).state_view().kinds().len() == 0 {
                old(self).state_view().selected()
            } else {
                index_up(old(self).state_view().selected(), n as nat)
            },
            final(self).state_view().same_list(old(self).state_view()),
            final(self).mode_view() == old(self).mode_view(),
            final(self).actions_view() == old(self).actions_view(),
    {
        self.state.move_up(n);
    }

    pub fn move_down(&mut self, n: usize)
        ensures
            final(self).state_view().selected() == if old(self).state_view().kinds().len() == 0 {
                old(self).state_view().selected()
            } else {
                index_down(old(self).state_view().selected(), n as nat, old(self).state_view().kinds().len())
            },
            final(self).state_view().same_list(old(self).state_view()),
            final(self).mode_view() == old(self).mode_view(),
            final(self).actions_view() == old(self).actions_view(),
    {
        self.state.move_down(n);
    }

    pub fn move_top(&mut self)
        ensures
            final(self).state_view().selected() == if old(self).state_view().kinds().len() == 0 {
                old(self).state_view().selected()
            } else {
                0
            },
            final(self).state_view().same_list(old(self).state_view()),
            final(self).mode_view() == old(self).mode_view(),
            final(self).actions_view() == old(self).actions_view(),
    {
        self.state.move_top();
    }

    pub fn move_bottom(&mut self)
        ensures
            final(self).state_view().selected() == if old(self).state_view().kinds().len() == 0 {
                old(self).state_view().selected()
            } else {
                (old(self).state_view().kinds().len() - 1) as nat
            },
            final(self).state_view().same_list(old(self).state_view()),
            final(self).mode_view() == old(self).mode_view(),
            final(self).actions_view() == old(self).actions_view(),
    {
        self.state.move_bottom();
    }

    pub fn selected_menu_id(&self) -> (r: Option<&'static str>)
        ensures
            match r {
                Some(id) => self.state_view().selected() < self.state_view().kinds().len()
                    && self.state_view().kinds()[self.state_view().selected() as int] == id@,
                None => self.state_view().selected() >= self.state_view().kinds().len(),
            },
    {
        self.state.selected_menu_id()
    }

    /// Lists `profiles` anew (see `ProfilesState::refresh`).
    pub fn refresh(&mut self, profiles: &[ProfileConfig], active_id: Option<&str>, selected_id: Option<&str>)
        ensures
            final(self).state_view().lists(
                profiles@,
                match active_id {
                    Some(a) => Some(a@),
                    None => None,
                },
            ),
            final(self).state_view().selected() == match selected_id {
                Some(id) => match first_with_id(entry_profile_ids(profiles@), id@, 0) {
                    Some(i) => i,
                    None => old(self).state_view().selected(),
                },
                None => old(self).state_view().selected(),
            },
            final(self).mode_view() == old(self).mode_view(),
            final(self).actions_view() == old(self).actions_view(),
    {
        self.state.refresh(profiles, active_id, selected_id);
    }

    pub fn name(&self) -> (r: &'static str)
        ensures
            r@ == "Profiles"@,
    {
        "Profiles"
    }

    pub fn mode(&self) -> (r: Mode)
        ensures
            r == self.mode_view(),
    {
        self.mode
    }

    pub fn actions(&self) -> (r: &[ActionHint])
        ensures
            r@ == self.actions_view(),
    {
        self.actions.as_slice()
    }

    pub fn set_action_hints(&mut self, actions: Vec<ActionHint>)
        ensures
            final(self).actions_view() == actions@,
            final(self).state_view() == old(self).state_view(),
            final(self).mode_view() == old(self).mode_view(),
    {
        self.actions = actions;
    }

    pub fn set_mode(&mut self, mode: Mode)
        ensures
            final(self).mode_view() == mode,
            final(self).state_view() == old(self).state_view(),
            final(self).actions_view() == old(self).actions_view(),
    {
        self.mode = mode;
    }

    /// Handles a key command (see `ProfilesController::handle_command`).
    pub fn handle_command(&mut self, command: Command) -> (r: ScreenState)
        ensures
            final(self).state_view().same_list(old(self).state_view()),
            match command.action {
                ActionId::MoveUp | ActionId::MoveDown | ActionId::MoveTop | ActionId::MoveBottom => r
                    == ScreenState::Refresh,
                _ => r == ScreenState::Stay && final(self).state_view().selected() == old(self).state_view().selected(),
            },
            final(self).mode_view() == old(self).mode_view(),
            final(self).actions_view() == old(self).actions_view(),
    {
        ProfilesController::handle_command(&mut self.state, command)
    }
}

} // verus!
