//! The application state that the commands read and change, the profiles
//! saved from it and loaded into it, and the start-up configuration.

use vstd::prelude::*;
use vstd::string::*;
use crate::backup::{BackupLoop, LoopModel};
use crate::error::AppError;
use crate::text::{same_text, trim, trim_spec};

verus! {

/// The fields of a profile, as text and numbers.
#[verifier::ext_equal]
pub struct ProfileModel {
    pub input_folder: Seq<char>,
    pub backup_folder: Seq<char>,
    pub snapshot_folder: Seq<char>,
    pub backup_time: u32,
    pub backup_number: u32,
    pub snapshot_name: Seq<char>,
    pub profile: Seq<char>,
}

/// A saved configuration: the folders, the backup interval and count, the
/// snapshot name and the name of the profile itself.
#[derive(Debug, Clone, PartialEq, Eq)]
pub struct AppProfile {
    pub input_folder: String,
    pub backup_folder: String,
    pub snapshot_folder: String,
    pub backup_time: u32,
    pub backup_number: u32,
    pub snapshot_name: String,
    pub profile: String,
}

impl View for AppProfile {
    type V = ProfileModel;

    open spec fn view(&self) -> ProfileModel {
        ProfileModel {
            input_folder: self.input_folder@,
            backup_folder: self.backup_folder@,
            snapshot_folder: self.snapshot_folder@,
            backup_time: self.backup_time,
            backup_number: self.backup_number,
            snapshot_name: self.snapshot_name@,
            profile: self.profile@,
        }
    }
}

/// The value of an input field: a number or a text.
#[derive(Debug, Clone, PartialEq, Eq)]
pub enum U32OrString {
    Number(u32),
    Text(String),
}

/// The abstract application state.
#[verifier::ext_equal]
pub struct StateModel {
    /// How many times backups were started or stopped.
    pub count: u32,
    pub input_folder: Seq<char>,
    pub backup_folder: Seq<char>,
    pub snapshot_folder: Seq<char>,
    /// Minutes between two backups.
    pub backup_time: u32,
    /// Number of backups kept.
    pub backup_number: u32,
    /// Whether backups are running.
    pub backup_status: bool,
    pub snapshot_name: Seq<char>,
    /// The name of the current profile; empty where none is selected.
    pub profile: Seq<char>,
}

impl StateModel {
    /// The state at start-up: nothing chosen, no backups running.
    pub open spec fn initial() -> StateModel {
        StateModel {
            count: 0,
            input_folder: Seq::empty(),
            backup_folder: Seq::empty(),
            snapshot_folder: Seq::empty(),
            backup_time: 0,
            backup_number: 0,
            backup_status: false,
            snapshot_name: Seq::empty(),
            profile: Seq::empty(),
        }
    }

    /// The profile fields of the state.
    pub open spec fn profile_model(self) -> ProfileModel {
        ProfileModel {
            input_folder: self.input_folder,
            backup_folder: self.backup_folder,
            snapshot_folder: self.snapshot_folder,
            backup_time: self.backup_time,
            backup_number: self.backup_number,
            snapshot_name: self.snapshot_name,
            profile: self.profile,
        }
    }

    /// The state after loading the profile `p`: every profile field taken from
    /// `p`, the rest kept.
    pub open spec fn loaded(self, p: ProfileModel) -> StateModel {
        StateModel {
            input_folder: p.input_folder,
            backup_folder: p.backup_folder,
            snapshot_folder: p.snapshot_folder,
            backup_time: p.backup_time,
            backup_number: p.backup_number,
            snapshot_name: p.snapshot_name,
            profile: p.profile,
            ..self
        }
    }

    /// The state after choosing `folder` in the role `role`: "input",
    /// "backup" or "snapshot"; another role changes nothing.
    pub open spec fn chose_folder(self, role: Seq<char>, folder: Seq<char>) -> StateModel {
        if role == "input"@ {
            StateModel { input_folder: folder, ..self }
        } else if role == "backup"@ {
            StateModel { backup_folder: folder, ..self }
        } else if role == "snapshot"@ {
            StateModel { snapshot_folder: folder, ..self }
        } else {
            self
        }
    }

    /// Whether choosing `folder` in the role `role` is refused because it is
    /// the input folder.
    pub open spec fn folder_clashes(self, role: Seq<char>, folder: Seq<char>) -> bool {
        role != "input"@ && folder == self.input_folder
    }

    /// The state after starting (or, with `status` false, stopping) backups.
    pub open spec fn started(self, backup_time: u32, backup_number: u32, status: bool) -> StateModel {
        StateModel {
            backup_time,
            backup_number,
            count: (self.count + 1) as u32,
            backup_status: status,
            ..self
        }
    }

    /// The state after the form fields of `data` are taken over before a save.
    pub open spec fn staged(self, data: ProfileModel) -> StateModel {
        StateModel {
            backup_time: data.backup_time,
            backup_number: data.backup_number,
            snapshot_name: data.snapshot_name,
            ..self
        }
    }

    /// The text written to the configuration when the application closes.
    pub open spec fn config_text(self) -> Seq<char> {
        self.profile
    }

    /// The profile name that start-up takes from configuration text `config`.
    pub open spec fn adopted_profile(self, config: Option<Seq<char>>) -> Seq<char> {
        match config {
            Some(text) => trim_spec(text),
            None => self.profile,
        }
    }
}

/// The outcome of setting the input field named `field` to `value` in state `m`.
pub open spec fn field_update(m: StateModel, field: Seq<char>, value: U32OrString) -> Result<
    StateModel,
    AppError,
> {
    if field == "backup_time"@ {
        match value {
            U32OrString::Number(n) => Ok(StateModel { backup_time: n, ..m }),
            U32OrString::Text(_) => Err(AppError::BackupTimeNotNumber),
        }
    } else if field == "backup_number"@ {
        match value {
            U32OrString::Number(n) => Ok(StateModel { backup_number: n, ..m }),
            U32OrString::Text(_) => Err(AppError::BackupNumberNotNumber),
        }
    } else if field == "snapshot_name"@ {
        match value {
            U32OrString::Text(s) => Ok(StateModel { snapshot_name: s@, ..m }),
            U32OrString::Number(_) => Err(AppError::SnapshotNameNotText),
        }
    } else {
        Err(AppError::InvalidField)
    }
}

/// A snapshot to take: copy the folder `source` into the folder named
/// `entry` inside `folder`.
#[derive(Debug, Clone, PartialEq, Eq)]
pub struct SnapshotJob {
    pub source: String,
    pub folder: String,
    pub entry: String,
}

/// Where a profile save goes.
#[derive(Debug, Clone, PartialEq, Eq)]
pub enum SaveTarget {
    /// A new file, to be chosen in a save dialog.
    NewFile,
    /// The file of the current profile, named here.
    Existing(String),
}

/// The dialog that a profile request opens.
#[derive(Debug, Clone, PartialEq, Eq)]
pub enum PickerKind {
    /// A save dialog for a new profile file.
    SaveDialog,
    /// An open dialog for an existing profile file.
    OpenDialog,
    /// No dialog: the given text is the answer.
    Fixed(String),
}

/// The dialog that the profile request `request` opens: "new" a save dialog,
/// "load" an open dialog, anything else none, with the answer "Error".
pub fn picker_kind(request: &str) -> (k: PickerKind)
    ensures
        request@ == "new"@ ==> k == PickerKind::SaveDialog,
        request@ == "load"@ ==> k == PickerKind::OpenDialog,
        request@ != "new"@ && request@ != "load"@ ==> (k matches PickerKind::Fixed(t) && t@
            == "Error"@),
{
    proof {
        reveal_strlit("new");
        reveal_strlit("load");
        assert("new"@.len() != "load"@.len());
    }
    if same_text(request, "new") {
        PickerKind::SaveDialog
    } else if same_text(request, "load") {
        PickerKind::OpenDialog
    } else {
        PickerKind::Fixed(String::from_str("Error"))
    }
}

/// Whether `request` asks to load a profile: only "load" does.
pub fn check_load_request(request: &str) -> (r: Result<(), AppError>)
    ensures
        request@ == "load"@ ==> r == Ok::<(), AppError>(()),
        request@ != "load"@ ==> r == Err::<(), AppError>(AppError::UnknownRequest),
{
    if same_text(request, "load") {
        Ok(())
    } else {
        Err(AppError::UnknownRequest)
    }
}

/// The profile file to load, given what the open dialog gave.
pub fn loaded_path(picked: Option<String>) -> (r: Result<String, AppError>)
    ensures
        picked is None ==> r == Err::<String, AppError>(AppError::ProfileLoadFailed),
        picked matches Some(p) ==> r == Ok::<String, AppError>(p),
{
    match picked {
        Some(p) => Ok(p),
        None => Err(AppError::ProfileLoadFailed),
    }
}

/// Whether `c` separates path components on every platform ('/') or on some
/// ('\\').
pub open spec fn path_separator(c: char) -> bool {
    c == '/' || c == '\\'
}

/// Whether `n` is a path component that reads as an ordinary name on every
/// platform: not empty, neither "." nor "..", and holding no separator and no
/// ':' (which names a drive on some platforms).
pub open spec fn plain_component(n: Seq<char>) -> bool {
    &&& n.len() > 0
    &&& n != "."@
    &&& n != ".."@
    &&& forall|i: int| 0 <= i < n.len() ==> !path_separator(#[trigger] n[i]) && n[i] != ':'
}

/// Whether `p` begins with two separators, which some platforms read as the
/// prefix of a network share or a device.
pub open spec fn two_leading_separators(p: Seq<char>) -> bool {
    p.len() >= 2 && path_separator(p[0]) && path_separator(p[1])
}

/// Whether `n` is the final component of `p` on every platform: `p` ends with
/// '/' followed by the plain component `n`, and does not begin with two
/// separators.
pub open spec fn ends_in_component(p: Seq<char>, n: Seq<char>) -> bool {
    &&& plain_component(n)
    &&& !two_leading_separators(p)
    &&& exists|q: Seq<char>| p == q + seq!['/'] + n
}

/// Whether `p` ends in '/' and a plain component, and does not begin with
/// two separators.
pub open spec fn has_plain_final_component(p: Seq<char>) -> bool {
    exists|n: Seq<char>| ends_in_component(p, n)
}

/// Whether `p` ends in the plain component `n`, standing alone or after a
/// separator ('/', or '\\' where the platform takes it as one), and does not
/// begin with two separators.
pub open spec fn ends_in_name(p: Seq<char>, n: Seq<char>) -> bool {
    &&& plain_component(n)
    &&& !two_leading_separators(p)
    &&& n.is_suffix_of(p)
    &&& (p.len() == n.len() || path_separator(p[p.len() - n.len() - 1]))
}

/// A path has at most one plain final component.
proof fn lemma_final_component_unique(p: Seq<char>, a: Seq<char>, b: Seq<char>)
    requires
        ends_in_component(p, a),
        ends_in_component(p, b),
    ensures
        a == b,
{
    let qa = choose|q: Seq<char>| p == q + seq!['/'] + a;
    let qb = choose|q: Seq<char>| p == q + seq!['/'] + b;
    assert(p == qa + seq!['/'] + a);
    assert(p == qb + seq!['/'] + b);
    assert(p.len() == qa.len() + 1 + a.len());
    assert(p.len() == qb.len() + 1 + b.len());
    assert forall|i: int| qa.len() < i < p.len() implies p[i] == a[i - qa.len() - 1] by {
        assert((qa + seq!['/'] + a)[i] == a[i - qa.len() - 1]);
    }
    assert forall|i: int| qb.len() < i < p.len() implies p[i] == b[i - qb.len() - 1] by {
        assert((qb + seq!['/'] + b)[i] == b[i - qb.len() - 1]);
    }
    assert(p[qa.len() as int] == '/') by {
        assert((qa + seq!['/'] + a)[qa.len() as int] == '/');
    }
    assert(p[qb.len() as int] == '/') by {
        assert((qb + seq!['/'] + b)[qb.len() as int] == '/');
    }
    if a.len() < b.len() {
        let k = qa.len() as int;
        assert(p[k] == '/');
        assert(p[k] == b[k - qb.len() - 1]);
        assert(!path_separator(b[k - qb.len() - 1]));
    } else if b.len() < a.len() {
        let k = qb.len() as int;
        assert(p[k] == '/');
        assert(p[k] == a[k - qa.len() - 1]);
        assert(!path_separator(a[k - qa.len() - 1]));
    } else {
        assert(a =~= p.subrange(qa.len() as int + 1, p.len() as int));
        assert(b =~= p.subrange(qb.len() as int + 1, p.len() as int));
    }
}

/// Trusted: `Path::file_name` on the path `path`, as text: the final component
/// of the path, `None` where it has none. '/' separates components on every
/// platform, and components are never empty, so a name given holds no '/'
/// and is not empty, and a path that ends in '/' and a plain component names
/// that component. A path that ends in a plain component, alone or after '/'
/// or '\\', has a final component on every platform, which is a suffix of the
/// path and ends with that plain component: that component itself where '\\'
/// separates, longer where it does not. What the final component is otherwise
/// depends on the path syntax of the platform and is left unsaid.
#[verifier::external_body]
fn final_component(path: &str) -> (r: Option<String>)
    ensures
        r matches Some(name) ==> name@.len() > 0 && !name@.contains('/') && (
        has_plain_final_component(path@) ==> ends_in_component(path@, name@)),
        r matches Some(name) ==> forall|n: Seq<char>| #[trigger]
            ends_in_name(path@, n) ==> n.is_suffix_of(name@) && name@.is_suffix_of(path@),
        r is None ==> !has_plain_final_component(path@) && forall|n: Seq<char>|
            !#[trigger] ends_in_name(path@, n),
{
    match std::path::Path::new(path).file_name() {
        Some(name) => Some(name.to_string_lossy().into_owned()),
        None => None,
    }
}

/// The state of the application.
#[derive(Debug)]
pub struct AppState {
    pub count: u32,
    pub input_folder: String,
    pub backup_folder: String,
    pub snapshot_folder: String,
    pub backup_time: u32,
    pub backup_number: u32,
    pub backup_status: bool,
    pub snapshot_name: String,
    pub profile: String,
}

impl View for AppState {
    type V = StateModel;

    open spec fn view(&self) -> StateModel {
        StateModel {
            count: self.count,
            input_folder: self.input_folder@,
            backup_folder: self.backup_folder@,
            snapshot_folder: self.snapshot_folder@,
            backup_time: self.backup_time,
            backup_number: self.backup_number,
            backup_status: self.backup_status,
            snapshot_name: self.snapshot_name@,
            profile: self.profile@,
        }
    }
}

impl Default for AppState {
    /// The state at start-up.
    fn default() -> (s: Self)
        ensures
            s@ == StateModel::initial(),
    {
        AppState::new()
    }
}

impl AppState {
    /// The state at start-up.
    pub fn new() -> (s: Self)
        ensures
            s@ == StateModel::initial(),
    {
        AppState {
            count: 0,
            input_folder: String::new(),
            backup_folder: String::new(),
            snapshot_folder: String::new(),
            backup_time: 0,
            backup_number: 0,
            backup_status: false,
            snapshot_name: String::new(),
            profile: String::new(),
        }
    }

    /// The profile fields of the state, as a profile.
    pub fn current_profile(&self) -> (p: AppProfile)
        ensures
            p@ == self@.profile_model(),
    {
        AppProfile {
            input_folder: self.input_folder.clone(),
            backup_folder: self.backup_folder.clone(),
            snapshot_folder: self.snapshot_folder.clone(),
            backup_time: self.backup_time,
            backup_number: self.backup_number,
            snapshot_name: self.snapshot_name.clone(),
            profile: self.profile.clone(),
        }
    }

    /// Takes every profile field from `p`.
    pub fn apply_profile(&mut self, p: &AppProfile)
        ensures
            final(self)@ == old(self)@.loaded(p@),
    {
        self.input_folder = p.input_folder.clone();
        self.backup_folder = p.backup_folder.clone();
        self.snapshot_folder = p.snapshot_folder.clone();
        self.backup_time = p.backup_time;
        self.backup_number = p.backup_number;
        self.snapshot_name = p.snapshot_name.clone();
        self.profile = p.profile.clone();
    }

    /// Sets the input field named `field` ("backup_time", "backup_number" or
    /// "snapshot_name") to `value`; refused where the field is unknown or the
    /// value has the wrong kind, and then the state is unchanged.
    pub fn set_input_field(&mut self, field: &str, value: U32OrString) -> (r: Result<bool, AppError>)
        ensures
            match field_update(old(self)@, field@, value) {
                Ok(m) => r == Ok::<bool, AppError>(true) && final(self)@ == m,
                Err(e) => r == Err::<bool, AppError>(e) && final(self)@ == old(self)@,
            },
    {
        if same_text(field, "backup_time") {
            match value {
                U32OrString::Number(n) => {
                    self.backup_time = n;
                },
                U32OrString::Text(_) => {
                    return Err(AppError::BackupTimeNotNumber);
                },
            }
        } else if same_text(field, "backup_number") {
            match value {
                U32OrString::Number(n) => {
                    self.backup_number = n;
                },
                U32OrString::Text(_) => {
                    return Err(AppError::BackupNumberNotNumber);
                },
            }
        } else if same_text(field, "snapshot_name") {
            match value {
                U32OrString::Text(s) => {
                    self.snapshot_name = s;
                },
                U32OrString::Number(_) => {
                    return Err(AppError::SnapshotNameNotText);
                },
            }
        } else {
            return Err(AppError::InvalidField);
        }
        Ok(true)
    }

    /// Takes the folder `folder` that a dialog gave (`None`: none) in the role
    /// `role`: "input", "backup" or "snapshot". A folder other than the
    /// input folder that is the input folder is refused; a missing folder is
    /// refused; otherwise the folder is returned.
    pub fn select_folder(&mut self, role: &str, folder: Option<String>) -> (r: Result<
        String,
        AppError,
    >)
        requires
            role@ == "input"@ || folder is Some,
        ensures
            match folder {
                None => r == Err::<String, AppError>(AppError::PathFetch) && final(self)@
                    == old(self)@,
                Some(f) => if old(self)@.folder_clashes(role@, f@) {
                    (r matches Err(AppError::SameAsInput { role: x }) && x@ == role@)
                        && final(self)@ == old(self)@
                } else {
                    (r matches Ok(p) && p@ == f@) && final(self)@ == old(self)@.chose_folder(
                        role@,
                        f@,
                    )
                },
            },
    {
        let is_input = same_text(role, "input");
        match folder {
            Some(f) => {
                if !is_input && f == self.input_folder {
                    return Err(AppError::SameAsInput { role: String::from_str(role) });
                }
                if is_input {
                    self.input_folder = f.clone();
                } else if same_text(role, "backup") {
                    self.backup_folder = f.clone();
                } else if same_text(role, "snapshot") {
                    self.snapshot_folder = f.clone();
                }
                Ok(f)
            },
            None => Err(AppError::PathFetch),
        }
    }

    /// Records `name` as the snapshot name and gives the snapshot to take:
    /// the input folder copied under that name into the snapshot folder.
    pub fn begin_snapshot(&mut self, name: &str) -> (job: SnapshotJob)
        ensures
            final(self)@ == (StateModel { snapshot_name: name@, ..old(self)@ }),
            job.source@ == old(self)@.input_folder,
            job.folder@ == old(self)@.snapshot_folder,
            job.entry@ == name@,
    {
        self.snapshot_name = String::from_str(name);
        SnapshotJob {
            source: self.input_folder.clone(),
            folder: self.snapshot_folder.clone(),
            entry: String::from_str(name),
        }
    }

    /// Starts backups (or stops them, with `status` false): records the
    /// interval and count, moves the start counter on, so that a schedule
    /// already running stops, and, where `status` holds, gives the new
    /// schedule, which copies the input folder.
    pub fn start_backup(&mut self, backup_time: u32, backup_number: u32, status: bool) -> (r:
        Option<BackupLoop>)
        requires
            old(self).count < u32::MAX,
        ensures
            final(self)@ == old(self)@.started(backup_time, backup_number, status),
            r is Some <==> status,
            r matches Some(l) ==> l@ == LoopModel::fresh(final(self).count, backup_time, backup_number)
                && l.source_spec() == old(self)@.input_folder,
    {
        self.backup_time = backup_time;
        self.backup_number = backup_number;
        self.count = self.count + 1;
        self.backup_status = status;
        if status {
            Some(BackupLoop::new(self.input_folder.clone(), self.count, backup_time, backup_number))
        } else {
            None
        }
    }

    /// Takes the form fields of `data` (interval, count and snapshot name)
    /// before a save, and gives the profile to be saved: those fields with the
    /// folders and the profile name of the state.
    pub fn stage_profile(&mut self, data: &AppProfile) -> (p: AppProfile)
        ensures
            final(self)@ == old(self)@.staged(data@),
            p@ == final(self)@.profile_model(),
    {
        self.backup_time = data.backup_time;
        self.backup_number = data.backup_number;
        self.snapshot_name = data.snapshot_name.clone();
        self.current_profile()
    }

    /// Where the save request `request` goes: "new" to a file chosen in a
    /// dialog, "save" to the current profile's file, refused where no profile
    /// is selected; any other request is refused.
    pub fn save_target(&self, request: &str) -> (r: Result<SaveTarget, AppError>)
        ensures
            request@ == "new"@ ==> r == Ok::<SaveTarget, AppError>(SaveTarget::NewFile),
            request@ == "save"@ && self@.profile.len() == 0 ==> r == Err::<SaveTarget, AppError>(
                AppError::NoProfileSelected,
            ),
            request@ == "save"@ && self@.profile.len() != 0 ==> (r matches Ok(
                SaveTarget::Existing(name),
            ) && name@ == self@.profile),
            request@ != "new"@ && request@ != "save"@ ==> r == Err::<SaveTarget, AppError>(
                AppError::UnknownRequest,
            ),
    {
        proof {
            reveal_strlit("new");
            reveal_strlit("save");
            assert("new"@.len() != "save"@.len());
        }
        if same_text(request, "new") {
            Ok(SaveTarget::NewFile)
        } else if same_text(request, "save") {
            if self.profile.unicode_len() == 0 {
                Err(AppError::NoProfileSelected)
            } else {
                Ok(SaveTarget::Existing(self.profile.clone()))
            }
        } else {
            Err(AppError::UnknownRequest)
        }
    }

    /// Names the new profile after the file that the save dialog gave:
    /// `picked` is `None` where the dialog gave no file, and otherwise the
    /// file's last path component, if it has one ("unknown" where not). The
    /// name becomes the current profile and the name in `data`.
    pub fn name_new_profile(&mut self, data: &mut AppProfile, picked: Option<Option<String>>) -> (r:
        Result<String, AppError>)
        ensures
            picked is None ==> r == Err::<String, AppError>(AppError::ProfileSaveAsFailed)
                && final(self)@ == old(self)@ && final(data)@ == old(data)@,
            picked matches Some(file_name) ==> {
                let name = match file_name {
                    Some(n) => n@,
                    None => "unknown"@,
                };
                &&& r matches Ok(s) && s@ == name
                &&& final(self)@ == (StateModel { profile: name, ..old(self)@ })
                &&& final(data)@ == (ProfileModel { profile: name, ..old(data)@ })
            },
    {
        match picked {
            None => Err(AppError::ProfileSaveAsFailed),
            Some(file_name) => {
                let name = match file_name {
                    Some(n) => n,
                    None => String::from_str("unknown"),
                };
                self.profile = name.clone();
                data.profile = name.clone();
                Ok(name)
            },
        }
    }

    /// Names the new profile after the file `picked` that the save dialog gave
    /// (`None`: no file): the file's final path component, or "unknown" where
    /// it has none. The name becomes the current profile and the name in
    /// `data`; a missing file is refused.
    pub fn name_new_profile_from_path(&mut self, data: &mut AppProfile, picked: Option<String>) -> (r:
        Result<String, AppError>)
        ensures
            picked is None ==> r == Err::<String, AppError>(AppError::ProfileSaveAsFailed)
                && final(self)@ == old(self)@ && final(data)@ == old(data)@,
            picked is Some ==> (r matches Ok(name) && final(self)@ == (StateModel {
                profile: name@,
                ..old(self)@
            }) && final(data)@ == (ProfileModel { profile: name@, ..old(data)@ })),
            forall|p: String, n: Seq<char>|
                picked == Some(p) && #[trigger] ends_in_component(p@, n) ==> (r matches Ok(name)
                    && name@ == n),
            forall|p: String, n: Seq<char>|
                picked == Some(p) && #[trigger] ends_in_name(p@, n) ==> (r matches Ok(name)
                    && n.is_suffix_of(name@) && name@.is_suffix_of(p@)),
            r matches Ok(name) ==> name@.len() > 0 && !name@.contains('/'),
    {
        proof {
            reveal_strlit("unknown");
            assert("unknown"@[0] != '/' && "unknown"@[1] != '/' && "unknown"@[2] != '/'
                && "unknown"@[3] != '/' && "unknown"@[4] != '/' && "unknown"@[5] != '/'
                && "unknown"@[6] != '/');
        }
        let file_name = match picked {
            Some(path) => {
                let name = final_component(path.as_str());
                proof {
                    assert forall|n: Seq<char>| #[trigger] ends_in_component(path@, n) implies (name matches Some(
                        m,
                    ) && m@ == n) by {
                        let m = name->0;
                        lemma_final_component_unique(path@, m@, n);
                    }
                }
                Some(name)
            },
            None => None,
        };
        self.name_new_profile(data, file_name)
    }

    /// Takes the profile name from the configuration text `config` read at
    /// start-up (`None`: none could be read, and the name is kept), with
    /// surrounding white space removed; refused where the name is empty.
    pub fn adopt_config(&mut self, config: Option<String>) -> (r: Result<String, AppError>)
        ensures
            final(self)@ == (StateModel {
                profile: old(self)@.adopted_profile(
                    match config {
                        Some(t) => Some(t@),
                        None => None,
                    },
                ),
                ..old(self)@
            }),
            final(self)@.profile.len() == 0 ==> r == Err::<String, AppError>(
                AppError::NoProfileInConfig,
            ),
            final(self)@.profile.len() != 0 ==> (r matches Ok(p) && p@ == final(self)@.profile),
    {
        match config {
            Some(text) => {
                self.profile = trim(text.as_str());
            },
            None => {},
        }
        if self.profile.unicode_len() == 0 {
            Err(AppError::NoProfileInConfig)
        } else {
            Ok(self.profile.clone())
        }
    }

    /// The text written to the configuration when the application closes: the
    /// name of the current profile.
    pub fn config_text(&self) -> (t: String)
        ensures
            t@ == self@.config_text(),
    {
        self.profile.clone()
    }
}

} // verus!
