use vstd::prelude::*;

use crate::files::{displays, find_same_file, has_same_file, sort_files, LoadedFile};
use crate::game_data::GameData;
use crate::message_result::MessageResult;
use crate::notification::{Notification, NotificationSentiment};
use crate::profile_state::{
    keys_edit, profile_edit, profile_general_edit,
    map_all_states_to_profile, profile_violation, ProfileFile, ProfileGeneralInteractionMessage, ProfileInteractionMessage,
    ProfileKeysInteractionMessage, ProfileModel, ProfileViewState,
};
use crate::save_state::{
    character_edit, currency_edit, general_edit, vehicle_edit,
    map_all_states_to_save, save_violation, Platform, PlayerClass, SaveCharacterInteractionMessage, SaveCurrencyInteractionMessage,
    SaveFile, SaveGeneralInteractionMessage, SaveModel, SaveVehicleInteractionMessage,
    SaveViewState,
};

verus! {

#[derive(Debug, Clone, Copy, PartialEq, Eq, Structural)]
pub enum SaveTabBarView {
    General,
    Character,
    Inventory,
    Currency,
    Vehicle,
    Settings,
}

#[derive(Debug, Clone, Copy, PartialEq, Eq, Structural)]
pub enum ProfileTabBarView {
    General,
    Profile,
    Keys,
    Bank,
    Settings,
}

/// The active top-level screen.
#[derive(Debug, Clone, Copy, PartialEq, Eq, Structural)]
pub enum ViewState {
    Initializing,
    Loading,
    ChooseSaveDirectory,
    ManageSave(SaveTabBarView),
    ManageProfile(ProfileTabBarView),
}

impl Default for ViewState {
    fn default() -> (r: Self)
        ensures
            r == ViewState::ChooseSaveDirectory,
    {
        ViewState::ChooseSaveDirectory
    }
}

/// Smallest and largest UI scale, in percent, and the step between two scales.
pub const MIN_UI_SCALE_PERCENT: u32 = 50;

pub const MAX_UI_SCALE_PERCENT: u32 = 200;

pub const UI_SCALE_STEP_PERCENT: u32 = 5;

/// Persisted settings.
#[derive(Debug, Clone)]
pub struct Config {
    pub saves_dir: String,
    pub backup_dir: String,
    pub config_dir: String,
    /// UI scale factor in percent, within `MIN_UI_SCALE_PERCENT..=MAX_UI_SCALE_PERCENT`.
    pub ui_scale_percent: u32,
}

impl Config {
    pub open spec fn wf(&self) -> bool {
        MIN_UI_SCALE_PERCENT <= self.ui_scale_percent <= MAX_UI_SCALE_PERCENT
    }

    pub open spec fn same_as(&self, o: &Config) -> bool {
        &&& self.saves_dir@ == o.saves_dir@
        &&& self.backup_dir@ == o.backup_dir@
        &&& self.config_dir@ == o.config_dir@
        &&& self.ui_scale_percent == o.ui_scale_percent
    }

    pub fn copy(&self) -> (r: Config)
        ensures
            r.same_as(self),
    {
        Config {
            saves_dir: self.saves_dir.clone(),
            backup_dir: self.backup_dir.clone(),
            config_dir: self.config_dir.clone(),
            ui_scale_percent: self.ui_scale_percent,
        }
    }
}

/// The inputs of the settings tab.
#[derive(Debug, Clone)]
pub struct SettingsState {
    pub config_dir_input: String,
    pub backup_dir_input: String,
    pub saves_dir_input: String,
    pub ui_scale_percent: u32,
    pub choose_backup_dir_window_open: bool,
    pub choose_saves_dir_window_open: bool,
}

/// A published release of the editor.
#[derive(Debug, Clone)]
pub struct Release {
    pub tag_name: String,
}

#[derive(Debug, Clone, Copy, PartialEq, Eq, Structural)]
pub enum DirectoryKind {
    Config,
    Backup,
    Saves,
}

/// Asynchronous work that the runtime performs for the controller. Each command's
/// outcome re-enters the controller as the message named beside it.
#[derive(Debug, Clone)]
pub enum Command {
    /// Load startup data, then report whether the remembered saves folder exists
    /// (`Initialization`).
    LoadLazyData { saves_dir: String },
    /// Fetch the latest release (`LatestRelease`).
    GetLatestRelease,
    /// Download and install a release (`UpdateToLatestReleaseCompleted`).
    DownloadRelease(Release),
    /// End the process.
    Exit,
    /// Persist the settings (`Config`).
    SaveConfig(Config),
    /// Let the user pick a saves folder, starting at the given one
    /// (`ChooseSave(ChooseDirCompleted)`).
    ChooseSavesDirectory(String),
    /// Let the user pick a folder from the settings tab
    /// (`Change{Backup,Saves}DirCompleted`).
    ChooseSettingsDirectory(DirectoryKind, String),
    /// Open a folder in the system's file browser (`Open*DirCompleted`).
    OpenDirectory(DirectoryKind, String),
    /// Scan a folder for saves and profiles (`ChooseSave(FilesLoaded)`).
    LoadFilesInDirectory(String),
    /// Generate a random GUID (`Guid` edit of the save's general tab).
    GenerateGuid,
    /// Encode a file to its on-disk bytes (`SerializeCompleted`).
    Serialize { file: LoadedFile, guardian_data_injection_required: bool },
    /// Store the pre-edit bytes of a file in the backup folder under a name that no
    /// earlier backup uses (`BackupCompleted`).
    BackupFile { backup_dir: String, file_name: String, bytes: Vec<u8> },
    /// Write bytes to `<saves_dir>/<file_name>` (`WriteCompleted`).
    WriteFile { saves_dir: String, file_name: String, bytes: Vec<u8> },
    /// Rescan the saves folder after a write (`FilesLoadedAfterSave`).
    LoadFilesAfterSave { saves_dir: String, saved: LoadedFile },
}

#[derive(Debug, Clone)]
pub enum InitializationMessage {
    LoadSaves { saves_dir_exists: bool },
}

#[derive(Debug, Clone)]
pub enum ConfigMessage {
    SaveCompleted(MessageResult<()>),
}

#[derive(Debug, Clone)]
pub enum ChooseSaveMessage {
    ChooseDirCompleted(MessageResult<String>),
    FilesLoaded(MessageResult<(String, Vec<LoadedFile>)>),
}

#[derive(Debug, Clone)]
pub enum ChooseSaveInteractionMessage {
    ChooseDirPressed,
}

#[derive(Debug, Clone)]
pub enum ManageSaveInteractionMessage {
    TabBar(SaveTabBarView),
    General(SaveGeneralInteractionMessage),
    Character(SaveCharacterInteractionMessage),
    Currency(SaveCurrencyInteractionMessage),
    Vehicle(SaveVehicleInteractionMessage),
    SaveFilePressed,
}

#[derive(Debug, Clone)]
pub enum ManageProfileInteractionMessage {
    TabBar(ProfileTabBarView),
    General(ProfileGeneralInteractionMessage),
    Profile(ProfileInteractionMessage),
    Keys(ProfileKeysInteractionMessage),
    SaveProfilePressed,
}

#[derive(Debug, Clone)]
pub enum SettingsInteractionMessage {
    OpenConfigDir,
    OpenConfigDirCompleted(MessageResult<()>),
    OpenBackupDir,
    OpenBackupDirCompleted(MessageResult<()>),
    ChangeBackupDir,
    ChangeBackupDirCompleted(MessageResult<String>),
    OpenSavesDir,
    OpenSavesDirCompleted(MessageResult<()>),
    ChangeSavesDir,
    ChangeSavesDirCompleted(MessageResult<String>),
    DecreaseUIScale,
    IncreaseUIScale,
}

/// A user interaction.
#[derive(Debug, Clone)]
pub enum InteractionMessage {
    ChooseSaveInteraction(ChooseSaveInteractionMessage),
    ManageSaveInteraction(ManageSaveInteractionMessage),
    ManageProfileInteraction(ManageProfileInteractionMessage),
    SettingsInteraction(SettingsInteractionMessage),
    LoadedFileSelected(LoadedFile),
    RefreshSavesDirectory,
    Ignore,
}

/// Every event the controller handles: user interactions and command completions.
#[derive(Debug, Clone)]
pub enum Bl3Message {
    Initialization(InitializationMessage),
    LatestRelease(MessageResult<Release>),
    UpdateToLatestRelease,
    UpdateToLatestReleaseCompleted(MessageResult<()>),
    Config(ConfigMessage),
    Interaction(InteractionMessage),
    ChooseSave(ChooseSaveMessage),
    SerializeCompleted(MessageResult<Vec<u8>>),
    BackupCompleted(MessageResult<()>),
    WriteCompleted(MessageResult<()>),
    FilesLoadedAfterSave(MessageResult<(LoadedFile, Vec<LoadedFile>)>),
    ClearNotification,
}

/// The selected save and its pending edits.
#[derive(Debug, Clone)]
pub struct ManageSaveState {
    pub current_file: SaveFile,
    pub save_view_state: SaveViewState,
}

/// The selected profile and its pending edits.
#[derive(Debug, Clone)]
pub struct ManageProfileState {
    pub current_file: ProfileFile,
    pub profile_view_state: ProfileViewState,
}

#[derive(Debug, Clone, Copy, PartialEq, Eq, Structural)]
pub enum CommitStage {
    /// Waiting for the edited file's bytes.
    Serializing,
    /// Waiting for the backup of the pre-edit bytes.
    BackingUp,
    /// Waiting for the new bytes to be written.
    Writing,
}

/// A commit in flight: the file as it was before the edits, the edited copy, and the
/// edited copy's bytes once they are known.
#[derive(Debug, Clone)]
pub struct PendingCommit {
    pub stage: CommitStage,
    pub previous: LoadedFile,
    pub edited: LoadedFile,
    pub output: Vec<u8>,
}

/// The whole state of the editor's controller.
#[derive(Debug, Clone)]
pub struct Bl3Application {
    pub config: Config,
    pub game_data: GameData,
    pub view_state: ViewState,
    pub choose_dir_window_open: bool,
    pub manage_save_state: ManageSaveState,
    pub manage_profile_state: ManageProfileState,
    pub loaded_files_selected: Option<LoadedFile>,
    pub loaded_files: Vec<LoadedFile>,
    pub notification: Option<Notification>,
    pub latest_release: Option<Release>,
    pub is_updating: bool,
    pub is_reloading_saves: bool,
    pub settings_state: SettingsState,
    pub commit: Option<PendingCommit>,
    /// The screen that was active when the reload after a write began.
    pub view_before_reload: ViewState,
}

fn empty_save_file() -> (r: SaveFile) {
    SaveFile {
        file_name: String::new(),
        platform: Platform::Pc,
        bytes: Vec::new(),
        model: SaveModel {
            guid: String::new(),
            slot: 0,
            character_name: String::new(),
            player_class: PlayerClass::Beastmaster,
            level: 0,
            experience_points: 0,
            ability_points: 0,
            sdu_levels: [0i32; 8],
            ammo: [0i32; 7],
            gear_unlocked: [false; 8],
            head_skin: String::new(),
            character_skin: String::new(),
            echo_theme: String::new(),
            money: 0,
            eridium: 0,
            vehicle_unlocked: [false; 12],
        },
    }
}

fn empty_profile_file() -> (r: ProfileFile) {
    ProfileFile {
        file_name: String::new(),
        platform: Platform::Pc,
        bytes: Vec::new(),
        model: ProfileModel {
            guardian_rank_tokens: 0,
            science_level: 0,
            science_tokens: 0,
            skins_unlocked: [false; 7],
            sdu_levels: [0i32; 2],
            guardian_rewards: [0i32; 18],
            keys: [0i32; 8],
        },
    }
}

impl Bl3Application {
    pub open spec fn wf(&self) -> bool {
        &&& self.config.wf()
        &&& self.game_data.wf()
        &&& MIN_UI_SCALE_PERCENT <= self.settings_state.ui_scale_percent <= MAX_UI_SCALE_PERCENT
    }

    /// The controller at startup: initializing, with the settings tab seeded from
    /// `config`, and two startup commands: load the startup data, and look for a newer
    /// release.
    pub fn new(config: Config, game_data: GameData) -> (r: (Bl3Application, Vec<Command>))
        requires
            config.wf(),
            game_data.wf(),
        ensures
            r.0.wf(),
            r.0.view_state == ViewState::Initializing,
            r.0.config == config,
            r.0.game_data == game_data,
            r.0.settings_state.saves_dir_input@ == config.saves_dir@,
            r.0.settings_state.backup_dir_input@ == config.backup_dir@,
            r.0.settings_state.config_dir_input@ == config.config_dir@,
            r.0.settings_state.ui_scale_percent == config.ui_scale_percent,
            r.0.loaded_files@.len() == 0,
            r.0.loaded_files_selected is None,
            r.0.notification is None,
            r.0.commit is None,
            r.1@.len() == 2,
            r.1@[0] is LoadLazyData && r.1@[0]->LoadLazyData_saves_dir@ == config.saves_dir@,
            r.1@[1] is GetLatestRelease,
    {
        let save = empty_save_file();
        let save_view = SaveViewState::from_file(&save);
        let profile = empty_profile_file();
        let profile_view = ProfileViewState::from_file(&profile);
        let settings_state = SettingsState {
            config_dir_input: config.config_dir.clone(),
            backup_dir_input: config.backup_dir.clone(),
            saves_dir_input: config.saves_dir.clone(),
            ui_scale_percent: config.ui_scale_percent,
            choose_backup_dir_window_open: false,
            choose_saves_dir_window_open: false,
        };
        let mut commands: Vec<Command> = Vec::new();
        commands.push(Command::LoadLazyData { saves_dir: config.saves_dir.clone() });
        commands.push(Command::GetLatestRelease);
        let app = Bl3Application {
            config,
            game_data,
            view_state: ViewState::Initializing,
            choose_dir_window_open: false,
            manage_save_state: ManageSaveState { current_file: save, save_view_state: save_view },
            manage_profile_state: ManageProfileState {
                current_file: profile,
                profile_view_state: profile_view,
            },
            loaded_files_selected: None,
            loaded_files: Vec::new(),
            notification: None,
            latest_release: None,
            is_updating: false,
            is_reloading_saves: false,
            settings_state,
            commit: None,
            view_before_reload: ViewState::Initializing,
        };
        (app, commands)
    }
}

/// The screen after selecting `file`: its domain's screen, keeping the current tab when
/// `keep_tab` holds and that domain is already shown, else the domain's general tab.
pub open spec fn view_after_select(view: ViewState, file: LoadedFile, keep_tab: bool) -> ViewState {
    match file {
        LoadedFile::Save(_) => if keep_tab && view is ManageSave {
            view
        } else {
            ViewState::ManageSave(SaveTabBarView::General)
        },
        LoadedFile::Profile(_) => if keep_tab && view is ManageProfile {
            view
        } else {
            ViewState::ManageProfile(ProfileTabBarView::General)
        },
    }
}

/// `new` is `old` with `file` selected: the file becomes the selection and the current
/// file of its domain, that domain's editable mirror is seeded from it, and the screen
/// switches to that domain. Nothing else changes.
pub open spec fn selected(old: Bl3Application, file: LoadedFile, keep_tab: bool, new: Bl3Application) -> bool {
    &&& new.loaded_files_selected is Some
    &&& new.loaded_files_selected->0.same_as(&file)
    &&& new.view_state == view_after_select(old.view_state, file, keep_tab)
    &&& match file {
        LoadedFile::Save(f) => {
            &&& new.manage_save_state.current_file.same_as(&f)
            &&& new.manage_save_state.save_view_state.mirrors(&f)
            &&& new.manage_profile_state == old.manage_profile_state
        },
        LoadedFile::Profile(f) => {
            &&& new.manage_profile_state.current_file.same_as(&f)
            &&& new.manage_profile_state.profile_view_state.mirrors(&f)
            &&& new.manage_save_state == old.manage_save_state
        },
    }
    &&& new == (Bl3Application {
        loaded_files_selected: new.loaded_files_selected,
        view_state: new.view_state,
        manage_save_state: new.manage_save_state,
        manage_profile_state: new.manage_profile_state,
        ..old
    })
}

/// The registry after a scan of `dir` that found `files`: the files in display order; with
/// none, back to choosing a folder with a failure notice; else the first file selected,
/// the folder remembered, and the settings saved.
pub open spec fn files_loaded(
    old: Bl3Application,
    dir: String,
    files: Seq<LoadedFile>,
    new: Bl3Application,
    r: Option<Command>,
) -> bool {
    &&& displays(files, new.loaded_files@)
    &&& if files.len() == 0 {
        &&& new.view_state == ViewState::ChooseSaveDirectory
        &&& new.notification is Some
        &&& new.notification->0.sentiment == NotificationSentiment::Negative
        &&& new == (Bl3Application {
            loaded_files: new.loaded_files,
            view_state: new.view_state,
            notification: new.notification,
            loaded_files_selected: None,
            ..old
        })
        &&& r is None
    } else {
        &&& new.config == (Config { saves_dir: dir, ..old.config })
        &&& new.settings_state == (SettingsState {
            saves_dir_input: new.settings_state.saves_dir_input,
            ..old.settings_state
        })
        &&& new.settings_state.saves_dir_input@ == dir@
        &&& selected(
            Bl3Application {
                loaded_files: new.loaded_files,
                config: new.config,
                settings_state: new.settings_state,
                ..old
            },
            new.loaded_files@[0],
            true,
            new,
        )
        &&& r is Some && r->0 is SaveConfig && r->0->SaveConfig_0.same_as(&new.config)
    }
}

/// The registry after the rescan that follows a write of `saved`: the files in display
/// order. The written file is selected again, on the screen that was shown before the
/// reload, when the rescan holds it; otherwise the first file is selected on its
/// domain's general tab. With no file at all, back to choosing a folder.
#[verifier::opaque]
pub open spec fn reloaded_after_save(
    old: Bl3Application,
    saved: LoadedFile,
    files: Seq<LoadedFile>,
    new: Bl3Application,
) -> bool {
    let mid = Bl3Application {
        loaded_files: new.loaded_files,
        is_reloading_saves: false,
        ..old
    };
    &&& displays(files, new.loaded_files@)
    &&& !new.is_reloading_saves
    &&& if files.len() == 0 {
        &&& new.view_state == ViewState::ChooseSaveDirectory
        &&& new.notification is Some
        &&& new.notification->0.sentiment == NotificationSentiment::Negative
        &&& new == (Bl3Application {
            view_state: new.view_state,
            notification: new.notification,
            loaded_files_selected: None,
            ..mid
        })
    } else if has_same_file(files, saved) {
        exists|i: int|
            0 <= i < new.loaded_files@.len() && (#[trigger] new.loaded_files@[i]).same_file(&saved)
                && selected(
                Bl3Application { view_state: old.view_before_reload, ..mid },
                new.loaded_files@[i],
                true,
                new,
            )
    } else {
        selected(mid, new.loaded_files@[0], false, new)
    }
}

/// Selecting a copy of a file is selecting the file itself.
pub proof fn lemma_selected_copy(
    old: Bl3Application,
    a: LoadedFile,
    b: LoadedFile,
    keep_tab: bool,
    new: Bl3Application,
)
    requires
        selected(old, a, keep_tab, new),
        a.same_as(&b),
    ensures
        selected(old, b, keep_tab, new),
{
    assert(view_after_select(old.view_state, a, keep_tab) == view_after_select(
        old.view_state,
        b,
        keep_tab,
    ));
}

impl Bl3Application {
    /// Selects `file` (see `selected`).
    pub fn select_file(&mut self, file: LoadedFile, keep_tab: bool)
        ensures
            selected(*old(self), file, keep_tab, *final(self)),
    {
        match &file {
            LoadedFile::Save(f) => {
                self.manage_save_state = ManageSaveState {
                    current_file: f.copy(),
                    save_view_state: SaveViewState::from_file(f),
                };
                if !(keep_tab && matches!(self.view_state, ViewState::ManageSave(_))) {
                    self.view_state = ViewState::ManageSave(SaveTabBarView::General);
                }
            },
            LoadedFile::Profile(f) => {
                self.manage_profile_state = ManageProfileState {
                    current_file: f.copy(),
                    profile_view_state: ProfileViewState::from_file(f),
                };
                if !(keep_tab && matches!(self.view_state, ViewState::ManageProfile(_))) {
                    self.view_state = ViewState::ManageProfile(ProfileTabBarView::General);
                }
            },
        }
        let selection = file.copy();
        self.loaded_files_selected = Some(selection);
    }

    /// Takes in the result of a scan of `dir` (see `files_loaded`).
    pub fn on_files_loaded(&mut self, dir: String, files: Vec<LoadedFile>) -> (r: Option<Command>)
        ensures
            files_loaded(*old(self), dir, files@, *final(self), r),
    {
        let ghost files_g = files@;
        let ghost dir_g = dir;
        let sorted = sort_files(files);
        self.loaded_files = sorted;
        if self.loaded_files.len() == 0 {
            self.view_state = ViewState::ChooseSaveDirectory;
            self.loaded_files_selected = None;
            self.notification = Some(
                Notification::new(
                    String::from_str("No save or profile was found in the selected folder."),
                    NotificationSentiment::Negative,
                ),
            );
            assert(displays(files_g, self.loaded_files@));
            assert(files_g.len() == 0) by {
                if files_g.len() > 0 {
                    assert(has_same_file(self.loaded_files@, files_g[0]));
                }
            };
            None
        } else {
            self.settings_state.saves_dir_input = dir.clone();
            self.config.saves_dir = dir;
            let first = self.loaded_files[0].copy();
            let ghost mid = *self;
            self.select_file(first, true);
            proof {
                lemma_selected_copy(mid, first, self.loaded_files@[0], true, *self);
                assert(mid == (Bl3Application {
                    loaded_files: self.loaded_files,
                    config: self.config,
                    settings_state: self.settings_state,
                    ..*old(self)
                }));
                assert(files_g.len() > 0);
            }
            Some(Command::SaveConfig(self.config.copy()))
        }
    }

    /// Takes in the rescan that follows a write of `saved` (see `reloaded_after_save`).
    pub fn on_files_loaded_after_save(&mut self, saved: LoadedFile, files: Vec<LoadedFile>)
        requires
            old(self).wf(),
        ensures
            final(self).wf(),
            reloaded_after_save(*old(self), saved, files@, *final(self)),
    {
        proof {
            reveal(reloaded_after_save);
        }
        let ghost files_seq = files@;
        let sorted = sort_files(files);
        self.loaded_files = sorted;
        self.is_reloading_saves = false;
        if self.loaded_files.len() == 0 {
            self.view_state = ViewState::ChooseSaveDirectory;
            self.loaded_files_selected = None;
            self.notification = Some(
                Notification::new(
                    String::from_str("No save or profile was found after saving."),
                    NotificationSentiment::Negative,
                ),
            );
            assert(files_seq.len() == 0) by {
                if files_seq.len() > 0 {
                    assert(has_same_file(self.loaded_files@, files_seq[0]));
                }
            };
        } else {
            match find_same_file(&self.loaded_files, &saved) {
                Some(i) => {
                    let found = self.loaded_files[i].copy();
                    self.view_state = self.view_before_reload;
                    let ghost mid = *self;
                    self.select_file(found, true);
                    proof {
                        lemma_selected_copy(mid, found, self.loaded_files@[i as int], true, *self);
                        assert(files_seq.len() > 0);
                        assert(mid == (Bl3Application {
                            view_state: old(self).view_before_reload,
                            loaded_files: self.loaded_files,
                            is_reloading_saves: false,
                            ..*old(self)
                        }));
                        assert(has_same_file(files_seq, saved)) by {
                            assert(files_seq.contains(self.loaded_files@[i as int]));
                            let k = choose|k: int|
                                0 <= k < files_seq.len() && files_seq[k] == self.loaded_files@[i as int];
                            assert(saved.same_file(&files_seq[k]));
                        };
                    }
                },
                None => {
                    let first = self.loaded_files[0].copy();
                    let ghost mid = *self;
                    self.select_file(first, false);
                    proof {
                        lemma_selected_copy(mid, first, self.loaded_files@[0], false, *self);
                        assert(files_seq.len() > 0);
                        if has_same_file(files_seq, saved) {
                            let k = choose|k: int|
                                0 <= k < files_seq.len() && saved.same_file(&#[trigger] files_seq[k]);
                            assert(has_same_file(self.loaded_files@, files_seq[k]));
                            let j = choose|j: int|
                                0 <= j < self.loaded_files@.len() && files_seq[k].same_file(
                                    &#[trigger] self.loaded_files@[j],
                                );
                            assert(!self.loaded_files@[j].same_file(&saved));
                        }
                    }
                },
            }
        }
    }
}

/// `new` is `old` with a failure notice raised and nothing else changed.
pub open spec fn failed_with_notice(old: Bl3Application, new: Bl3Application) -> bool {
    &&& new.notification is Some
    &&& new.notification->0.sentiment == NotificationSentiment::Negative
    &&& new == (Bl3Application { notification: new.notification, ..old })
}

/// A commit of the selected save: refused while another commit is in flight; aborted,
/// with nothing written, when the pending edits break a rule; otherwise the edits are
/// applied to a copy of the current save and that copy is handed out to be encoded.
pub open spec fn save_commit_started(old: Bl3Application, new: Bl3Application, r: Option<Command>) -> bool {
    let state = old.manage_save_state;
    if old.commit is Some || save_violation(state.save_view_state.fields, old.game_data) is Some {
        failed_with_notice(old, new) && r is None
    } else {
        &&& new.commit is Some
        &&& new.commit->0.stage == CommitStage::Serializing
        &&& new.commit->0.previous.same_as(&LoadedFile::Save(state.current_file))
        &&& new.commit->0.edited is Save
        &&& new.commit->0.edited->Save_0.mapped_from(&state.save_view_state, &state.current_file)
        &&& new.commit->0.output@.len() == 0
        &&& new == (Bl3Application { commit: new.commit, ..old })
        &&& r is Some && r->0 is Serialize
        &&& r->0->Serialize_file.same_as(&new.commit->0.edited)
        &&& !r->0->Serialize_guardian_data_injection_required
    }
}

/// A commit of the selected profile, as for a save; the encoding is also told whether the
/// guardian rewards changed.
pub open spec fn profile_commit_started(old: Bl3Application, new: Bl3Application, r: Option<Command>) -> bool {
    let state = old.manage_profile_state;
    if old.commit is Some || profile_violation(state.profile_view_state.fields, old.game_data) is Some {
        failed_with_notice(old, new) && r is None
    } else {
        &&& new.commit is Some
        &&& new.commit->0.stage == CommitStage::Serializing
        &&& new.commit->0.previous.same_as(&LoadedFile::Profile(state.current_file))
        &&& new.commit->0.edited is Profile
        &&& new.commit->0.edited->Profile_0.mapped_from(
            &state.profile_view_state,
            &state.current_file,
        )
        &&& new.commit->0.output@.len() == 0
        &&& new == (Bl3Application { commit: new.commit, ..old })
        &&& r is Some && r->0 is Serialize
        &&& r->0->Serialize_file.same_as(&new.commit->0.edited)
        &&& r->0->Serialize_guardian_data_injection_required == (
        state.profile_view_state.fields.guardian_rewards@
            != state.current_file.model.guardian_rewards@)
    }
}

/// The commit in flight, if it is at `stage`.
pub open spec fn pending_at(app: Bl3Application, stage: CommitStage) -> bool {
    app.commit is Some && app.commit->0.stage == stage
}

/// The encoding of the edited file finished: on success the commit keeps the bytes and
/// asks for a backup of the pre-edit bytes; on failure the commit is dropped with a
/// notice. A completion that no commit awaits changes nothing.
pub open spec fn serialize_completed(
    old: Bl3Application,
    res: MessageResult<Vec<u8>>,
    new: Bl3Application,
    r: Option<Command>,
) -> bool {
    if pending_at(old, CommitStage::Serializing) {
        let p = old.commit->0;
        match res {
            MessageResult::Success(bytes) => {
                &&& new == (Bl3Application {
                    commit: Some(PendingCommit { stage: CommitStage::BackingUp, output: bytes, ..p }),
                    ..old
                })
                &&& r is Some && r->0 is BackupFile
                &&& r->0->BackupFile_backup_dir@ == old.config.backup_dir@
                &&& r->0->BackupFile_file_name@ == p.previous.name()
                &&& r->0->BackupFile_bytes@ == p.previous.disk_bytes()
            },
            MessageResult::Error(_) => failed_with_notice(
                Bl3Application { commit: None, ..old },
                new,
            ) && r is None,
        }
    } else {
        new == old && r is None
    }
}

/// The backup finished: on success the commit asks for the new bytes to be written over
/// the destination; on failure the commit is dropped with a notice and nothing is
/// written. A completion that no commit awaits changes nothing.
pub open spec fn backup_completed(
    old: Bl3Application,
    res: MessageResult<()>,
    new: Bl3Application,
    r: Option<Command>,
) -> bool {
    if pending_at(old, CommitStage::BackingUp) {
        let p = old.commit->0;
        match res {
            MessageResult::Success(_) => {
                &&& new == (Bl3Application {
                    commit: Some(PendingCommit { stage: CommitStage::Writing, ..p }),
                    ..old
                })
                &&& r is Some && r->0 is WriteFile
                &&& r->0->WriteFile_saves_dir@ == old.config.saves_dir@
                &&& r->0->WriteFile_file_name@ == p.edited.name()
                &&& r->0->WriteFile_bytes@ == p.output@
            },
            MessageResult::Error(_) => failed_with_notice(
                Bl3Application { commit: None, ..old },
                new,
            ) && r is None,
        }
    } else {
        new == old && r is None
    }
}

/// The write finished: on success the commit ends with a success notice, the screen
/// shows loading, and the saves folder is rescanned to find the written file again; on
/// failure the commit ends with a notice. A completion that no commit awaits changes
/// nothing.
pub open spec fn write_completed(
    old: Bl3Application,
    res: MessageResult<()>,
    new: Bl3Application,
    r: Option<Command>,
) -> bool {
    if pending_at(old, CommitStage::Writing) {
        let p = old.commit->0;
        match res {
            MessageResult::Success(_) => {
                &&& new.notification is Some
                &&& new.notification->0.sentiment == NotificationSentiment::Positive
                &&& new == (Bl3Application {
                    commit: None,
                    notification: new.notification,
                    is_reloading_saves: true,
                    view_before_reload: old.view_state,
                    view_state: ViewState::Loading,
                    ..old
                })
                &&& r is Some && r->0 is LoadFilesAfterSave
                &&& r->0->LoadFilesAfterSave_saves_dir@ == old.config.saves_dir@
                &&& r->0->LoadFilesAfterSave_saved.same_as(&p.edited)
            },
            MessageResult::Error(_) => failed_with_notice(
                Bl3Application { commit: None, ..old },
                new,
            ) && r is None,
        }
    } else {
        new == old && r is None
    }
}

impl Bl3Application {
    /// Starts a commit of the selected save (see `save_commit_started`).
    pub fn save_file_pressed(&mut self) -> (r: Option<Command>)
        requires
            old(self).game_data.wf(),
        ensures
            save_commit_started(*old(self), *final(self), r),
    {
        if self.commit.is_some() {
            self.notification = Some(
                Notification::failure("Failed to save file", "another save is in progress"),
            );
            return None;
        }
        let state = &self.manage_save_state;
        match map_all_states_to_save(&state.save_view_state, &state.current_file, &self.game_data) {
            Err(e) => {
                self.notification = Some(Notification::failure("Failed to save file", e.description()));
                None
            },
            Ok(edited) => {
                let edited = LoadedFile::Save(edited);
                let command = Command::Serialize {
                    file: edited.copy(),
                    guardian_data_injection_required: false,
                };
                self.commit = Some(
                    PendingCommit {
                        stage: CommitStage::Serializing,
                        previous: LoadedFile::Save(self.manage_save_state.current_file.copy()),
                        edited,
                        output: Vec::new(),
                    },
                );
                Some(command)
            },
        }
    }

    /// Starts a commit of the selected profile (see `profile_commit_started`).
    pub fn save_profile_pressed(&mut self) -> (r: Option<Command>)
        ensures
            profile_commit_started(*old(self), *final(self), r),
    {
        if self.commit.is_some() {
            self.notification = Some(
                Notification::failure("Failed to save profile", "another save is in progress"),
            );
            return None;
        }
        let state = &self.manage_profile_state;
        match map_all_states_to_profile(
            &state.profile_view_state,
            &state.current_file,
            &self.game_data,
        ) {
            Err(e) => {
                self.notification = Some(
                    Notification::failure("Failed to save profile", e.description()),
                );
                None
            },
            Ok((edited, guardian_data_injection_required)) => {
                let edited = LoadedFile::Profile(edited);
                let command = Command::Serialize {
                    file: edited.copy(),
                    guardian_data_injection_required,
                };
                self.commit = Some(
                    PendingCommit {
                        stage: CommitStage::Serializing,
                        previous: LoadedFile::Profile(self.manage_profile_state.current_file.copy()),
                        edited,
                        output: Vec::new(),
                    },
                );
                Some(command)
            },
        }
    }

    /// See `serialize_completed`.
    pub fn on_serialize_completed(&mut self, res: MessageResult<Vec<u8>>) -> (r: Option<Command>)
        ensures
            serialize_completed(*old(self), res, *final(self), r),
    {
        let pending = self.commit.take();
        match pending {
            Some(p) => {
                if p.stage != CommitStage::Serializing {
                    self.commit = Some(p);
                    return None;
                }
                match res {
                    MessageResult::Success(bytes) => {
                        let command = Command::BackupFile {
                            backup_dir: self.config.backup_dir.clone(),
                            file_name: p.previous.file_name().clone(),
                            bytes: p.previous.bytes().clone(),
                        };
                        self.commit = Some(
                            PendingCommit { stage: CommitStage::BackingUp, output: bytes, ..p },
                        );
                        Some(command)
                    },
                    MessageResult::Error(e) => {
                        self.notification = Some(
                            Notification::failure("Failed to save file", e.as_str()),
                        );
                        None
                    },
                }
            },
            None => None,
        }
    }

    /// See `backup_completed`.
    pub fn on_backup_completed(&mut self, res: MessageResult<()>) -> (r: Option<Command>)
        ensures
            backup_completed(*old(self), res, *final(self), r),
    {
        let pending = self.commit.take();
        match pending {
            Some(p) => {
                if p.stage != CommitStage::BackingUp {
                    self.commit = Some(p);
                    return None;
                }
                match res {
                    MessageResult::Success(_) => {
                        let command = Command::WriteFile {
                            saves_dir: self.config.saves_dir.clone(),
                            file_name: p.edited.file_name().clone(),
                            bytes: p.output.clone(),
                        };
                        self.commit = Some(PendingCommit { stage: CommitStage::Writing, ..p });
                        Some(command)
                    },
                    MessageResult::Error(e) => {
                        self.notification = Some(
                            Notification::failure("Failed to back up file", e.as_str()),
                        );
                        None
                    },
                }
            },
            None => None,
        }
    }

    /// See `write_completed`.
    pub fn on_write_completed(&mut self, res: MessageResult<()>) -> (r: Option<Command>)
        ensures
            write_completed(*old(self), res, *final(self), r),
    {
        let pending = self.commit.take();
        match pending {
            Some(p) => {
                if p.stage != CommitStage::Writing {
                    self.commit = Some(p);
                    return None;
                }
                match res {
                    MessageResult::Success(_) => {
                        self.notification = Some(
                            Notification::new(
                                String::from_str("Successfully saved file!"),
                                NotificationSentiment::Positive,
                            ),
                        );
                        self.is_reloading_saves = true;
                        self.view_before_reload = self.view_state;
                        self.view_state = ViewState::Loading;
                        Some(
                            Command::LoadFilesAfterSave {
                                saves_dir: self.config.saves_dir.clone(),
                                saved: p.edited,
                            },
                        )
                    },
                    MessageResult::Error(e) => {
                        self.notification = Some(
                            Notification::failure("Failed to save file", e.as_str()),
                        );
                        None
                    },
                }
            },
            None => None,
        }
    }
}

/// `new` differs from `old` at most in the save's pending edits.
pub open spec fn save_view_changed(old: Bl3Application, new: Bl3Application) -> bool {
    new == (Bl3Application {
        manage_save_state: ManageSaveState {
            save_view_state: new.manage_save_state.save_view_state,
            ..old.manage_save_state
        },
        ..old
    })
}

/// `new` differs from `old` at most in the profile's pending edits.
pub open spec fn profile_view_changed(old: Bl3Application, new: Bl3Application) -> bool {
    new == (Bl3Application {
        manage_profile_state: ManageProfileState {
            profile_view_state: new.manage_profile_state.profile_view_state,
            ..old.manage_profile_state
        },
        ..old
    })
}

/// A failed command raises a failure notice; a successful one changes nothing.
pub open spec fn ui_error_handled(old: Bl3Application, res: MessageResult<()>, new: Bl3Application) -> bool {
    match res {
        MessageResult::Success(_) => new == old,
        MessageResult::Error(_) => failed_with_notice(old, new),
    }
}

/// `r` asks to open folder `dir` of kind `kind`.
pub open spec fn opens(r: Option<Command>, kind: DirectoryKind, dir: String) -> bool {
    r is Some && r->0 is OpenDirectory && r->0->OpenDirectory_0 == kind && r->0->OpenDirectory_1@
        == dir@
}

/// `r` asks the user to pick a folder of kind `kind`, starting at `dir`.
pub open spec fn chooses(r: Option<Command>, kind: DirectoryKind, dir: String) -> bool {
    r is Some && r->0 is ChooseSettingsDirectory && r->0->ChooseSettingsDirectory_0 == kind
        && r->0->ChooseSettingsDirectory_1@ == dir@
}

/// `r` asks to persist `config`.
pub open spec fn saves_config(r: Option<Command>, config: Config) -> bool {
    r is Some && r->0 is SaveConfig && r->0->SaveConfig_0.same_as(&config)
}

/// `r` asks to scan folder `dir`.
pub open spec fn scans(r: Option<Command>, dir: String) -> bool {
    r is Some && r->0 is LoadFilesInDirectory && r->0->LoadFilesInDirectory_0@ == dir@
}

/// The UI scale one step down, not below the minimum.
pub open spec fn scale_down(percent: u32) -> u32 {
    if percent < MIN_UI_SCALE_PERCENT + UI_SCALE_STEP_PERCENT {
        MIN_UI_SCALE_PERCENT
    } else {
        (percent - UI_SCALE_STEP_PERCENT) as u32
    }
}

/// The UI scale one step up, not above the maximum.
pub open spec fn scale_up(percent: u32) -> u32 {
    if percent + UI_SCALE_STEP_PERCENT > MAX_UI_SCALE_PERCENT {
        MAX_UI_SCALE_PERCENT
    } else {
        (percent + UI_SCALE_STEP_PERCENT) as u32
    }
}

/// `new` holds the UI scale `percent` in the settings and the config, which is persisted.
pub open spec fn scale_set(old: Bl3Application, percent: u32, new: Bl3Application, r: Option<Command>) -> bool {
    &&& new == (Bl3Application {
        settings_state: SettingsState { ui_scale_percent: percent, ..old.settings_state },
        config: Config { ui_scale_percent: percent, ..old.config },
        ..old
    })
    &&& saves_config(r, new.config)
}

/// The effect of an interaction with the settings tab.
pub open spec fn settings_handled(
    old: Bl3Application,
    msg: SettingsInteractionMessage,
    new: Bl3Application,
    r: Option<Command>,
) -> bool {
    let settings = old.settings_state;
    match msg {
        SettingsInteractionMessage::OpenConfigDir => new == old && opens(
            r,
            DirectoryKind::Config,
            old.config.config_dir,
        ),
        SettingsInteractionMessage::OpenBackupDir => new == old && opens(
            r,
            DirectoryKind::Backup,
            old.config.backup_dir,
        ),
        SettingsInteractionMessage::OpenSavesDir => new == old && opens(
            r,
            DirectoryKind::Saves,
            old.config.saves_dir,
        ),
        SettingsInteractionMessage::OpenConfigDirCompleted(res) => ui_error_handled(old, res, new)
            && r is None,
        SettingsInteractionMessage::OpenBackupDirCompleted(res) => ui_error_handled(old, res, new)
            && r is None,
        SettingsInteractionMessage::OpenSavesDirCompleted(res) => ui_error_handled(old, res, new)
            && r is None,
        SettingsInteractionMessage::ChangeBackupDir => new == (Bl3Application {
            settings_state: SettingsState { choose_backup_dir_window_open: true, ..settings },
            ..old
        }) && chooses(r, DirectoryKind::Backup, old.config.backup_dir),
        SettingsInteractionMessage::ChangeSavesDir => new == (Bl3Application {
            settings_state: SettingsState { choose_saves_dir_window_open: true, ..settings },
            ..old
        }) && chooses(r, DirectoryKind::Saves, old.config.saves_dir),
        SettingsInteractionMessage::ChangeBackupDirCompleted(res) => {
            let closed = Bl3Application {
                settings_state: SettingsState { choose_backup_dir_window_open: false, ..settings },
                ..old
            };
            match res {
                MessageResult::Success(dir) => {
                    &&& new.config == (Config { backup_dir: dir, ..old.config })
                    &&& new.settings_state.backup_dir_input@ == dir@
                    &&& new == (Bl3Application {
                        config: new.config,
                        settings_state: SettingsState {
                            backup_dir_input: new.settings_state.backup_dir_input,
                            ..closed.settings_state
                        },
                        ..old
                    })
                    &&& saves_config(r, new.config)
                },
                MessageResult::Error(_) => failed_with_notice(closed, new) && r is None,
            }
        },
        SettingsInteractionMessage::ChangeSavesDirCompleted(res) => {
            let closed = Bl3Application {
                settings_state: SettingsState { choose_saves_dir_window_open: false, ..settings },
                ..old
            };
            match res {
                MessageResult::Success(dir) => new == (Bl3Application {
                    view_state: ViewState::Loading,
                    ..closed
                }) && r == Some(Command::LoadFilesInDirectory(dir)),
                MessageResult::Error(_) => failed_with_notice(closed, new) && r is None,
            }
        },
        SettingsInteractionMessage::DecreaseUIScale => if settings.ui_scale_percent
            > MIN_UI_SCALE_PERCENT {
            scale_set(old, scale_down(settings.ui_scale_percent), new, r)
        } else {
            new == old && r is None
        },
        SettingsInteractionMessage::IncreaseUIScale => if settings.ui_scale_percent
            < MAX_UI_SCALE_PERCENT {
            scale_set(old, scale_up(settings.ui_scale_percent), new, r)
        } else {
            new == old && r is None
        },
    }
}

/// The effect of a user interaction. Every interaction first dismisses the current
/// notification.
pub open spec fn interaction_handled(
    old: Bl3Application,
    msg: InteractionMessage,
    new: Bl3Application,
    r: Option<Command>,
) -> bool {
    let o = Bl3Application { notification: None, ..old };
    let save_view = o.manage_save_state.save_view_state;
    let profile_view = o.manage_profile_state.profile_view_state;
    match msg {
        InteractionMessage::ChooseSaveInteraction(_) => new == (Bl3Application {
            choose_dir_window_open: true,
            ..o
        }) && r is Some && r->0 is ChooseSavesDirectory && r->0->ChooseSavesDirectory_0@
            == old.config.saves_dir@,
        InteractionMessage::ManageSaveInteraction(m) => match m {
            ManageSaveInteractionMessage::TabBar(t) => new == (Bl3Application {
                view_state: ViewState::ManageSave(t),
                ..o
            }) && r is None,
            ManageSaveInteractionMessage::General(g) => if g is GenerateGuidPressed {
                new == o && r == Some(Command::GenerateGuid)
            } else {
                save_view_changed(o, new) && general_edit(
                    save_view,
                    g,
                    new.manage_save_state.save_view_state,
                ) && r is None
            },
            ManageSaveInteractionMessage::Character(c) => save_view_changed(o, new)
                && character_edit(save_view, c, old.game_data, new.manage_save_state.save_view_state)
                && r is None,
            ManageSaveInteractionMessage::Currency(c) => save_view_changed(o, new) && currency_edit(
                save_view,
                c,
                new.manage_save_state.save_view_state,
            ) && r is None,
            ManageSaveInteractionMessage::Vehicle(v) => save_view_changed(o, new) && vehicle_edit(
                save_view,
                v,
                new.manage_save_state.save_view_state,
            ) && r is None,
            ManageSaveInteractionMessage::SaveFilePressed => save_commit_started(o, new, r),
        },
        InteractionMessage::ManageProfileInteraction(m) => match m {
            ManageProfileInteractionMessage::TabBar(t) => new == (Bl3Application {
                view_state: ViewState::ManageProfile(t),
                ..o
            }) && r is None,
            ManageProfileInteractionMessage::General(g) => profile_view_changed(o, new)
                && profile_general_edit(profile_view, g, new.manage_profile_state.profile_view_state)
                && r is None,
            ManageProfileInteractionMessage::Profile(p) => profile_view_changed(o, new)
                && profile_edit(
                profile_view,
                p,
                old.game_data,
                new.manage_profile_state.profile_view_state,
            ) && r is None,
            ManageProfileInteractionMessage::Keys(k) => profile_view_changed(o, new) && keys_edit(
                profile_view,
                k,
                new.manage_profile_state.profile_view_state,
            ) && r is None,
            ManageProfileInteractionMessage::SaveProfilePressed => profile_commit_started(o, new, r),
        },
        InteractionMessage::SettingsInteraction(m) => settings_handled(o, m, new, r),
        InteractionMessage::LoadedFileSelected(f) => selected(o, f, true, new) && r is None,
        InteractionMessage::RefreshSavesDirectory => new == (Bl3Application {
            view_state: ViewState::Loading,
            ..o
        }) && scans(r, old.config.saves_dir),
        InteractionMessage::Ignore => new == o && r is None,
    }
}

/// The effect of one message on the controller.
pub open spec fn update_post(
    old: Bl3Application,
    msg: Bl3Message,
    new: Bl3Application,
    r: Option<Command>,
) -> bool {
    match msg {
        Bl3Message::Initialization(InitializationMessage::LoadSaves { saves_dir_exists }) => {
            if saves_dir_exists {
                new == (Bl3Application { view_state: ViewState::Loading, ..old }) && scans(
                    r,
                    old.config.saves_dir,
                )
            } else if old.config.saves_dir@.len() > 0 {
                failed_with_notice(
                    Bl3Application { view_state: ViewState::ChooseSaveDirectory, ..old },
                    new,
                ) && r is None
            } else {
                new == (Bl3Application { view_state: ViewState::ChooseSaveDirectory, ..old })
                    && r is None
            }
        },
        Bl3Message::LatestRelease(res) => r is None && match res {
            MessageResult::Success(rel) => new == (Bl3Application {
                latest_release: Some(rel),
                ..old
            }),
            MessageResult::Error(_) => new == old,
        },
        Bl3Message::UpdateToLatestRelease => match old.latest_release {
            Some(rel) => new == (Bl3Application { is_updating: true, ..old }) && r is Some
                && r->0 is DownloadRelease && r->0->DownloadRelease_0.tag_name@ == rel.tag_name@,
            None => new == old && r is None,
        },
        Bl3Message::UpdateToLatestReleaseCompleted(res) => match res {
            MessageResult::Success(_) => new == (Bl3Application { is_updating: false, ..old })
                && r == Some(Command::Exit),
            MessageResult::Error(_) => failed_with_notice(
                Bl3Application { is_updating: false, ..old },
                new,
            ) && r is None,
        },
        Bl3Message::Config(_) => new == old && r is None,
        Bl3Message::Interaction(m) => interaction_handled(old, m, new, r),
        Bl3Message::ChooseSave(ChooseSaveMessage::ChooseDirCompleted(res)) => {
            let closed = Bl3Application { choose_dir_window_open: false, ..old };
            match res {
                MessageResult::Success(dir) => new == (Bl3Application {
                    view_state: ViewState::Loading,
                    ..closed
                }) && r == Some(Command::LoadFilesInDirectory(dir)),
                MessageResult::Error(_) => failed_with_notice(closed, new) && r is None,
            }
        },
        Bl3Message::ChooseSave(ChooseSaveMessage::FilesLoaded(res)) => match res {
            MessageResult::Success(v) => files_loaded(old, v.0, v.1@, new, r),
            MessageResult::Error(_) => failed_with_notice(
                Bl3Application { view_state: ViewState::ChooseSaveDirectory, ..old },
                new,
            ) && r is None,
        },
        Bl3Message::SerializeCompleted(res) => serialize_completed(old, res, new, r),
        Bl3Message::BackupCompleted(res) => backup_completed(old, res, new, r),
        Bl3Message::WriteCompleted(res) => write_completed(old, res, new, r),
        Bl3Message::FilesLoadedAfterSave(res) => r is None && match res {
            MessageResult::Success(v) => reloaded_after_save(old, v.0, v.1@, new),
            MessageResult::Error(_) => failed_with_notice(
                Bl3Application {
                    view_state: ViewState::ChooseSaveDirectory,
                    is_reloading_saves: false,
                    ..old
                },
                new,
            ),
        },
        Bl3Message::ClearNotification => new == (Bl3Application { notification: None, ..old })
            && r is None,
    }
}

impl Bl3Application {
    fn raise_failure(&mut self, context: &str, cause: &str)
        ensures
            failed_with_notice(*old(self), *final(self)),
    {
        self.notification = Some(Notification::failure(context, cause));
    }

    /// See `settings_handled`.
    pub fn on_settings_interaction(&mut self, msg: SettingsInteractionMessage) -> (r: Option<Command>)
        requires
            old(self).wf(),
        ensures
            final(self).wf(),
            settings_handled(*old(self), msg, *final(self), r),
    {
        match msg {
            SettingsInteractionMessage::OpenConfigDir => Some(
                Command::OpenDirectory(DirectoryKind::Config, self.config.config_dir.clone()),
            ),
            SettingsInteractionMessage::OpenBackupDir => Some(
                Command::OpenDirectory(DirectoryKind::Backup, self.config.backup_dir.clone()),
            ),
            SettingsInteractionMessage::OpenSavesDir => Some(
                Command::OpenDirectory(DirectoryKind::Saves, self.config.saves_dir.clone()),
            ),
            SettingsInteractionMessage::OpenConfigDirCompleted(res) => {
                res.handle_ui_error("Failed to open config folder", &mut self.notification);
                None
            },
            SettingsInteractionMessage::OpenBackupDirCompleted(res) => {
                res.handle_ui_error("Failed to open backups folder", &mut self.notification);
                None
            },
            SettingsInteractionMessage::OpenSavesDirCompleted(res) => {
                res.handle_ui_error("Failed to open saves folder", &mut self.notification);
                None
            },
            SettingsInteractionMessage::ChangeBackupDir => {
                self.settings_state.choose_backup_dir_window_open = true;
                Some(
                    Command::ChooseSettingsDirectory(
                        DirectoryKind::Backup,
                        self.config.backup_dir.clone(),
                    ),
                )
            },
            SettingsInteractionMessage::ChangeSavesDir => {
                self.settings_state.choose_saves_dir_window_open = true;
                Some(
                    Command::ChooseSettingsDirectory(
                        DirectoryKind::Saves,
                        self.config.saves_dir.clone(),
                    ),
                )
            },
            SettingsInteractionMessage::ChangeBackupDirCompleted(res) => {
                self.settings_state.choose_backup_dir_window_open = false;
                match res {
                    MessageResult::Success(dir) => {
                        self.settings_state.backup_dir_input = dir.clone();
                        self.config.backup_dir = dir;
                        Some(Command::SaveConfig(self.config.copy()))
                    },
                    MessageResult::Error(e) => {
                        self.raise_failure("Failed to choose backups folder", e.as_str());
                        None
                    },
                }
            },
            SettingsInteractionMessage::ChangeSavesDirCompleted(res) => {
                self.settings_state.choose_saves_dir_window_open = false;
                match res {
                    MessageResult::Success(dir) => {
                        self.view_state = ViewState::Loading;
                        Some(Command::LoadFilesInDirectory(dir))
                    },
                    MessageResult::Error(e) => {
                        self.raise_failure("Failed to choose saves folder", e.as_str());
                        None
                    },
                }
            },
            SettingsInteractionMessage::DecreaseUIScale => {
                let percent = self.settings_state.ui_scale_percent;
                if percent > MIN_UI_SCALE_PERCENT {
                    let lower = if percent < MIN_UI_SCALE_PERCENT + UI_SCALE_STEP_PERCENT {
                        MIN_UI_SCALE_PERCENT
                    } else {
                        percent - UI_SCALE_STEP_PERCENT
                    };
                    self.settings_state.ui_scale_percent = lower;
                    self.config.ui_scale_percent = lower;
                    Some(Command::SaveConfig(self.config.copy()))
                } else {
                    None
                }
            },
            SettingsInteractionMessage::IncreaseUIScale => {
                let percent = self.settings_state.ui_scale_percent;
                if percent < MAX_UI_SCALE_PERCENT {
                    let higher = if percent + UI_SCALE_STEP_PERCENT > MAX_UI_SCALE_PERCENT {
                        MAX_UI_SCALE_PERCENT
                    } else {
                        percent + UI_SCALE_STEP_PERCENT
                    };
                    self.settings_state.ui_scale_percent = higher;
                    self.config.ui_scale_percent = higher;
                    Some(Command::SaveConfig(self.config.copy()))
                } else {
                    None
                }
            },
        }
    }

    /// See `interaction_handled`.
    pub fn on_interaction(&mut self, msg: InteractionMessage) -> (r: Option<Command>)
        requires
            old(self).wf(),
        ensures
            final(self).wf(),
            interaction_handled(*old(self), msg, *final(self), r),
    {
        self.notification = None;
        match msg {
            InteractionMessage::ChooseSaveInteraction(_) => {
                self.choose_dir_window_open = true;
                Some(Command::ChooseSavesDirectory(self.config.saves_dir.clone()))
            },
            InteractionMessage::ManageSaveInteraction(m) => match m {
                ManageSaveInteractionMessage::TabBar(t) => {
                    self.view_state = ViewState::ManageSave(t);
                    None
                },
                ManageSaveInteractionMessage::General(g) => {
                    if let SaveGeneralInteractionMessage::GenerateGuidPressed = g {
                        Some(Command::GenerateGuid)
                    } else {
                        self.manage_save_state.save_view_state.apply_general(g);
                        None
                    }
                },
                ManageSaveInteractionMessage::Character(c) => {
                    self.manage_save_state.save_view_state.apply_character(c, &self.game_data);
                    None
                },
                ManageSaveInteractionMessage::Currency(c) => {
                    self.manage_save_state.save_view_state.apply_currency(c);
                    None
                },
                ManageSaveInteractionMessage::Vehicle(v) => {
                    self.manage_save_state.save_view_state.apply_vehicle(v);
                    None
                },
                ManageSaveInteractionMessage::SaveFilePressed => self.save_file_pressed(),
            },
            InteractionMessage::ManageProfileInteraction(m) => match m {
                ManageProfileInteractionMessage::TabBar(t) => {
                    self.view_state = ViewState::ManageProfile(t);
                    None
                },
                ManageProfileInteractionMessage::General(g) => {
                    self.manage_profile_state.profile_view_state.apply_general(g);
                    None
                },
                ManageProfileInteractionMessage::Profile(p) => {
                    self.manage_profile_state.profile_view_state.apply_profile(p, &self.game_data);
                    None
                },
                ManageProfileInteractionMessage::Keys(k) => {
                    self.manage_profile_state.profile_view_state.apply_keys(k);
                    None
                },
                ManageProfileInteractionMessage::SaveProfilePressed => self.save_profile_pressed(),
            },
            InteractionMessage::SettingsInteraction(m) => self.on_settings_interaction(m),
            InteractionMessage::LoadedFileSelected(f) => {
                self.select_file(f, true);
                None
            },
            InteractionMessage::RefreshSavesDirectory => {
                self.view_state = ViewState::Loading;
                Some(Command::LoadFilesInDirectory(self.config.saves_dir.clone()))
            },
            InteractionMessage::Ignore => None,
        }
    }

    /// Handles one message: updates the state and returns the command, if any, that the
    /// runtime must perform next (see `update_post`).
    pub fn update(&mut self, message: Bl3Message) -> (r: Option<Command>)
        requires
            old(self).wf(),
        ensures
            final(self).wf(),
            update_post(*old(self), message, *final(self), r),
    {
        match message {
            Bl3Message::Initialization(InitializationMessage::LoadSaves { saves_dir_exists }) => {
                if saves_dir_exists {
                    self.view_state = ViewState::Loading;
                    return Some(Command::LoadFilesInDirectory(self.config.saves_dir.clone()));
                }
                self.view_state = ViewState::ChooseSaveDirectory;
                if !self.config.saves_dir.as_str().is_empty() {
                    self.raise_failure(
                        "Failed to load your previously selected Save/Profile folder",
                        "please select another folder",
                    );
                }
                None
            },
            Bl3Message::LatestRelease(res) => {
                if let MessageResult::Success(rel) = res {
                    self.latest_release = Some(rel);
                }
                None
            },
            Bl3Message::UpdateToLatestRelease => match &self.latest_release {
                Some(rel) => {
                    let command = Command::DownloadRelease(Release { tag_name: rel.tag_name.clone() });
                    self.is_updating = true;
                    Some(command)
                },
                None => None,
            },
            Bl3Message::UpdateToLatestReleaseCompleted(res) => {
                self.is_updating = false;
                match res {
                    MessageResult::Success(_) => Some(Command::Exit),
                    MessageResult::Error(e) => {
                        self.raise_failure("Failed to update to latest release", e.as_str());
                        None
                    },
                }
            },
            Bl3Message::Config(_) => None,
            Bl3Message::Interaction(m) => self.on_interaction(m),
            Bl3Message::ChooseSave(ChooseSaveMessage::ChooseDirCompleted(res)) => {
                self.choose_dir_window_open = false;
                match res {
                    MessageResult::Success(dir) => {
                        self.view_state = ViewState::Loading;
                        Some(Command::LoadFilesInDirectory(dir))
                    },
                    MessageResult::Error(e) => {
                        self.raise_failure("Failed to choose saves folder", e.as_str());
                        None
                    },
                }
            },
            Bl3Message::ChooseSave(ChooseSaveMessage::FilesLoaded(res)) => match res {
                MessageResult::Success((dir, files)) => self.on_files_loaded(dir, files),
                MessageResult::Error(e) => {
                    self.view_state = ViewState::ChooseSaveDirectory;
                    self.raise_failure("Failed to load save folder", e.as_str());
                    None
                },
            },
            Bl3Message::SerializeCompleted(res) => self.on_serialize_completed(res),
            Bl3Message::BackupCompleted(res) => self.on_backup_completed(res),
            Bl3Message::WriteCompleted(res) => self.on_write_completed(res),
            Bl3Message::FilesLoadedAfterSave(res) => {
                match res {
                    MessageResult::Success((saved, files)) => {
                        self.on_files_loaded_after_save(saved, files);
                    },
                    MessageResult::Error(e) => {
                        self.view_state = ViewState::ChooseSaveDirectory;
                        self.is_reloading_saves = false;
                        self.raise_failure("Failed to load save folder", e.as_str());
                    },
                }
                None
            },
            Bl3Message::ClearNotification => {
                self.notification = None;
                None
            },
        }
    }
}

} // verus!
