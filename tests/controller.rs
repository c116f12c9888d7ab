use bl3_save_edit_ui::application::{
    Bl3Application, Bl3Message, ChooseSaveMessage, Command, CommitStage, Config,
    InitializationMessage, InteractionMessage, ManageProfileInteractionMessage,
    ManageSaveInteractionMessage, SaveTabBarView, SettingsInteractionMessage, ViewState,
};
use bl3_save_edit_ui::files::LoadedFile;
use bl3_save_edit_ui::game_data::GameData;
use bl3_save_edit_ui::message_result::MessageResult;
use bl3_save_edit_ui::notification::NotificationSentiment;
use bl3_save_edit_ui::profile_state::{
    GuardianReward, ProfileFile, ProfileInteractionMessage, ProfileModel,
};
use bl3_save_edit_ui::save_state::{
    Platform, PlayerClass, SaveCharacterInteractionMessage, SaveFile, SaveModel,
};

fn game_data() -> GameData {
    GameData {
        required_xp: (0..72).map(|k: i32| k * k * 100).collect(),
        save_sdu_maximum: [13, 13, 13, 13, 10, 13, 13, 13],
        ammo_maximum: [48, 80, 1200, 13, 1440, 1680, 51],
        profile_sdu_maximum: [23, 10],
        max_science_level: 10,
    }
}

fn config() -> Config {
    Config {
        saves_dir: "/saves".to_string(),
        backup_dir: "/backups".to_string(),
        config_dir: "/config".to_string(),
        ui_scale_percent: 100,
    }
}

fn save_model(level: i32) -> SaveModel {
    SaveModel {
        guid: "0123456789ABCDEF0123456789ABCDEF".to_string(),
        slot: 1,
        character_name: "Moze".to_string(),
        player_class: PlayerClass::Gunner,
        level,
        experience_points: (level - 1) * (level - 1) * 100,
        ability_points: 3,
        sdu_levels: [1; 8],
        ammo: [10; 7],
        gear_unlocked: [true; 8],
        head_skin: "Default".to_string(),
        character_skin: "Default".to_string(),
        echo_theme: "Default".to_string(),
        money: 1000,
        eridium: 50,
        vehicle_unlocked: [false; 12],
    }
}

fn save(name: &str, level: i32, bytes: &[u8]) -> LoadedFile {
    LoadedFile::Save(SaveFile {
        file_name: name.to_string(),
        platform: Platform::Pc,
        bytes: bytes.to_vec(),
        model: save_model(level),
    })
}

fn profile(name: &str, bytes: &[u8]) -> LoadedFile {
    LoadedFile::Profile(ProfileFile {
        file_name: name.to_string(),
        platform: Platform::Pc,
        bytes: bytes.to_vec(),
        model: ProfileModel {
            guardian_rank_tokens: 5,
            science_level: 2,
            science_tokens: 7,
            skins_unlocked: [false; 7],
            sdu_levels: [3, 2],
            guardian_rewards: [0; 18],
            keys: [1; 8],
        },
    })
}

fn name_of(f: &LoadedFile) -> String {
    match f {
        LoadedFile::Save(s) => s.file_name.clone(),
        LoadedFile::Profile(p) => p.file_name.clone(),
    }
}

fn loaded(files: Vec<LoadedFile>) -> Bl3Message {
    Bl3Message::ChooseSave(ChooseSaveMessage::FilesLoaded(MessageResult::Success((
        "/saves".to_string(),
        files,
    ))))
}

fn save_interaction(m: ManageSaveInteractionMessage) -> Bl3Message {
    Bl3Message::Interaction(InteractionMessage::ManageSaveInteraction(m))
}

fn app_with(files: Vec<LoadedFile>) -> Bl3Application {
    let (mut app, _) = Bl3Application::new(config(), game_data());
    app.update(loaded(files));
    app
}

/// Selects `save2.sav`, sets its level to 50 on the character tab and runs the commit up
/// to the write; returns the file handed to the rescan.
fn commit_save2_at_level_50(app: &mut Bl3Application) -> LoadedFile {
    let second = app.loaded_files[1].clone();
    app.update(Bl3Message::Interaction(InteractionMessage::LoadedFileSelected(second)));
    app.update(save_interaction(ManageSaveInteractionMessage::TabBar(SaveTabBarView::Character)));
    app.update(save_interaction(ManageSaveInteractionMessage::Character(
        SaveCharacterInteractionMessage::Level(50),
    )));
    match app.update(save_interaction(ManageSaveInteractionMessage::SaveFilePressed)) {
        Some(Command::Serialize { file: LoadedFile::Save(f), guardian_data_injection_required }) => {
            assert_eq!(f.file_name, "save2.sav");
            assert_eq!(f.model.level, 50);
            assert_eq!(f.model.experience_points, 49 * 49 * 100);
            assert!(!guardian_data_injection_required);
        }
        other => panic!("expected an encode request, got {:?}", other),
    }
    match app.update(Bl3Message::SerializeCompleted(MessageResult::Success(b"new2".to_vec()))) {
        Some(Command::BackupFile { backup_dir, file_name, bytes }) => {
            assert_eq!(backup_dir, "/backups");
            assert_eq!(file_name, "save2.sav");
            assert_eq!(bytes, b"old2".to_vec());
        }
        other => panic!("expected a backup request, got {:?}", other),
    }
    match app.update(Bl3Message::BackupCompleted(MessageResult::Success(()))) {
        Some(Command::WriteFile { saves_dir, file_name, bytes }) => {
            assert_eq!(saves_dir, "/saves");
            assert_eq!(file_name, "save2.sav");
            assert_eq!(bytes, b"new2".to_vec());
        }
        other => panic!("expected a write request, got {:?}", other),
    }
    match app.update(Bl3Message::WriteCompleted(MessageResult::Success(()))) {
        Some(Command::LoadFilesAfterSave { saves_dir, saved }) => {
            assert_eq!(saves_dir, "/saves");
            saved
        }
        other => panic!("expected a rescan request, got {:?}", other),
    }
}

#[test]
fn commit_backs_up_writes_and_reselects() {
    let mut app = app_with(vec![save("save1.sav", 10, b"old1"), save("save2.sav", 20, b"old2")]);
    let saved = commit_save2_at_level_50(&mut app);
    assert_eq!(app.view_state, ViewState::Loading);
    assert!(app.is_reloading_saves);
    assert_eq!(
        app.notification.as_ref().map(|n| n.sentiment),
        Some(NotificationSentiment::Positive)
    );
    // The rescan parses the new bytes of save2.sav back to level 50.
    app.update(Bl3Message::FilesLoadedAfterSave(MessageResult::Success((
        saved,
        vec![save("save2.sav", 50, b"new2"), save("save1.sav", 10, b"old1")],
    ))));
    assert!(!app.is_reloading_saves);
    let names: Vec<String> = app.loaded_files.iter().map(name_of).collect();
    assert_eq!(names, vec!["save1.sav".to_string(), "save2.sav".to_string()]);
    assert_eq!(app.loaded_files_selected.as_ref().map(name_of), Some("save2.sav".to_string()));
    assert_eq!(app.view_state, ViewState::ManageSave(SaveTabBarView::Character));
    assert_eq!(app.manage_save_state.current_file.model.level, 50);
    assert_eq!(app.manage_save_state.save_view_state.fields.level, 50);
    assert!(app.commit.is_none());
}

#[test]
fn out_of_range_level_aborts_commit() {
    let mut app = app_with(vec![save("save1.sav", 10, b"old1")]);
    app.update(save_interaction(ManageSaveInteractionMessage::Character(
        SaveCharacterInteractionMessage::Level(500),
    )));
    let command = app.update(save_interaction(ManageSaveInteractionMessage::SaveFilePressed));
    assert!(command.is_none());
    assert!(app.commit.is_none());
    assert_eq!(
        app.notification.as_ref().map(|n| n.sentiment),
        Some(NotificationSentiment::Negative)
    );
    assert_eq!(app.manage_save_state.current_file.model.level, 10);
    assert_eq!(app.manage_save_state.current_file.bytes, b"old1".to_vec());
    assert_eq!(app.manage_save_state.save_view_state.fields.level, 500);
}

#[test]
fn empty_scan_returns_to_choose_directory() {
    let (mut app, _) = Bl3Application::new(config(), game_data());
    app.update(Bl3Message::Initialization(InitializationMessage::LoadSaves {
        saves_dir_exists: true,
    }));
    assert_eq!(app.view_state, ViewState::Loading);
    let command = app.update(loaded(vec![]));
    assert!(command.is_none());
    assert_eq!(app.view_state, ViewState::ChooseSaveDirectory);
    assert!(app.loaded_files.is_empty());
    assert!(app.loaded_files_selected.is_none());
}

#[test]
fn settings_change_during_reload() {
    let mut app = app_with(vec![save("save1.sav", 10, b"old1"), save("save2.sav", 20, b"old2")]);
    let saved = commit_save2_at_level_50(&mut app);
    let command = app.update(Bl3Message::Interaction(InteractionMessage::SettingsInteraction(
        SettingsInteractionMessage::IncreaseUIScale,
    )));
    match command {
        Some(Command::SaveConfig(c)) => assert_eq!(c.ui_scale_percent, 105),
        other => panic!("expected the settings to be saved, got {:?}", other),
    }
    assert_eq!(app.config.ui_scale_percent, 105);
    assert_eq!(app.settings_state.ui_scale_percent, 105);
    app.update(Bl3Message::FilesLoadedAfterSave(MessageResult::Success((
        saved,
        vec![save("save1.sav", 10, b"old1"), save("save2.sav", 50, b"new2")],
    ))));
    assert_eq!(app.loaded_files_selected.as_ref().map(name_of), Some("save2.sav".to_string()));
    assert_eq!(app.view_state, ViewState::ManageSave(SaveTabBarView::Character));
    assert_eq!(app.config.ui_scale_percent, 105);
}

#[test]
fn reload_without_written_file_selects_first_on_general_tab() {
    let mut app = app_with(vec![save("save1.sav", 10, b"old1"), save("save2.sav", 20, b"old2")]);
    let saved = commit_save2_at_level_50(&mut app);
    app.update(Bl3Message::FilesLoadedAfterSave(MessageResult::Success((
        saved,
        vec![save("save3.sav", 1, b"x"), save("save1.sav", 10, b"old1")],
    ))));
    assert_eq!(app.loaded_files_selected.as_ref().map(name_of), Some("save1.sav".to_string()));
    assert_eq!(app.view_state, ViewState::ManageSave(SaveTabBarView::General));
}

#[test]
fn failed_encoding_drops_commit_without_backup() {
    let mut app = app_with(vec![save("save1.sav", 10, b"old1")]);
    app.update(save_interaction(ManageSaveInteractionMessage::SaveFilePressed));
    assert_eq!(app.commit.as_ref().map(|p| p.stage), Some(CommitStage::Serializing));
    let command = app.update(Bl3Message::SerializeCompleted(MessageResult::Error(
        "bad header".to_string(),
    )));
    assert!(command.is_none());
    assert!(app.commit.is_none());
    assert_eq!(app.notification.as_ref().map(|n| n.message.clone()), Some("Failed to save file: bad header".to_string()));
    assert_eq!(app.manage_save_state.current_file.bytes, b"old1".to_vec());
    // A late backup completion finds no commit and asks for nothing.
    assert!(app.update(Bl3Message::BackupCompleted(MessageResult::Success(()))).is_none());
}

#[test]
fn failed_backup_writes_nothing() {
    let mut app = app_with(vec![save("save1.sav", 10, b"old1")]);
    app.update(save_interaction(ManageSaveInteractionMessage::SaveFilePressed));
    app.update(Bl3Message::SerializeCompleted(MessageResult::Success(b"new".to_vec())));
    let command = app.update(Bl3Message::BackupCompleted(MessageResult::Error("disk full".to_string())));
    assert!(command.is_none());
    assert!(app.commit.is_none());
    assert_eq!(
        app.notification.as_ref().map(|n| n.sentiment),
        Some(NotificationSentiment::Negative)
    );
}

#[test]
fn second_commit_is_refused_while_one_is_in_flight() {
    let mut app = app_with(vec![save("save1.sav", 10, b"old1")]);
    assert!(app.update(save_interaction(ManageSaveInteractionMessage::SaveFilePressed)).is_some());
    assert!(app.update(save_interaction(ManageSaveInteractionMessage::SaveFilePressed)).is_none());
    assert_eq!(app.commit.as_ref().map(|p| p.stage), Some(CommitStage::Serializing));
}

#[test]
fn write_completion_without_commit_is_ignored() {
    let mut app = app_with(vec![save("save1.sav", 10, b"old1")]);
    assert!(app.update(Bl3Message::WriteCompleted(MessageResult::Success(()))).is_none());
    assert_eq!(app.view_state, ViewState::ManageSave(SaveTabBarView::General));
}

#[test]
fn profile_commit_reports_guardian_reward_change() {
    let mut app = app_with(vec![profile("profile.sav", b"p")]);
    assert!(matches!(app.view_state, ViewState::ManageProfile(_)));
    let command = app.update(Bl3Message::Interaction(InteractionMessage::ManageProfileInteraction(
        ManageProfileInteractionMessage::SaveProfilePressed,
    )));
    match command {
        Some(Command::Serialize { guardian_data_injection_required, .. }) => {
            assert!(!guardian_data_injection_required)
        }
        other => panic!("expected an encode request, got {:?}", other),
    }
    app.update(Bl3Message::SerializeCompleted(MessageResult::Error("x".to_string())));
    app.update(Bl3Message::Interaction(InteractionMessage::ManageProfileInteraction(
        ManageProfileInteractionMessage::Profile(ProfileInteractionMessage::GuardianRewardMessage(
            GuardianReward::Accuracy,
            4,
        )),
    )));
    let command = app.update(Bl3Message::Interaction(InteractionMessage::ManageProfileInteraction(
        ManageProfileInteractionMessage::SaveProfilePressed,
    )));
    match command {
        Some(Command::Serialize { file: LoadedFile::Profile(p), guardian_data_injection_required }) => {
            assert!(guardian_data_injection_required);
            assert_eq!(p.model.guardian_rewards[0], 4);
        }
        other => panic!("expected an encode request, got {:?}", other),
    }
}

#[test]
fn startup_issues_two_commands() {
    let (app, commands) = Bl3Application::new(config(), game_data());
    assert_eq!(app.view_state, ViewState::Initializing);
    assert_eq!(commands.len(), 2);
    assert!(matches!(&commands[0], Command::LoadLazyData { saves_dir } if saves_dir == "/saves"));
    assert!(matches!(commands[1], Command::GetLatestRelease));
    assert_eq!(app.settings_state.saves_dir_input, "/saves");
}

#[test]
fn missing_remembered_folder_asks_for_another() {
    let (mut app, _) = Bl3Application::new(config(), game_data());
    let command = app.update(Bl3Message::Initialization(InitializationMessage::LoadSaves {
        saves_dir_exists: false,
    }));
    assert!(command.is_none());
    assert_eq!(app.view_state, ViewState::ChooseSaveDirectory);
    assert_eq!(
        app.notification.as_ref().map(|n| n.sentiment),
        Some(NotificationSentiment::Negative)
    );
}

#[test]
fn files_loaded_remembers_folder_and_saves_config() {
    let (mut app, _) = Bl3Application::new(config(), game_data());
    let command = app.update(Bl3Message::ChooseSave(ChooseSaveMessage::FilesLoaded(
        MessageResult::Success(("/other".to_string(), vec![save("a.sav", 3, b"a")])),
    )));
    match command {
        Some(Command::SaveConfig(c)) => assert_eq!(c.saves_dir, "/other"),
        other => panic!("expected the settings to be saved, got {:?}", other),
    }
    assert_eq!(app.config.saves_dir, "/other");
    assert_eq!(app.settings_state.saves_dir_input, "/other");
    assert_eq!(app.view_state, ViewState::ManageSave(SaveTabBarView::General));
}

#[test]
fn ui_scale_stays_within_bounds() {
    let mut cfg = config();
    cfg.ui_scale_percent = 200;
    let (mut app, _) = Bl3Application::new(cfg, game_data());
    let up = Bl3Message::Interaction(InteractionMessage::SettingsInteraction(
        SettingsInteractionMessage::IncreaseUIScale,
    ));
    assert!(app.update(up).is_none());
    assert_eq!(app.config.ui_scale_percent, 200);
    let mut cfg = config();
    cfg.ui_scale_percent = 50;
    let (mut app, _) = Bl3Application::new(cfg, game_data());
    let down = Bl3Message::Interaction(InteractionMessage::SettingsInteraction(
        SettingsInteractionMessage::DecreaseUIScale,
    ));
    assert!(app.update(down).is_none());
    assert_eq!(app.config.ui_scale_percent, 50);
}

#[test]
fn interaction_clears_notification() {
    let mut app = app_with(vec![]);
    assert!(app.notification.is_some());
    app.update(Bl3Message::Interaction(InteractionMessage::Ignore));
    assert!(app.notification.is_none());
}

#[test]
fn finished_update_exits() {
    let (mut app, _) = Bl3Application::new(config(), game_data());
    let command = app.update(Bl3Message::UpdateToLatestReleaseCompleted(MessageResult::Success(())));
    assert!(matches!(command, Some(Command::Exit)));
}

#[test]
fn open_folder_failure_is_reported() {
    let (mut app, _) = Bl3Application::new(config(), game_data());
    app.update(Bl3Message::Interaction(InteractionMessage::SettingsInteraction(
        SettingsInteractionMessage::OpenConfigDirCompleted(MessageResult::Error("denied".to_string())),
    )));
    assert_eq!(
        app.notification.as_ref().map(|n| n.message.clone()),
        Some("Failed to open config folder: denied.".to_string())
    );
}

#[test]
fn view_state_defaults_to_choose_directory() {
    assert_eq!(ViewState::default(), ViewState::ChooseSaveDirectory);
}
