use bl3_save_edit_ui::game_data::GameData;
use bl3_save_edit_ui::profile_state::{
    map_all_states_to_profile, GuardianReward, KeyKind, ProfileFile, ProfileInteractionMessage,
    ProfileKeysInteractionMessage, ProfileModel, ProfileSduSlot, ProfileViewState,
};
use bl3_save_edit_ui::save_state::{
    map_all_states_to_save, AmmoPool, GearSlot, Platform, PlayerClass,
    SaveCharacterInteractionMessage, SaveCurrencyInteractionMessage, SaveFile,
    SaveGeneralInteractionMessage, SaveModel, SaveSduSlot, SaveVehicleInteractionMessage,
    SaveViewState, SkinSlot, VehiclePart,
};
use bl3_save_edit_ui::slot_name::slot_file_name;
use bl3_save_edit_ui::validation::ValidationError;

fn game_data() -> GameData {
    GameData {
        required_xp: (0..72).map(|k: i32| k * k * 100).collect(),
        save_sdu_maximum: [13, 13, 13, 13, 10, 13, 13, 13],
        ammo_maximum: [48, 80, 1200, 13, 1440, 1680, 51],
        profile_sdu_maximum: [23, 10],
        max_science_level: 10,
    }
}

fn save_file() -> SaveFile {
    SaveFile {
        file_name: "1.sav".to_string(),
        platform: Platform::Pc,
        bytes: vec![1, 2, 3],
        model: SaveModel {
            guid: "AB".to_string(),
            slot: 1,
            character_name: "Zane".to_string(),
            player_class: PlayerClass::Operative,
            level: 20,
            experience_points: 19 * 19 * 100,
            ability_points: 0,
            sdu_levels: [0; 8],
            ammo: [0; 7],
            gear_unlocked: [false; 8],
            head_skin: "h".to_string(),
            character_skin: "c".to_string(),
            echo_theme: "e".to_string(),
            money: 0,
            eridium: 0,
            vehicle_unlocked: [false; 12],
        },
    }
}

fn profile_file() -> ProfileFile {
    ProfileFile {
        file_name: "profile.sav".to_string(),
        platform: Platform::Ps4,
        bytes: vec![9],
        model: ProfileModel {
            guardian_rank_tokens: 0,
            science_level: 0,
            science_tokens: 0,
            skins_unlocked: [false; 7],
            sdu_levels: [0, 0],
            guardian_rewards: [0; 18],
            keys: [0; 8],
        },
    }
}

fn save_error(edit: impl Fn(&mut SaveModel)) -> Result<SaveFile, ValidationError> {
    let file = save_file();
    let mut view = SaveViewState::from_file(&file);
    edit(&mut view.fields);
    map_all_states_to_save(&view, &file, &game_data())
}

fn profile_error(edit: impl Fn(&mut ProfileModel)) -> Result<(ProfileFile, bool), ValidationError> {
    let file = profile_file();
    let mut view = ProfileViewState::from_file(&file);
    edit(&mut view.fields);
    map_all_states_to_profile(&view, &file, &game_data())
}

#[test]
fn level_edit_sets_required_experience() {
    let data = game_data();
    let mut view = SaveViewState::from_file(&save_file());
    view.apply_character(SaveCharacterInteractionMessage::Level(3), &data);
    assert_eq!((view.fields.level, view.fields.experience_points), (3, 400));
    view.apply_character(SaveCharacterInteractionMessage::Level(0), &data);
    assert_eq!((view.fields.level, view.fields.experience_points), (0, 0));
    view.apply_character(SaveCharacterInteractionMessage::Level(5), &data);
    view.apply_character(SaveCharacterInteractionMessage::Level(99), &data);
    assert_eq!((view.fields.level, view.fields.experience_points), (99, 1600));
}

#[test]
fn experience_edit_sets_reached_level() {
    let data = game_data();
    let mut view = SaveViewState::from_file(&save_file());
    view.apply_character(SaveCharacterInteractionMessage::ExperiencePoints(450), &data);
    assert_eq!((view.fields.level, view.fields.experience_points), (3, 450));
    view.apply_character(SaveCharacterInteractionMessage::ExperiencePoints(-5), &data);
    assert_eq!(view.fields.level, 1);
    view.apply_character(SaveCharacterInteractionMessage::ExperiencePoints(i32::MAX), &data);
    assert_eq!(view.fields.level, 72);
}

#[test]
fn game_data_level_lookups() {
    let data = game_data();
    assert_eq!(data.experience_for_level(1), Some(0));
    assert_eq!(data.experience_for_level(72), Some(71 * 71 * 100));
    assert_eq!(data.experience_for_level(73), None);
    assert_eq!(data.experience_for_level(0), None);
    assert_eq!(data.experience_to_level(100), 2);
    assert_eq!(data.experience_to_level(99), 1);
}

#[test]
fn maximum_buttons_fill_from_game_data() {
    let data = game_data();
    let mut view = SaveViewState::from_file(&save_file());
    view.apply_character(SaveCharacterInteractionMessage::MaxSduSlotsPressed, &data);
    view.apply_character(SaveCharacterInteractionMessage::MaxAmmoAmountsPressed, &data);
    assert_eq!(view.fields.sdu_levels, data.save_sdu_maximum);
    assert_eq!(view.fields.ammo, data.ammo_maximum);
    view.apply_currency(SaveCurrencyInteractionMessage::MaxMoneyPressed);
    view.apply_currency(SaveCurrencyInteractionMessage::Eridium(12));
    assert_eq!((view.fields.money, view.fields.eridium), (i32::MAX, 12));
}

#[test]
fn slot_edit_renames_pending_file() {
    let mut view = SaveViewState::from_file(&save_file());
    view.apply_general(SaveGeneralInteractionMessage::Slot(26));
    assert_eq!(view.fields.slot, 26);
    assert_eq!(view.file_name_input, "1a.sav");
    view.apply_general(SaveGeneralInteractionMessage::SaveTypeSelected(Platform::Ps4));
    let mapped = map_all_states_to_save(&view, &save_file(), &game_data()).unwrap();
    assert_eq!(mapped.file_name, "1a.sav");
    assert_eq!(mapped.platform, Platform::Ps4);
    assert_eq!(mapped.bytes, vec![1, 2, 3]);
}

#[test]
fn slot_file_names_are_lower_case_hex() {
    assert_eq!(slot_file_name(0), "0.sav");
    assert_eq!(slot_file_name(9), "9.sav");
    assert_eq!(slot_file_name(255), "ff.sav");
    assert_eq!(slot_file_name(4096), "1000.sav");
    assert_eq!(slot_file_name(u32::MAX), "ffffffff.sav");
}

#[test]
fn single_field_edits() {
    let data = game_data();
    let mut view = SaveViewState::from_file(&save_file());
    view.apply_character(SaveCharacterInteractionMessage::SduMessage(SaveSduSlot::Grenade, 7), &data);
    view.apply_character(SaveCharacterInteractionMessage::AmmoMessage(AmmoPool::Heavy, 9), &data);
    view.apply_character(SaveCharacterInteractionMessage::GearMessage(GearSlot::ClassMod, true), &data);
    view.apply_character(
        SaveCharacterInteractionMessage::SkinMessage(SkinSlot::EchoTheme, "Gold".to_string()),
        &data,
    );
    view.apply_vehicle(SaveVehicleInteractionMessage::UnlockMessage(VehiclePart::CycloneSkins, true));
    assert_eq!(view.fields.sdu_levels[4], 7);
    assert_eq!(view.fields.ammo[6], 9);
    assert!(view.fields.gear_unlocked[7]);
    assert_eq!(view.fields.echo_theme, "Gold");
    assert!(view.fields.vehicle_unlocked[11]);
    let mapped = map_all_states_to_save(&view, &save_file(), &data).unwrap();
    assert_eq!(mapped.model.sdu_levels[4], 7);
    assert_eq!(mapped.model.echo_theme, "Gold");
}

#[test]
fn valid_save_edits_round_trip() {
    let data = game_data();
    let mut view = SaveViewState::from_file(&save_file());
    view.apply_character(SaveCharacterInteractionMessage::Level(50), &data);
    view.apply_character(SaveCharacterInteractionMessage::Name("Amara".to_string()), &data);
    let mapped = map_all_states_to_save(&view, &save_file(), &data).unwrap();
    let reseeded = SaveViewState::from_file(&mapped);
    assert_eq!(reseeded.fields.level, 50);
    assert_eq!(reseeded.fields.experience_points, 49 * 49 * 100);
    assert_eq!(reseeded.fields.character_name, "Amara");
    assert_eq!(reseeded.file_name_input, view.file_name_input);
}

#[test]
fn each_save_rule_is_reported() {
    assert_eq!(save_error(|f| f.level = 0).unwrap_err(), ValidationError::LevelOutOfRange);
    assert_eq!(save_error(|f| f.level = 73).unwrap_err(), ValidationError::LevelOutOfRange);
    assert_eq!(
        save_error(|f| f.experience_points = -1).unwrap_err(),
        ValidationError::ExperienceOutOfRange
    );
    assert_eq!(
        save_error(|f| f.experience_points = 71 * 71 * 100 + 1).unwrap_err(),
        ValidationError::ExperienceOutOfRange
    );
    assert_eq!(
        save_error(|f| f.ability_points = -1).unwrap_err(),
        ValidationError::AbilityPointsOutOfRange
    );
    assert_eq!(save_error(|f| f.sdu_levels[4] = 11).unwrap_err(), ValidationError::SduOutOfRange);
    assert_eq!(save_error(|f| f.ammo[0] = -2).unwrap_err(), ValidationError::AmmoOutOfRange);
    assert_eq!(save_error(|f| f.money = -1).unwrap_err(), ValidationError::MoneyOutOfRange);
    assert_eq!(save_error(|f| f.eridium = -1).unwrap_err(), ValidationError::EridiumOutOfRange);
    assert_eq!(
        save_error(|f| {
            f.level = 0;
            f.money = -1;
        })
        .unwrap_err(),
        ValidationError::LevelOutOfRange
    );
    assert!(save_error(|f| f.sdu_levels[4] = 10).is_ok());
}

#[test]
fn each_profile_rule_is_reported() {
    assert_eq!(
        profile_error(|f| f.guardian_rank_tokens = -1).unwrap_err(),
        ValidationError::GuardianRankTokensOutOfRange
    );
    assert_eq!(
        profile_error(|f| f.science_level = 11).unwrap_err(),
        ValidationError::ScienceLevelOutOfRange
    );
    assert_eq!(
        profile_error(|f| f.science_tokens = -3).unwrap_err(),
        ValidationError::ScienceTokensOutOfRange
    );
    assert_eq!(profile_error(|f| f.sdu_levels[0] = 24).unwrap_err(), ValidationError::SduOutOfRange);
    assert_eq!(
        profile_error(|f| f.guardian_rewards[17] = -1).unwrap_err(),
        ValidationError::GuardianRewardOutOfRange
    );
    assert_eq!(profile_error(|f| f.keys[3] = -1).unwrap_err(), ValidationError::KeysOutOfRange);
    let (mapped, injection) = profile_error(|f| f.science_level = 10).unwrap();
    assert!(!injection);
    assert_eq!(mapped.file_name, "profile.sav");
    assert_eq!(mapped.model.science_level, 10);
}

#[test]
fn profile_edits() {
    let data = game_data();
    let mut view = ProfileViewState::from_file(&profile_file());
    view.apply_profile(ProfileInteractionMessage::MaxSduSlotsPressed, &data);
    assert_eq!(view.fields.sdu_levels, [23, 10]);
    view.apply_profile(ProfileInteractionMessage::SduMessage(ProfileSduSlot::LostLoot, 4), &data);
    assert_eq!(view.fields.sdu_levels, [23, 4]);
    view.apply_profile(ProfileInteractionMessage::MaxGuardianRewardsPressed, &data);
    assert!(view.fields.guardian_rewards.iter().all(|r| *r == i32::MAX));
    view.apply_profile(
        ProfileInteractionMessage::GuardianRewardMessage(GuardianReward::VehicleDamage, 2),
        &data,
    );
    assert_eq!(view.fields.guardian_rewards[17], 2);
    view.apply_keys(ProfileKeysInteractionMessage::MaxKeysPressed(KeyKind::DiamondKeys));
    view.apply_keys(ProfileKeysInteractionMessage::Keys(KeyKind::VaultCard3Chests, 6));
    assert_eq!(view.fields.keys[1], i32::MAX);
    assert_eq!(view.fields.keys[7], 6);
    let (mapped, injection) = map_all_states_to_profile(&view, &profile_file(), &data).unwrap();
    assert!(injection);
    assert_eq!(mapped.model.guardian_rewards, view.fields.guardian_rewards);
    assert_eq!(mapped.model.keys, view.fields.keys);
    assert_eq!(mapped.model.sdu_levels, view.fields.sdu_levels);
}
