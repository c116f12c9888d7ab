use bl3_save_edit_ui::files::{sort_files, LoadedFile};
use bl3_save_edit_ui::message_result::MessageResult;
use bl3_save_edit_ui::notification::{Notification, NotificationSentiment};
use bl3_save_edit_ui::profile_state::{ProfileFile, ProfileModel};
use bl3_save_edit_ui::save_state::{Platform, PlayerClass, SaveFile, SaveModel};

fn save(name: &str, platform: Platform) -> LoadedFile {
    LoadedFile::Save(SaveFile {
        file_name: name.to_string(),
        platform,
        bytes: name.as_bytes().to_vec(),
        model: SaveModel {
            guid: String::new(),
            slot: 0,
            character_name: String::new(),
            player_class: PlayerClass::Siren,
            level: 1,
            experience_points: 0,
            ability_points: 0,
            sdu_levels: [0; 8],
            ammo: [0; 7],
            gear_unlocked: [false; 8],
            head_skin: String::new(),
            character_skin: String::new(),
            echo_theme: String::new(),
            money: 0,
            eridium: 0,
            vehicle_unlocked: [false; 12],
        },
    })
}

fn profile(name: &str) -> LoadedFile {
    LoadedFile::Profile(ProfileFile {
        file_name: name.to_string(),
        platform: Platform::Pc,
        bytes: vec![],
        model: ProfileModel {
            guardian_rank_tokens: 0,
            science_level: 0,
            science_tokens: 0,
            skins_unlocked: [false; 7],
            sdu_levels: [0, 0],
            guardian_rewards: [0; 18],
            keys: [0; 8],
        },
    })
}

fn names(files: &[LoadedFile]) -> Vec<String> {
    files.iter().map(|f| f.file_name().clone()).collect()
}

#[test]
fn display_order_is_by_name_whatever_the_scan_order() {
    let a = sort_files(vec![save("b.sav", Platform::Pc), profile("profile.sav"), save("a.sav", Platform::Pc), save("10.sav", Platform::Pc)]);
    let b = sort_files(vec![save("10.sav", Platform::Pc), save("a.sav", Platform::Pc), save("b.sav", Platform::Pc), profile("profile.sav")]);
    let expected = vec!["10.sav", "a.sav", "b.sav", "profile.sav"];
    assert_eq!(names(&a), expected);
    assert_eq!(names(&b), expected);
}

#[test]
fn display_order_compares_bytes_and_prefixes() {
    let sorted = sort_files(vec![save("ab.sav", Platform::Pc), save("Zz.sav", Platform::Pc), save("a.sav", Platform::Pc), save("a", Platform::Pc)]);
    assert_eq!(names(&sorted), vec!["Zz.sav", "a", "a.sav", "ab.sav"]);
}

#[test]
fn duplicate_files_are_shown_once() {
    let sorted = sort_files(vec![save("1.sav", Platform::Pc), save("1.sav", Platform::Pc), save("2.sav", Platform::Pc)]);
    assert_eq!(names(&sorted), vec!["1.sav", "2.sav"]);
}

#[test]
fn same_name_different_kind_orders_by_kind() {
    let sorted = sort_files(vec![save("1.sav", Platform::Ps4), save("1.sav", Platform::Pc)]);
    assert_eq!(sorted.len(), 2);
    assert!(matches!(&sorted[0], LoadedFile::Save(f) if f.platform == Platform::Pc));
    assert!(matches!(&sorted[1], LoadedFile::Save(f) if f.platform == Platform::Ps4));
}

#[test]
fn empty_scan_sorts_to_empty() {
    assert!(sort_files(vec![]).is_empty());
}

#[test]
fn same_file_is_kind_and_name() {
    assert!(save("1.sav", Platform::Pc).is_same_file(&save("1.sav", Platform::Pc)));
    assert!(!save("1.sav", Platform::Pc).is_same_file(&save("1.sav", Platform::Ps4)));
    assert!(!save("1.sav", Platform::Pc).is_same_file(&save("2.sav", Platform::Pc)));
}

#[test]
fn handle_result_keeps_value_or_error_text() {
    let ok: anyhow::Result<u32> = Ok(7);
    assert!(matches!(MessageResult::handle_result(ok), MessageResult::Success(7)));
    let err: anyhow::Result<u32> = Err(anyhow::Error::msg("no such folder"));
    match MessageResult::handle_result(err) {
        MessageResult::Error(e) => assert_eq!(e, "no such folder"),
        MessageResult::Success(_) => panic!("expected an error"),
    }
}

#[test]
fn handle_ui_error_only_on_failure() {
    let mut notification: Option<Notification> = None;
    MessageResult::Success(()).handle_ui_error("Failed to open", &mut notification);
    assert!(notification.is_none());
    MessageResult::<()>::Error("gone".to_string()).handle_ui_error("Failed to open", &mut notification);
    let n = notification.unwrap();
    assert_eq!(n.message, "Failed to open: gone.");
    assert_eq!(n.sentiment, NotificationSentiment::Negative);
}
