use bs_utility::error::AppError;
use bs_utility::state::{
    check_load_request, loaded_path, picker_kind, AppProfile, AppState, PickerKind, SaveTarget,
    U32OrString,
};

fn sample_profile() -> AppProfile {
    AppProfile {
        input_folder: "/games/saves".to_string(),
        backup_folder: "/backups".to_string(),
        snapshot_folder: "/snapshots".to_string(),
        backup_time: 5,
        backup_number: 3,
        snapshot_name: "before boss".to_string(),
        profile: "souls.toml".to_string(),
    }
}

#[test]
fn new_state_is_empty() {
    let s = AppState::new();
    assert_eq!(s.count, 0);
    assert_eq!(s.input_folder, "");
    assert_eq!(s.profile, "");
    assert!(!s.backup_status);
    assert_eq!(s.backup_time, 0);
    assert_eq!(s.backup_number, 0);
}

#[test]
fn input_fields_are_set() {
    let mut s = AppState::new();
    assert_eq!(s.set_input_field("backup_time", U32OrString::Number(7)), Ok(true));
    assert_eq!(s.backup_time, 7);
    assert_eq!(s.set_input_field("backup_number", U32OrString::Number(4)), Ok(true));
    assert_eq!(s.backup_number, 4);
    assert_eq!(
        s.set_input_field("snapshot_name", U32OrString::Text("boss".to_string())),
        Ok(true)
    );
    assert_eq!(s.snapshot_name, "boss");
}

#[test]
fn input_fields_of_wrong_kind_are_refused() {
    let mut s = AppState::new();
    let e = s.set_input_field("backup_time", U32OrString::Text("x".to_string())).unwrap_err();
    assert_eq!(e, AppError::BackupTimeNotNumber);
    assert_eq!(e.message(), "Expected a number for backup_time");
    let e = s.set_input_field("backup_number", U32OrString::Text("x".to_string())).unwrap_err();
    assert_eq!(e.message(), "Expected a number for backup_number");
    let e = s.set_input_field("snapshot_name", U32OrString::Number(3)).unwrap_err();
    assert_eq!(e.message(), "Expected a string for snapshot_name");
    let e = s.set_input_field("hotkey", U32OrString::Number(3)).unwrap_err();
    assert_eq!(e.message(), "Invalid invoke_message");
    assert_eq!(s.backup_time, 0);
    assert_eq!(s.snapshot_name, "");
}

#[test]
fn folders_are_chosen_by_role() {
    let mut s = AppState::new();
    assert_eq!(s.select_folder("input", Some("/in".to_string())), Ok("/in".to_string()));
    assert_eq!(s.input_folder, "/in");
    assert_eq!(s.select_folder("backup", Some("/bk".to_string())), Ok("/bk".to_string()));
    assert_eq!(s.backup_folder, "/bk");
    assert_eq!(s.select_folder("snapshot", Some("/sn".to_string())), Ok("/sn".to_string()));
    assert_eq!(s.snapshot_folder, "/sn");
    assert_eq!(s.select_folder("other", Some("/x".to_string())), Ok("/x".to_string()));
    assert_eq!(s.input_folder, "/in");
    assert_eq!(s.backup_folder, "/bk");
    assert_eq!(s.snapshot_folder, "/sn");
}

#[test]
fn input_folder_cannot_be_backup_folder() {
    let mut s = AppState::new();
    s.select_folder("input", Some("/in".to_string())).unwrap();
    let e = s.select_folder("backup", Some("/in".to_string())).unwrap_err();
    assert_eq!(e, AppError::SameAsInput { role: "backup".to_string() });
    assert_eq!(e.message(), "backup folder cannot be the same as input folder");
    assert_eq!(s.backup_folder, "");
    let e = s.select_folder("snapshot", Some("/in".to_string())).unwrap_err();
    assert_eq!(e.message(), "snapshot folder cannot be the same as input folder");
}

#[test]
fn missing_input_folder_is_refused() {
    let mut s = AppState::new();
    let e = s.select_folder("input", None).unwrap_err();
    assert_eq!(e, AppError::PathFetch);
    assert_eq!(e.message(), "Path fetch error");
}

#[test]
fn snapshot_uses_name_and_folders() {
    let mut s = AppState::new();
    s.apply_profile(&sample_profile());
    let job = s.begin_snapshot("first try");
    assert_eq!(s.snapshot_name, "first try");
    assert_eq!(job.source, "/games/saves");
    assert_eq!(job.folder, "/snapshots");
    assert_eq!(job.entry, "first try");
}

#[test]
fn loading_a_profile_sets_every_field() {
    let mut s = AppState::new();
    let p = sample_profile();
    s.apply_profile(&p);
    assert_eq!(s.current_profile(), p);
    assert_eq!(s.count, 0);
    assert!(!s.backup_status);
}

#[test]
fn staged_profile_takes_form_fields_and_loads_back() {
    let mut s = AppState::new();
    s.apply_profile(&sample_profile());
    let mut form = sample_profile();
    form.backup_time = 9;
    form.backup_number = 2;
    form.snapshot_name = "phase two".to_string();
    form.input_folder = "/ignored".to_string();
    let saved = s.stage_profile(&form);
    assert_eq!(s.backup_time, 9);
    assert_eq!(s.backup_number, 2);
    assert_eq!(s.snapshot_name, "phase two");
    assert_eq!(saved.input_folder, "/games/saves");
    assert_eq!(saved.profile, "souls.toml");
    let mut other = AppState::new();
    other.apply_profile(&saved);
    assert_eq!(other.current_profile(), s.current_profile());
}

#[test]
fn save_targets() {
    let mut s = AppState::new();
    assert_eq!(s.save_target("new"), Ok(SaveTarget::NewFile));
    let e = s.save_target("save").unwrap_err();
    assert_eq!(e.message(), "No profile selected");
    let e = s.save_target("export").unwrap_err();
    assert_eq!(e.message(), "Unknown invoke_message");
    s.apply_profile(&sample_profile());
    assert_eq!(s.save_target("save"), Ok(SaveTarget::Existing("souls.toml".to_string())));
}

#[test]
fn new_profile_is_named_after_the_file() {
    let mut s = AppState::new();
    let mut data = sample_profile();
    let r = s.name_new_profile(&mut data, Some(Some("elden.toml".to_string())));
    assert_eq!(r, Ok("elden.toml".to_string()));
    assert_eq!(s.profile, "elden.toml");
    assert_eq!(data.profile, "elden.toml");
    let r = s.name_new_profile(&mut data, Some(None));
    assert_eq!(r, Ok("unknown".to_string()));
    assert_eq!(s.profile, "unknown");
    let e = s.name_new_profile(&mut data, None).unwrap_err();
    assert_eq!(e.message(), "Profile save as failed");
    assert_eq!(s.profile, "unknown");
    assert_eq!(data.profile, "unknown");
}

#[test]
fn profile_dialogs() {
    assert_eq!(picker_kind("new"), PickerKind::SaveDialog);
    assert_eq!(picker_kind("load"), PickerKind::OpenDialog);
    assert_eq!(picker_kind("other"), PickerKind::Fixed("Error".to_string()));
    assert_eq!(check_load_request("load"), Ok(()));
    assert_eq!(check_load_request("save").unwrap_err().message(), "Unknown invoke_message");
    assert_eq!(loaded_path(Some("/p/a.toml".to_string())), Ok("/p/a.toml".to_string()));
    assert_eq!(loaded_path(None).unwrap_err().message(), "Profile load failed");
}

#[test]
fn config_names_the_profile_trimmed() {
    let mut s = AppState::new();
    assert_eq!(s.adopt_config(Some("  souls.toml\n".to_string())), Ok("souls.toml".to_string()));
    assert_eq!(s.profile, "souls.toml");
    assert_eq!(s.config_text(), "souls.toml");
}

#[test]
fn blank_or_missing_config_names_no_profile() {
    let mut s = AppState::new();
    let e = s.adopt_config(Some(" \t\r\n".to_string())).unwrap_err();
    assert_eq!(e, AppError::NoProfileInConfig);
    assert_eq!(e.message(), "No profile saved in config");
    assert_eq!(s.adopt_config(None).unwrap_err(), AppError::NoProfileInConfig);
}

#[test]
fn unreadable_config_keeps_the_profile() {
    let mut s = AppState::new();
    s.apply_profile(&sample_profile());
    assert_eq!(s.adopt_config(None), Ok("souls.toml".to_string()));
}

#[test]
fn config_round_trip() {
    let mut closing = AppState::new();
    closing.apply_profile(&sample_profile());
    let written = closing.config_text();
    let mut starting = AppState::new();
    assert_eq!(starting.adopt_config(Some(written)), Ok("souls.toml".to_string()));
}

#[test]
fn snapshots_with_one_name_share_a_destination() {
    let mut s = AppState::default();
    s.apply_profile(&sample_profile());
    let first = s.begin_snapshot("boss");
    let second = s.begin_snapshot("boss");
    assert_eq!(first, second);
}

#[test]
fn new_profile_is_named_after_the_picked_path() {
    let mut s = AppState::new();
    let mut data = sample_profile();
    let r = s.name_new_profile_from_path(&mut data, Some("/home/me/profiles/elden.toml".to_string()));
    assert_eq!(r, Ok("elden.toml".to_string()));
    assert_eq!(s.profile, "elden.toml");
    assert_eq!(data.profile, "elden.toml");
    let r = s.name_new_profile_from_path(&mut data, Some("/home/me/..".to_string()));
    assert_eq!(r, Ok("unknown".to_string()));
    let e = s.name_new_profile_from_path(&mut data, None).unwrap_err();
    assert_eq!(e.message(), "Profile save as failed");
    assert_eq!(s.profile, "unknown");
}
