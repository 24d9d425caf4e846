use bs_utility::backup::{entry_name, pause_seconds, saved_message, LoopAction};
use bs_utility::state::AppState;

fn expect_copy(a: LoopAction) -> (String, String, String) {
    match a {
        LoopAction::Copy { source, folder, entry } => (source, folder, entry),
        other => panic!("expected a copy, got {:?}", other),
    }
}

#[test]
fn names_and_messages() {
    assert_eq!(entry_name(0), "Backup 1");
    assert_eq!(entry_name(9), "Backup 10");
    assert_eq!(entry_name(122), "Backup 123");
    assert_eq!(saved_message(0), "Backup 1 saved");
    assert_eq!(saved_message(41), "Backup 42 saved");
}

#[test]
fn pause_is_minutes_in_seconds() {
    assert_eq!(pause_seconds(0), Some(0));
    assert_eq!(pause_seconds(5), Some(300));
    assert_eq!(pause_seconds(71582788), Some(4294967280));
    assert_eq!(pause_seconds(71582789), None);
}

#[test]
fn stopping_gives_no_schedule() {
    let mut s = AppState::new();
    assert!(s.start_backup(5, 3, false).is_none());
    assert_eq!(s.count, 1);
    assert!(!s.backup_status);
    assert_eq!(s.backup_time, 5);
    assert_eq!(s.backup_number, 3);
}

#[test]
fn schedule_rotates_through_slots() {
    let mut s = AppState::new();
    s.select_folder("input", Some("/in".to_string())).unwrap();
    let mut lp = s.start_backup(5, 2, true).unwrap();
    assert_eq!(s.count, 1);
    assert!(s.backup_status);
    let mut entries = Vec::new();
    let mut messages = Vec::new();
    let mut rechecks = 0;
    while entries.len() < 5 {
        match lp.check(s.count, s.backup_status, "/bk".to_string()) {
            LoopAction::Copy { source, folder, entry } => {
                assert_eq!(source, "/in");
                assert_eq!(folder, "/bk");
                entries.push(entry);
                let a = lp.finish().unwrap();
                assert_eq!(a.sleep_seconds, Some(300));
                messages.push(a.message);
            }
            LoopAction::Recheck => rechecks += 1,
            LoopAction::Stop => panic!("stopped"),
        }
    }
    assert_eq!(entries, vec!["Backup 1", "Backup 2", "Backup 1", "Backup 2", "Backup 1"]);
    assert_eq!(
        messages,
        vec!["Backup 1 saved", "Backup 2 saved", "Backup 1 saved", "Backup 2 saved", "Backup 1 saved"]
    );
    assert_eq!(rechecks, 2);
}

#[test]
fn finish_without_backup_announces_nothing() {
    let mut s = AppState::new();
    let mut lp = s.start_backup(1, 1, true).unwrap();
    assert!(lp.finish().is_none());
    let (_, _, entry) = expect_copy(lp.check(s.count, true, "/b".to_string()));
    assert_eq!(entry, "Backup 1");
    assert!(lp.finish().is_some());
    assert!(lp.finish().is_none());
}

#[test]
fn restarting_stops_the_running_schedule() {
    let mut s = AppState::new();
    let mut first = s.start_backup(1, 3, true).unwrap();
    expect_copy(first.check(s.count, s.backup_status, "/b".to_string()));
    first.finish();
    let mut second = s.start_backup(1, 3, true).unwrap();
    assert_eq!(first.check(s.count, s.backup_status, "/b".to_string()), LoopAction::Stop);
    let (_, _, entry) = expect_copy(second.check(s.count, s.backup_status, "/b".to_string()));
    assert_eq!(entry, "Backup 1");
}

#[test]
fn switching_off_stops_the_schedule() {
    let mut s = AppState::new();
    let mut lp = s.start_backup(1, 3, true).unwrap();
    assert_eq!(lp.check(s.count, false, "/b".to_string()), LoopAction::Stop);
    s.start_backup(1, 3, false);
    assert_eq!(lp.check(s.count, s.backup_status, "/b".to_string()), LoopAction::Stop);
}

#[test]
fn no_slots_never_copies() {
    let mut s = AppState::new();
    let mut lp = s.start_backup(1, 0, true).unwrap();
    for _ in 0..4 {
        assert_eq!(lp.check(s.count, true, "/b".to_string()), LoopAction::Recheck);
    }
}

#[test]
fn overflowing_interval_has_no_pause() {
    let mut s = AppState::new();
    let mut lp = s.start_backup(80_000_000, 2, true).unwrap();
    expect_copy(lp.check(s.count, true, "/b".to_string()));
    let a = lp.finish().unwrap();
    assert_eq!(a.message, "Backup 1 saved");
    assert_eq!(a.sleep_seconds, None);
}

#[test]
fn schedules_sharing_a_folder_write_the_same_entries() {
    let mut game_a = AppState::new();
    game_a.select_folder("input", Some("/a".to_string())).unwrap();
    let mut game_b = AppState::new();
    game_b.select_folder("input", Some("/b".to_string())).unwrap();
    let mut la = game_a.start_backup(1, 2, true).unwrap();
    let mut lb = game_b.start_backup(1, 2, true).unwrap();
    let (sa, fa, ea) = expect_copy(la.check(game_a.count, true, "/shared".to_string()));
    let (sb, fb, eb) = expect_copy(lb.check(game_b.count, true, "/shared".to_string()));
    assert_eq!(sa, "/a");
    assert_eq!(sb, "/b");
    assert_eq!(fa, fb);
    assert_eq!(ea, eb);
}

#[test]
fn nothing_is_announced_after_a_stop() {
    let mut s = AppState::new();
    let mut lp = s.start_backup(1, 3, true).unwrap();
    expect_copy(lp.check(s.count, true, "/b".to_string()));
    assert_eq!(lp.check(s.count, false, "/b".to_string()), LoopAction::Stop);
    assert!(lp.finish().is_none());
}
