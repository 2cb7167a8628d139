use taiwu::{
    backup_target, classify, classify_path, decimal_of, CopyRun, digits_of, is_tracked_path, tracked_path,
    tracked_paths, ChangeEvent, ChangeKind, Decision, FsPath, GameRoot, IgnoreReason,
    Notification, Reaction, Taiwu, TaiwuError, WatchHandle, WatchSession, WatchState,
};

fn path(parts: &[&str]) -> FsPath {
    FsPath::from_parts(parts.iter().map(|s| s.to_string()).collect())
}

fn names(p: &FsPath) -> Vec<String> {
    p.parts().clone()
}

fn engine() -> Taiwu {
    Taiwu::with_path(path(&["/", "games", "taiwu"]), true, Some(path(&["/", "home", "u", "data"])))
        .unwrap()
}

fn event(kind: ChangeKind, paths: Vec<FsPath>) -> ChangeEvent {
    ChangeEvent { kind, paths }
}

#[test]
fn tracked_path_layout() {
    let root = path(&["/", "games", "taiwu"]);
    let p = tracked_path(&root, 3);
    assert_eq!(names(&p), vec!["/", "games", "taiwu", "Save", "world_3", "local.sav"]);
}

#[test]
fn tracked_paths_are_distinct_and_stable() {
    let root = path(&["/", "g"]);
    let all = tracked_paths(&root);
    assert_eq!(all.len(), 5);
    for i in 0..5 {
        assert_eq!(names(&all[i]), names(&tracked_path(&root, i + 1)));
        assert_eq!(names(&all[i])[3], format!("world_{}", i + 1));
        for j in 0..5 {
            if i != j {
                assert!(!all[i].same_as(&all[j]));
            }
        }
    }
}

#[test]
fn tracked_path_membership() {
    let root = path(&["/", "g"]);
    assert!(is_tracked_path(&root, &path(&["/", "g", "Save", "world_5", "local.sav"])));
    assert!(!is_tracked_path(&root, &path(&["/", "g", "Save", "world_6", "local.sav"])));
    assert!(!is_tracked_path(&root, &path(&["/", "g", "Save", "world_1", "other.sav"])));
    assert!(!is_tracked_path(&root, &path(&["/", "g", "Save", "world_1"])));
}

#[test]
fn content_modify_on_save_backs_up_once() {
    let tw = engine();
    let save = tw.save_file(1);
    let ev = event(ChangeKind::ContentModify, vec![save.duplicate()]);
    assert_eq!(classify(&ev, tw.save_files()), vec![Decision::Backup]);
    let out = tw.process(&ev);
    assert_eq!(out.len(), 1);
    assert!(out[0].same_as(&save));
}

#[test]
fn rename_from_on_save_is_ignored() {
    let tw = engine();
    let ev = event(ChangeKind::RenameFrom, vec![tw.save_file(2)]);
    assert_eq!(
        classify(&ev, tw.save_files()),
        vec![Decision::Ignore(IgnoreReason::RenamedAway)]
    );
    assert!(tw.process(&ev).is_empty());
}

#[test]
fn other_kinds_on_save_are_ignored() {
    let tw = engine();
    let save = tw.save_file(4);
    let saves = tw.save_files();
    assert_eq!(
        classify_path(ChangeKind::RenameTo, &save, saves),
        Decision::Ignore(IgnoreReason::UnexpectedModify)
    );
    assert_eq!(
        classify_path(ChangeKind::OtherModify, &save, saves),
        Decision::Ignore(IgnoreReason::UnexpectedModify)
    );
    assert_eq!(
        classify_path(ChangeKind::Other, &save, saves),
        Decision::Ignore(IgnoreReason::NotModify)
    );
}

#[test]
fn untracked_path_is_ignored_whatever_the_kind() {
    let tw = engine();
    let other = path(&["/", "games", "taiwu", "Save", "world_1", "local.sav.tmp"]);
    for kind in [
        ChangeKind::ContentModify,
        ChangeKind::DataModify,
        ChangeKind::RenameFrom,
        ChangeKind::RenameTo,
        ChangeKind::OtherModify,
        ChangeKind::Other,
    ] {
        assert_eq!(
            classify_path(kind, &other, tw.save_files()),
            Decision::Ignore(IgnoreReason::Untracked)
        );
        assert!(tw.process(&event(kind, vec![other.duplicate()])).is_empty());
    }
}

#[test]
fn classify_is_repeatable() {
    let tw = engine();
    let ev = event(
        ChangeKind::ContentModify,
        vec![tw.save_file(1), path(&["/", "x"]), tw.save_file(5)],
    );
    let a = classify(&ev, tw.save_files());
    let b = classify(&ev, tw.save_files());
    assert_eq!(a, b);
    assert_eq!(
        a,
        vec![Decision::Backup, Decision::Ignore(IgnoreReason::Untracked), Decision::Backup]
    );
    let out = tw.process(&ev);
    assert_eq!(out.len(), 2);
    assert_eq!(names(&out[0])[4], "world_1");
    assert_eq!(names(&out[1])[4], "world_5");
}

#[test]
fn decimal_writing() {
    assert_eq!(decimal_of(0), "0");
    assert_eq!(decimal_of(42), "42");
    assert_eq!(decimal_of(-7), "-7");
    assert_eq!(decimal_of(1_700_000_000_123_456_789), "1700000000123456789");
    assert_eq!(decimal_of(i64::MAX), i64::MAX.to_string());
    assert_eq!(decimal_of(i64::MIN), i64::MIN.to_string());
    assert_eq!(digits_of(u64::MAX), u64::MAX.to_string());
    assert_eq!(digits_of(10), "10");
}

#[test]
fn artifact_named_by_instant() {
    let src = path(&["/", "g", "Save", "world_2", "local.sav"]);
    let root = path(&["/", "b"]);
    let t = backup_target(&src, &root, 1_234_567_890);
    assert_eq!(names(&t.folder), vec!["/", "b", "world_2"]);
    assert_eq!(names(&t.file), vec!["/", "b", "world_2", "local.sav.1234567890"]);
}

#[test]
fn distinct_instants_give_distinct_artifacts() {
    let tw = engine();
    let src = tw.save_file(1);
    let a = tw.backup_target_at(&src, 1_000_000_000_000_000_001);
    let b = tw.backup_target_at(&src, 1_000_000_000_000_000_002);
    assert!(!a.file.same_as(&b.file));
    assert!(a.folder.same_as(&b.folder));
}

#[test]
fn copy_lands_in_slot_folder() {
    let tw = engine();
    let src = tw.save_file(1);
    let t = tw.backup_target_at(&src, -1_500);
    assert_eq!(names(&t.folder), vec!["/", "home", "u", "data", "TaiwuBackup", "BackupData", "world_1"]);
    let file = names(&t.file);
    assert_eq!(file[file.len() - 1], "local.sav.-1500");
}

#[test]
fn backup_once_skips_absent_slots() {
    let tw = engine();
    let out = tw.backup_once(&vec![true, false, true, false, false]);
    assert_eq!(out.len(), 2);
    assert!(out[0].same_as(&tw.save_file(1)));
    assert!(out[1].same_as(&tw.save_file(3)));
    assert!(tw.backup_once(&vec![false; 5]).is_empty());
    assert_eq!(tw.backup_once(&vec![true; 5]).len(), 5);
}

#[test]
fn engine_setup_outcomes() {
    let dir = path(&["/", "d"]);
    assert_eq!(
        Taiwu::with_path(path(&["/", "g"]), false, Some(dir.duplicate())).unwrap_err(),
        TaiwuError::GameRootNotFound
    );
    assert_eq!(
        Taiwu::with_path(path(&["/", "g"]), true, None).unwrap_err(),
        TaiwuError::BackupRootDefaultNotAvailable
    );
    assert_eq!(
        Taiwu::new(None, true, Some(dir.duplicate())).unwrap_err(),
        TaiwuError::GameRootNotFound
    );
    assert_eq!(
        Taiwu::new(Some(path(&["/", "g"])), false, Some(dir.duplicate())).unwrap_err(),
        TaiwuError::GameRootNotFound
    );
    assert_eq!(
        Taiwu::new(Some(path(&["/", "g"])), true, None).unwrap_err(),
        TaiwuError::BackupRootDefaultNotAvailable
    );
    let tw = Taiwu::new(Some(path(&["/", "g"])), true, Some(dir)).unwrap();
    assert_eq!(names(&tw.game_root()), vec!["/", "g"]);
    assert_eq!(names(&tw.backup_root()), vec!["/", "d", "TaiwuBackup", "BackupData"]);
    assert_eq!(names(&tw.save_root()), vec!["/", "g", "Save"]);
    assert!(tw.is_save_file(&path(&["/", "g", "Save", "world_2", "local.sav"])));
    assert!(!tw.is_save_file(&path(&["/", "g", "Save", "world_0", "local.sav"])));
}

#[test]
fn game_root_construction() {
    assert!(GameRoot::new(path(&["/", "g"]), false).is_none());
    let r = GameRoot::new(path(&["/", "g"]), true).unwrap();
    assert_eq!(names(r.path()), vec!["/", "g"]);
    assert!(GameRoot::auto(None, true).is_none());
    assert!(GameRoot::auto(Some(path(&["C:", "\\", "Steam"])), false).is_none());
    let a = GameRoot::auto(Some(path(&["C:", "\\", "Steam"])), true).unwrap();
    assert_eq!(names(a.path()), vec!["C:", "\\", "Steam"]);
}

#[test]
fn session_backs_up_on_content_modify() {
    let tw = engine();
    let mut s = WatchSession::new();
    assert!(s.start());
    let n = Notification::Event(event(ChangeKind::ContentModify, vec![tw.save_file(1)]));
    match s.step(&tw, &n) {
        Reaction::BackUp(run) => {
            let first = run.next_copy().unwrap();
            assert!(first.same_as(&tw.save_file(1)));
            let t = tw.backup_target_at(&first, 17);
            assert_eq!(names(&t.folder)[6], "world_1");
            assert_eq!(names(&t.file)[7], "local.sav.17");
        }
        _ => panic!("expected a copy"),
    }
    assert_eq!(s.state(), WatchState::Watching);
}

#[test]
fn session_continues_after_rename_from() {
    let tw = engine();
    let mut s = WatchSession::new();
    s.start();
    let n = Notification::Event(event(ChangeKind::RenameFrom, vec![tw.save_file(1)]));
    match s.step(&tw, &n) {
        Reaction::BackUp(run) => {
            assert!(run.next_copy().is_none());
            assert!(run.is_complete());
        }
        _ => panic!("expected an empty list of copies"),
    }
    assert_eq!(s.state(), WatchState::Watching);
    assert!(matches!(s.step(&tw, &Notification::DeliveryError), Reaction::LogDeliveryError));
    assert_eq!(s.state(), WatchState::Watching);
}

#[test]
fn release_ends_session_and_clears_handle() {
    let tw = engine();
    let mut handle: WatchHandle<u32> = WatchHandle::new();
    let mut s = WatchSession::new();
    assert!(handle.install(7).is_none());
    assert!(s.start());
    assert!(!s.start());
    assert!(handle.is_active());
    assert_eq!(handle.take(), Some(7));
    assert!(!handle.is_active());
    assert_eq!(handle.take(), None);
    assert!(matches!(s.step(&tw, &Notification::Closed), Reaction::Finish));
    assert_eq!(s.state(), WatchState::Idle);
}

#[test]
fn failed_copy_stops_session() {
    let tw = engine();
    let mut s = WatchSession::new();
    s.start();
    let n = Notification::Event(event(
        ChangeKind::ContentModify,
        vec![tw.save_file(1), tw.save_file(2)],
    ));
    let mut run = match s.step(&tw, &n) {
        Reaction::BackUp(run) => run,
        _ => panic!("expected copies"),
    };
    assert!(run.next_copy().unwrap().same_as(&tw.save_file(1)));
    assert!(!run.record(false));
    assert!(run.failed());
    assert!(run.next_copy().is_none());
    assert!(!s.after_copies(&run));
    assert_eq!(s.state(), WatchState::Idle);
    assert!(matches!(s.step(&tw, &n), Reaction::NotWatching));
}

#[test]
fn successful_copies_keep_session_going() {
    let tw = engine();
    let mut s = WatchSession::new();
    s.start();
    let mut run = CopyRun::new(vec![tw.save_file(1), tw.save_file(3)]);
    assert!(run.next_copy().unwrap().same_as(&tw.save_file(1)));
    assert!(run.record(true));
    assert!(run.next_copy().unwrap().same_as(&tw.save_file(3)));
    assert!(!run.record(true));
    assert!(run.is_complete());
    assert!(run.next_copy().is_none());
    assert!(!run.record(false));
    assert!(!run.failed());
    assert!(s.after_copies(&run));
    assert_eq!(s.state(), WatchState::Watching);
}

#[test]
fn start_up_pass_stops_at_first_failure() {
    let tw = engine();
    let mut run = CopyRun::new(tw.backup_once(&vec![true, true, true, false, false]));
    assert!(run.next_copy().is_some());
    assert!(run.record(true));
    assert!(run.next_copy().unwrap().same_as(&tw.save_file(2)));
    assert!(!run.record(false));
    assert!(run.next_copy().is_none());
    assert!(!run.is_complete());
}

#[test]
fn data_modify_on_save_backs_up_once() {
    let tw = engine();
    let save = tw.save_file(3);
    let ev = event(ChangeKind::DataModify, vec![save.duplicate()]);
    assert_eq!(classify(&ev, tw.save_files()), vec![Decision::Backup]);
    let out = tw.process(&ev);
    assert_eq!(out.len(), 1);
    assert!(out[0].same_as(&save));
}
