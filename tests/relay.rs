use launch_relay::deferred::DeferredPush;
use launch_relay::deferred::OPEN_FILE_DELAY_MS;
use launch_relay::greeting::greet;
use launch_relay::launch::candidate_path;
use launch_relay::pending::get_pending_file;
use launch_relay::pending::PendingFile;

fn args_of(items: &[&str]) -> Vec<String> {
    items.iter().map(|s| s.to_string()).collect()
}

#[test]
fn greet_formats_the_name() {
    assert_eq!(greet("Ada"), "Hello, Ada! You've been greeted from Rust!");
    assert_eq!(greet(""), "Hello, ! You've been greeted from Rust!");
}

#[test]
fn candidate_is_the_second_argument() {
    assert_eq!(candidate_path(&args_of(&[])), None);
    assert_eq!(candidate_path(&args_of(&["app"])), None);
    assert_eq!(candidate_path(&args_of(&["app", "/a", "/b"])), Some("/a".to_string()));
}

#[test]
fn new_slot_is_empty() {
    let mut slot = PendingFile::new();
    assert!(!slot.is_holding());
    assert_eq!(get_pending_file(&mut slot), None);
}

#[test]
fn short_argument_lists_capture_nothing() {
    for args in [args_of(&[]), args_of(&["app"])] {
        for exists in [false, true] {
            let mut slot = PendingFile::new();
            assert!(slot.capture_startup_path_checked(&args, exists).is_none());
            assert!(!slot.is_holding());
        }
        let mut slot = PendingFile::new();
        assert!(slot.capture_startup_path(&args).is_none());
        assert_eq!(get_pending_file(&mut slot), None);
    }
}

#[test]
fn startup_single_argument_gives_nothing() {
    let mut slot = PendingFile::new();
    let push = slot.capture_startup_path(&args_of(&["app"]));
    assert!(push.is_none());
    assert_eq!(get_pending_file(&mut slot), None);
}

#[test]
fn startup_existing_file_is_pulled_once_and_pushed_once() {
    let mut slot = PendingFile::new();
    let push = slot.capture_startup_path_checked(&args_of(&["app", "/tmp/real-file.txt"]), true);
    let mut push = push.expect("an accepted path schedules a push");
    assert_eq!(get_pending_file(&mut slot), Some("/tmp/real-file.txt".to_string()));
    assert_eq!(get_pending_file(&mut slot), None);
    assert_eq!(push.path(), "/tmp/real-file.txt");
    assert_eq!(push.poll(0), None);
    assert_eq!(push.poll(OPEN_FILE_DELAY_MS), Some("/tmp/real-file.txt".to_string()));
    assert_eq!(push.poll(OPEN_FILE_DELAY_MS + 1000), None);
}

#[test]
fn startup_checks_the_disk() {
    let mut slot = PendingFile::new();
    let push = slot.capture_startup_path(&args_of(&["app", "/"]));
    assert_eq!(push.map(|p| p.path().clone()), Some("/".to_string()));
    assert_eq!(get_pending_file(&mut slot), Some("/".to_string()));
    assert_eq!(get_pending_file(&mut slot), None);
}

#[test]
fn startup_missing_file_gives_nothing() {
    let mut slot = PendingFile::new();
    let push = slot.capture_startup_path(&args_of(&["app", "/no/such/file"]));
    assert!(push.is_none());
    assert_eq!(get_pending_file(&mut slot), None);
    let push = slot.capture_startup_path_checked(&args_of(&["app", "/no/such/file"]), false);
    assert!(push.is_none());
    assert_eq!(get_pending_file(&mut slot), None);
}

#[test]
fn missing_file_keeps_a_held_path() {
    let mut slot = PendingFile::new();
    slot.store("/kept".to_string());
    assert!(slot.capture_startup_path(&args_of(&["app", "/no/such/file"])).is_none());
    assert_eq!(get_pending_file(&mut slot), Some("/kept".to_string()));
}

#[test]
fn second_launch_raises_window_and_emits_at_once() {
    let mut slot = PendingFile::new();
    let actions = slot.on_second_launch_checked(&args_of(&["app", "/tmp/second.txt"]), true);
    assert!(actions.raise_window);
    assert_eq!(actions.open_file, Some("/tmp/second.txt".to_string()));
    let actions = slot.on_second_launch(&args_of(&["app", "/"]));
    assert!(actions.raise_window);
    assert_eq!(actions.open_file, Some("/".to_string()));
}

#[test]
fn second_launch_without_path_still_raises_window() {
    let mut slot = PendingFile::new();
    let actions = slot.on_second_launch(&args_of(&["app"]));
    assert!(actions.raise_window);
    assert_eq!(actions.open_file, None);
    let actions = slot.on_second_launch(&args_of(&["app", "/no/such/file"]));
    assert!(actions.raise_window);
    assert_eq!(actions.open_file, None);
    assert!(!slot.is_holding());
}

#[test]
fn second_launch_replaces_held_path() {
    let mut slot = PendingFile::new();
    slot.capture_startup_path_checked(&args_of(&["app", "/first"]), true);
    slot.on_second_launch_checked(&args_of(&["app", "/second"]), true);
    assert_eq!(get_pending_file(&mut slot), Some("/second".to_string()));
    assert_eq!(get_pending_file(&mut slot), None);
}

#[test]
fn push_waits_for_the_delay_and_fires_once() {
    let mut push = DeferredPush::new("/p".to_string());
    assert_eq!(push.delay_ms(), 1500);
    assert!(!push.is_delivered());
    assert_eq!(push.poll(1499), None);
    assert!(!push.is_delivered());
    assert_eq!(push.poll(1500), Some("/p".to_string()));
    assert!(push.is_delivered());
    assert_eq!(push.poll(1500), None);
    assert_eq!(push.poll(u64::MAX), None);
}
