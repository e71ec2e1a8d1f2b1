use pacman_world_splitter::watcher::{Pair, Watcher};

#[test]
fn watcher_starts_undefined() {
    let w: Watcher<u32> = Watcher::new();
    assert!(w.pair.is_none());
    let d: Watcher<bool> = Watcher::default();
    assert!(d.pair.is_none());
}

#[test]
fn first_update_defines_both_old_and_current() {
    let mut w: Watcher<u32> = Watcher::new();
    w.update(5);
    let p = w.pair.unwrap();
    assert_eq!(p.old, 5);
    assert_eq!(p.current, 5);
}

#[test]
fn update_shifts_current_to_old() {
    let mut w: Watcher<u32> = Watcher::new();
    w.update(5);
    w.update(7);
    let p = w.pair.unwrap();
    assert_eq!(p.old, 5);
    assert_eq!(p.current, 7);
    w.update(7);
    let p = w.pair.unwrap();
    assert_eq!(p.old, 7);
    assert_eq!(p.current, 7);
}

#[test]
fn changed_to_requires_a_transition() {
    let rising = Pair { old: false, current: true };
    assert!(rising.changed_to(true));
    assert!(!rising.changed_to(false));
    assert!(rising.changed());

    let steady = Pair { old: true, current: true };
    assert!(!steady.changed_to(true));
    assert!(!steady.changed());

    let falling = Pair { old: true, current: false };
    assert!(!falling.changed_to(true));
    assert!(falling.changed_to(false));
}

#[test]
fn undefined_watcher_reports_no_change() {
    let w: Watcher<bool> = Watcher::new();
    assert!(!w.changed());
    assert!(!w.changed_to(true));
    assert!(!w.changed_to(false));
    let n: Watcher<u32> = Watcher::new();
    assert!(!n.changed());
    assert!(!n.changed_to(0));
}

#[test]
fn defined_watcher_answers_change_queries() {
    let mut w: Watcher<bool> = Watcher::new();
    w.update(false);
    assert!(!w.changed_to(true));
    w.update(true);
    assert!(w.changed_to(true));
    assert!(w.changed());
    w.update(true);
    assert!(!w.changed_to(true));
    assert!(!w.changed());
}

#[test]
fn changed_to_on_numbers() {
    let p = Pair { old: 1001u32, current: 1u32 };
    assert!(p.changed_to(1));
    assert!(!p.changed_to(1001));
    let q = Pair { old: 1u32, current: 1u32 };
    assert!(!q.changed_to(1));
}
