use mini_gl_fb::breakout::NANOS_PER_MILLI;
use mini_gl_fb::{BasicInput, Wakeup};

#[test]
fn schedule_orders_soonest_first() {
    let mut input = BasicInput::new();
    let id_a = input.schedule_wakeup(30);
    let id_b = input.schedule_wakeup(10);
    let id_c = input.schedule_wakeup(20);
    assert_eq!(id_a, 0);
    assert_eq!(id_b, 1);
    assert_eq!(id_c, 2);
    let whens: Vec<u64> = input.wakeups.iter().map(|w| w.when).collect();
    assert_eq!(whens, vec![10, 20, 30]);
    let ids: Vec<u32> = input.wakeups.iter().map(|w| w.id).collect();
    assert_eq!(ids, vec![1, 2, 0]);
}

#[test]
fn schedule_ties_keep_scheduling_order() {
    let mut input = BasicInput::new();
    let first = input.schedule_wakeup(10);
    let second = input.schedule_wakeup(10);
    assert_eq!(input.wakeups[0].id, first);
    assert_eq!(input.wakeups[1].id, second);
}

#[test]
fn schedule_counts_ids_up() {
    let mut input = BasicInput::new();
    input.schedule_wakeup(5);
    input.schedule_wakeup(6);
    input.schedule_wakeup(7);
    assert_eq!(input.next_wakeup_id, 3);
}

#[test]
fn cancel_returns_the_wakeup() {
    let mut input = BasicInput::new();
    let id_a = input.schedule_wakeup(30);
    input.schedule_wakeup(10);
    let cancelled = input.cancel_wakeup(id_a);
    assert_eq!(cancelled, Some(Wakeup { when: 30, id: id_a }));
    assert_eq!(input.wakeups.len(), 1);
    assert_eq!(input.wakeups[0].when, 10);
}

#[test]
fn cancel_of_unknown_id_changes_nothing() {
    let mut input = BasicInput::new();
    input.schedule_wakeup(30);
    let cancelled = input.cancel_wakeup(77);
    assert_eq!(cancelled, None);
    assert_eq!(input.wakeups.len(), 1);
}

#[test]
fn cancel_removes_the_soonest_of_equal_ids() {
    let mut input = BasicInput::new();
    input.reschedule_wakeup(Wakeup { when: 40, id: 9 });
    input.reschedule_wakeup(Wakeup { when: 20, id: 9 });
    let cancelled = input.cancel_wakeup(9);
    assert_eq!(cancelled, Some(Wakeup { when: 20, id: 9 }));
    assert_eq!(input.wakeups.len(), 1);
    assert_eq!(input.wakeups[0].when, 40);
}

#[test]
fn reschedule_may_reuse_an_id() {
    let mut input = BasicInput::new();
    let id = input.schedule_wakeup(10);
    let cancelled = input.cancel_wakeup(id).unwrap();
    input.reschedule_wakeup(cancelled);
    assert_eq!(input.wakeups.len(), 1);
    assert_eq!(input.wakeups[0], Wakeup { when: 10, id });
}

#[test]
fn adjust_moves_the_wakeup_in_the_queue() {
    let mut input = BasicInput::new();
    let id_a = input.schedule_wakeup(10);
    let id_b = input.schedule_wakeup(30);
    assert!(input.adjust_wakeup(id_a, 50));
    let order: Vec<(u64, u32)> = input.wakeups.iter().map(|w| (w.when, w.id)).collect();
    assert_eq!(order, vec![(30, id_b), (50, id_a)]);
}

#[test]
fn adjust_of_unknown_id_returns_false() {
    let mut input = BasicInput::new();
    input.schedule_wakeup(10);
    assert!(!input.adjust_wakeup(42, 50));
    assert_eq!(input.wakeups.len(), 1);
    assert_eq!(input.wakeups[0].when, 10);
}

#[test]
fn after_is_at_least_the_duration() {
    let when = Wakeup::after(1_000_000);
    assert!(when >= 1_000_000);
}

#[test]
fn after_millis_is_at_least_the_duration() {
    let when = Wakeup::after_millis(5);
    assert!(when >= 5 * NANOS_PER_MILLI);
}

#[test]
fn after_from_adds_and_saturates() {
    assert_eq!(Wakeup::after_from(100, 20), 120);
    assert_eq!(Wakeup::after_from(u64::MAX - 5, 10), u64::MAX);
}

#[test]
fn trigger_after_keeps_the_id() {
    let mut wakeup = Wakeup { when: 3, id: 8 };
    wakeup.trigger_after(500);
    assert_eq!(wakeup.id, 8);
    assert!(wakeup.when >= 500);
}
