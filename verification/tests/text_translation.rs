use rfvp::TextTranslationController;

#[test]
fn exact_replacement_wins_and_does_not_queue_network_work() {
    let mut controller = TextTranslationController::default();
    controller.set_replacements(vec![("原文".to_string(), "译文".to_string())]);
    controller.set_online_enabled(true);

    let replacement = controller.begin_source(1, 4, "原文", None);

    assert_eq!(replacement.as_deref(), Some("译文"));
    assert!(controller.drain_requests().is_empty());
    assert_eq!(controller.pending_count(), 0);
}

#[test]
fn result_is_bound_to_slot_generation() {
    let mut controller = TextTranslationController::default();
    controller.set_online_enabled(true);
    assert_eq!(controller.begin_source(2, 10, "A", None), None);
    let first = controller.drain_requests().pop().unwrap();

    assert_eq!(controller.begin_source(2, 11, "B", None), None);
    let second = controller.drain_requests().pop().unwrap();

    assert!(!controller.submit(first.serial, Some("A translated".to_string())));
    assert!(controller.submit(second.serial, Some("B translated".to_string())));
    assert_eq!(controller.take_ready(2, 10), None);
    assert_eq!(
        controller.take_ready(2, 11).as_deref(),
        Some("B translated")
    );
}

#[test]
fn clearing_a_slot_invalidates_pending_results_and_preserves_other_slots() {
    let mut controller = TextTranslationController::default();
    controller.set_online_enabled(true);
    controller.begin_source(3, 1, "A", None);
    controller.begin_source(4, 2, "B", None);
    let requests = controller.drain_requests();

    controller.invalidate_slot(3);
    assert!(!controller.submit(requests[0].serial, Some("A".to_string())));
    assert!(controller.submit(requests[1].serial, Some("B".to_string())));
    assert_eq!(controller.take_ready(4, 2).as_deref(), Some("B"));
}

#[test]
fn offline_or_blank_sources_queue_nothing() {
    let mut controller = TextTranslationController::default();
    assert!(!controller.online_enabled());
    assert_eq!(controller.begin_source(1, 1, "hello", None), None);
    assert!(controller.drain_requests().is_empty());
    controller.set_online_enabled(true);
    assert_eq!(controller.begin_source(1, 2, " \t\u{3000}\n", None), None);
    assert!(controller.drain_requests().is_empty());
    assert_eq!(controller.pending_count(), 0);
}

#[test]
fn requests_carry_source_ruby_and_increasing_serials() {
    let mut controller = TextTranslationController::default();
    controller.set_online_enabled(true);
    controller.begin_source(5, 9, "漢字", Some("かんじ".to_string()));
    controller.begin_source(6, 1, "x", None);
    let requests = controller.drain_requests();
    assert_eq!(requests.len(), 2);
    assert_eq!(requests[0].serial, 1);
    assert_eq!(requests[0].slot, 5);
    assert_eq!(requests[0].generation, 9);
    assert_eq!(requests[0].source, "漢字");
    assert_eq!(requests[0].ruby.as_deref(), Some("かんじ"));
    assert_eq!(requests[1].serial, 2);
    assert!(controller.drain_requests().is_empty());
    assert_eq!(controller.pending_count(), 2);
}

#[test]
fn empty_or_missing_results_retire_the_request() {
    let mut controller = TextTranslationController::default();
    controller.set_online_enabled(true);
    controller.begin_source(1, 1, "a", None);
    controller.begin_source(2, 1, "b", None);
    let requests = controller.drain_requests();
    assert!(controller.submit(requests[0].serial, None));
    assert!(controller.submit(requests[1].serial, Some(String::new())));
    assert_eq!(controller.pending_count(), 0);
    assert_eq!(controller.take_ready(1, 1), None);
    assert!(!controller.submit(requests[0].serial, Some("late".to_string())));
    assert!(!controller.submit(999, Some("unknown".to_string())));
}

#[test]
fn a_result_is_taken_once() {
    let mut controller = TextTranslationController::default();
    controller.set_online_enabled(true);
    controller.begin_source(1, 1, "a", None);
    let serial = controller.drain_requests()[0].serial;
    assert_eq!(controller.take_ready(1, 1), None);
    assert!(controller.submit(serial, Some("A".to_string())));
    assert_eq!(controller.take_ready(1, 1).as_deref(), Some("A"));
    assert_eq!(controller.take_ready(1, 1), None);
    assert_eq!(controller.pending_count(), 0);
}

#[test]
fn going_offline_drops_pending_work() {
    let mut controller = TextTranslationController::default();
    controller.set_online_enabled(true);
    controller.begin_source(1, 1, "a", None);
    let serial = controller.drain_requests()[0].serial;
    controller.set_online_enabled(false);
    assert_eq!(controller.pending_count(), 0);
    assert!(!controller.submit(serial, Some("A".to_string())));
}

#[test]
fn replacement_tables_replace_and_clear() {
    let mut controller = TextTranslationController::default();
    controller.set_replacements(vec![
        ("a".to_string(), "1".to_string()),
        ("a".to_string(), "2".to_string()),
        ("b".to_string(), "3".to_string()),
    ]);
    assert_eq!(controller.begin_source(1, 1, "a", None).as_deref(), Some("2"));
    assert_eq!(controller.begin_source(1, 2, "b", None).as_deref(), Some("3"));
    controller.set_replacements(vec![("c".to_string(), "4".to_string())]);
    assert_eq!(controller.begin_source(1, 3, "a", None), None);
    controller.clear_replacements();
    assert_eq!(controller.begin_source(1, 4, "c", None), None);
}

#[test]
fn clearing_resets_serials_and_tables() {
    let mut controller = TextTranslationController::default();
    controller.set_online_enabled(true);
    controller.set_replacements(vec![("a".to_string(), "1".to_string())]);
    controller.begin_source(1, 1, "x", None);
    controller.clear();
    assert!(!controller.online_enabled());
    assert_eq!(controller.pending_count(), 0);
    assert!(controller.drain_requests().is_empty());
    controller.set_online_enabled(true);
    assert_eq!(controller.begin_source(1, 2, "a", None), None);
    assert_eq!(controller.drain_requests()[0].serial, 1);
}
