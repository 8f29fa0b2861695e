use dispatcher::pipeline::{
    data_message, dispatch_route, done_message, DoneTally, MessageKind, ReceiverAction,
};
use dispatcher::report::{is_print, RoundCounter};
use dispatcher::routing::{Route, RouteTable};

#[test]
fn receiver_actions() {
    assert_eq!(MessageKind::Data.receiver_action(), ReceiverAction::Count);
    assert_eq!(MessageKind::Done.receiver_action(), ReceiverAction::ReportDone);
}

#[test]
fn pipeline_messages() {
    let template = vec![0u8, 7, 8, 9];
    let m = data_message(&template, 25, 10);
    assert_eq!(m, vec![6u8, 7, 8, 9]);
    let m = data_message(&template, 255, 4);
    assert_eq!(m, vec![4u8, 7, 8, 9]);
    let d = done_message(template.clone(), 3);
    assert_eq!(d, vec![3u8, 7, 8, 9]);
}

#[test]
fn pipeline_routing_by_first_byte() {
    let t = RouteTable::receivers(4);
    assert_eq!(dispatch_route(&t, &[4u8, 0]), Route::Forward(4));
    assert_eq!(dispatch_route(&t, &[5u8]), Route::Misroute(5));
    assert_eq!(dispatch_route(&t, &[0u8]), Route::Misroute(0));
    let template = vec![0u8; 16];
    for r in 0..=255u8 {
        let m = data_message(&template, r, 4);
        assert_eq!(dispatch_route(&t, &m), Route::Forward(m[0] as u32));
    }
}

#[test]
fn done_tally_finishes_at_expected() {
    let mut t = DoneTally::new(3);
    assert!(!t.on_done());
    assert!(!t.on_done());
    assert!(t.on_done());
    assert_eq!(t.seen, 3);
    let mut none = DoneTally::new(0);
    assert!(!none.on_done());
}

#[test]
fn is_print_cases() {
    assert!(is_print(1));
    assert!(is_print(1001));
    assert!(is_print(191_999_001));
    assert!(!is_print(0));
    assert!(!is_print(2));
    assert!(!is_print(1000));
    assert!(!is_print(-999));
    assert!(!is_print(-1));
    assert!(!is_print(191_999_999));
    assert!(is_print(192_000_000));
    assert!(is_print(192_000_002));
    assert!(is_print(i32::MAX));
}

#[test]
fn round_counter_reports_in_batches() {
    let mut c = RoundCounter::new(3);
    let reports: Vec<Option<usize>> = (0..7).map(|_| c.tick()).collect();
    assert_eq!(
        reports,
        vec![None, None, Some(3), None, None, Some(3), None]
    );
    assert_eq!(c.pending, 1);
    let total: usize = reports.iter().flatten().sum();
    assert_eq!(total + c.pending, 7);
    let mut one = RoundCounter::new(1);
    assert_eq!(one.tick(), Some(1));
    assert_eq!(one.pending, 0);
}

#[test]
fn is_print_counts_one_in_a_thousand() {
    assert_eq!((1..10_000).filter(|n| is_print(*n)).count(), 10);
    assert_eq!((1..2).filter(|n| is_print(*n)).count(), 1);
    assert_eq!((191_999_000..192_000_000).filter(|n| is_print(*n)).count(), 1);
}
