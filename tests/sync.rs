use chrono::NaiveDate;
use fd_client::sync::{
    full_sync_statuses, newest_update, weekly_ranges, week_query, is_text_after, PageAction,
    PageOutcome, Pager,
};
use chrono::Datelike;

#[test]
fn weeks_up_to_today() {
    assert_eq!(weekly_ranges(0, 15), vec![(0, 7), (7, 14), (14, 15)]);
    assert_eq!(weekly_ranges(0, 14), vec![(0, 7), (7, 14)]);
    assert_eq!(weekly_ranges(5, 5), vec![]);
    assert_eq!(weekly_ranges(9, 2), vec![]);
}

#[test]
fn query_for_a_week() {
    let from = NaiveDate::from_ymd_opt(2025, 1, 1).unwrap().num_days_from_ce();
    let to = NaiveDate::from_ymd_opt(2025, 1, 8).unwrap().num_days_from_ce();
    assert_eq!(
        week_query(2, from, to),
        "\"status:2 AND created_at:>'2025-01-01' AND created_at:<'2025-01-08'\""
    );
}

#[test]
fn statuses_of_a_full_sync() {
    let s = full_sync_statuses();
    assert_eq!(s, vec![(2, "Open"), (3, "Pending"), (4, "Resolved"), (5, "Closed")]);
}

#[test]
fn paging() {
    let mut p = Pager::new(2, 30);
    assert_eq!(p.page(), 1);
    assert!(p.should_fetch());
    assert_eq!(p.after(PageOutcome::RateLimited), PageAction::Retry);
    assert_eq!(p.page(), 1);
    assert_eq!(p.after(PageOutcome::Items(30)), PageAction::Next);
    assert_eq!(p.page(), 2);
    assert_eq!(p.after(PageOutcome::Items(30)), PageAction::Stop);
    let mut p = Pager::new(10, 30);
    assert_eq!(p.after(PageOutcome::Items(29)), PageAction::Stop);
    assert_eq!(p.after(PageOutcome::Items(0)), PageAction::Stop);
    assert_eq!(p.after(PageOutcome::Failed), PageAction::Stop);
    assert_eq!(p.page(), 1);
}

#[test]
fn newest_update_keeps_the_latest() {
    let a = Some("2025-01-02T00:00:00Z".to_string());
    let b = Some("2025-01-03T00:00:00Z".to_string());
    assert_eq!(newest_update(None, &a), a);
    assert_eq!(newest_update(a.clone(), &b), b);
    assert_eq!(newest_update(b.clone(), &a), b);
    assert_eq!(newest_update(b.clone(), &None), b);
    assert_eq!(newest_update(None, &None), None);
}

#[test]
fn text_order() {
    assert!(is_text_after("b", "a"));
    assert!(is_text_after("ab", "a"));
    assert!(!is_text_after("a", "ab"));
    assert!(!is_text_after("a", "a"));
    assert!(is_text_after("é", "z"));
    assert_eq!(is_text_after("x1", "x2"), "x1" > "x2");
}
