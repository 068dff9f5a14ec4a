use gauge_app::history_page::{plan_history_page, HistoryRowMeta, MAX_HISTORY_SCAN};

fn row(t: i64, kind: Option<&str>) -> HistoryRowMeta {
    HistoryRowMeta { changed_at: t, kind: kind.map(|k| k.to_string()) }
}

#[test]
fn newest_first_and_stable() {
    let rows = vec![row(1, Some("a")), row(5, Some("a")), row(3, None), row(5, Some("b"))];
    let plan = plan_history_page(&rows, 0, 10, &None);
    assert_eq!(plan.rows, vec![1, 3, 2, 0]);
    assert_eq!(plan.keep, 4);
    assert!(!plan.has_more);
    assert_eq!(plan.total_count, 4);
    assert_eq!(plan.next_request_offset, 4);
}

#[test]
fn kind_filter_drops_rows_without_id() {
    let rows = vec![row(1, Some("permission_history")), row(2, None), row(3, Some("other"))];
    let kinds = Some(vec!["permission_history".to_string()]);
    let plan = plan_history_page(&rows, 0, 25, &kinds);
    assert_eq!(plan.rows, vec![0]);
    assert_eq!(plan.total_count, 1);
    let empty: Option<Vec<String>> = Some(vec![]);
    let plan = plan_history_page(&rows, 0, 25, &empty);
    assert!(plan.rows.is_empty());
    assert_eq!(plan.total_count, 0);
}

#[test]
fn full_page_fetches_one_extra_row() {
    let rows: Vec<HistoryRowMeta> = (0..5).map(|t| row(t, None)).collect();
    let plan = plan_history_page(&rows, 0, 2, &None);
    assert_eq!(plan.rows, vec![4, 3, 2]);
    assert_eq!(plan.keep, 2);
    assert!(plan.has_more);
    assert_eq!(plan.next_request_offset, 2);
    let plan = plan_history_page(&rows, 2, 2, &None);
    assert_eq!(plan.rows, vec![2, 1, 0]);
    assert_eq!(plan.keep, 2);
    assert!(plan.has_more);
    assert_eq!(plan.next_request_offset, 4);
    let plan = plan_history_page(&rows, 4, 2, &None);
    assert_eq!(plan.rows, vec![0]);
    assert_eq!(plan.keep, 1);
    assert!(!plan.has_more);
    assert_eq!(plan.next_request_offset, 5);
}

#[test]
fn offset_past_the_end() {
    let rows: Vec<HistoryRowMeta> = (0..3).map(|t| row(t, None)).collect();
    let plan = plan_history_page(&rows, 7, 2, &None);
    assert!(plan.rows.is_empty());
    assert_eq!(plan.keep, 0);
    assert!(!plan.has_more);
    assert_eq!(plan.total_count, 3);
    assert_eq!(plan.next_request_offset, 7);
}

#[test]
fn zero_limit_reports_more() {
    let rows: Vec<HistoryRowMeta> = (0..3).map(|t| row(t, None)).collect();
    let plan = plan_history_page(&rows, 0, 0, &None);
    assert_eq!(plan.rows, vec![2]);
    assert_eq!(plan.keep, 0);
    assert!(plan.has_more);
    assert_eq!(plan.next_request_offset, 0);
}

#[test]
fn saturating_offsets() {
    let rows: Vec<HistoryRowMeta> = (0..3).map(|t| row(t, None)).collect();
    let plan = plan_history_page(&rows, u32::MAX, u32::MAX, &None);
    assert!(plan.rows.is_empty());
    assert_eq!(plan.next_request_offset, u32::MAX);
    assert!(!plan.has_more);
}

#[test]
fn paging_one_row_at_a_time_skips_nothing() {
    let rows: Vec<HistoryRowMeta> = (0..3).map(|t| row(t, None)).collect();
    let plan = plan_history_page(&rows, 0, 1, &None);
    assert_eq!(plan.rows, vec![2, 1]);
    assert_eq!(plan.keep, 1);
    assert_eq!(plan.next_request_offset, 1);
    let plan = plan_history_page(&rows, plan.next_request_offset, 1, &None);
    assert_eq!(&plan.rows[..plan.keep], &[1]);
}

#[test]
fn scan_is_capped() {
    let n = MAX_HISTORY_SCAN as i64 + 5;
    let rows: Vec<HistoryRowMeta> = (0..n).map(|t| row(t, None)).collect();
    let plan = plan_history_page(&rows, MAX_HISTORY_SCAN - 1, 10, &None);
    assert_eq!(plan.total_count, MAX_HISTORY_SCAN as u64);
    assert_eq!(plan.rows.len(), 1);
    assert_eq!(plan.rows[0], 5);
    assert!(!plan.has_more);
}

#[test]
fn paging_by_next_offset_covers_all_rows_once() {
    let rows: Vec<HistoryRowMeta> = (0..7).map(|t| row(t % 3, None)).collect();
    let mut seen = Vec::new();
    let mut offset = 0u32;
    loop {
        let plan = plan_history_page(&rows, offset, 3, &None);
        seen.extend_from_slice(&plan.rows[..plan.keep]);
        assert_eq!(plan.next_request_offset, offset + plan.keep as u32);
        offset = plan.next_request_offset;
        if !plan.has_more {
            break;
        }
    }
    assert_eq!(seen, vec![2, 5, 1, 4, 0, 3, 6]);
}
