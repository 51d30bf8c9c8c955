use hearth_web::listing::{page_items, PageItem};

fn nums(v: Vec<PageItem>) -> Vec<Option<u32>> {
    v.into_iter()
        .map(|i| match i {
            PageItem::Number(n) => Some(n),
            PageItem::Ellipsis => None,
        })
        .collect()
}

#[test]
fn page_items_total_zero_shows_single_first() {
    assert_eq!(nums(page_items(1, 0)), vec![Some(1)]);
}

#[test]
fn page_items_total_le_7_shows_every_page() {
    assert_eq!(nums(page_items(1, 7)),
               vec![Some(1), Some(2), Some(3), Some(4), Some(5), Some(6), Some(7)]);
    assert_eq!(nums(page_items(3, 5)),
               vec![Some(1), Some(2), Some(3), Some(4), Some(5)]);
}

#[test]
fn page_items_current_le_4_is_right_leaning() {
    // 1 2 3 4 5 … 10
    assert_eq!(
        nums(page_items(1, 10)),
        vec![Some(1), Some(2), Some(3), Some(4), Some(5), None, Some(10)],
    );
    assert_eq!(
        nums(page_items(4, 10)),
        vec![Some(1), Some(2), Some(3), Some(4), Some(5), None, Some(10)],
    );
}

#[test]
fn page_items_current_in_middle_is_centered() {
    // 1 … 4 5 6 … 10
    assert_eq!(
        nums(page_items(5, 10)),
        vec![Some(1), None, Some(4), Some(5), Some(6), None, Some(10)],
    );
    // current=7, total=10: total-3 = 7, so current >= total-3
    // triggers the left-leaning case → 1 … 6 7 8 9 10.
    assert_eq!(
        nums(page_items(7, 10)),
        vec![Some(1), None, Some(6), Some(7), Some(8), Some(9), Some(10)],
    );
}

#[test]
fn page_items_current_near_end_is_left_leaning() {
    // 1 … 6 7 8 9 10
    assert_eq!(
        nums(page_items(10, 10)),
        vec![Some(1), None, Some(6), Some(7), Some(8), Some(9), Some(10)],
    );
}

#[test]
fn page_items_caps_at_7_slots_in_overflow_cases() {
    for cur in 1..=20 {
        let items = page_items(cur, 20);
        assert_eq!(
            items.len(),
            7,
            "expected 7 slots for cur={cur} total=20, got {}: {items:?}",
            items.len()
        );
    }
}
