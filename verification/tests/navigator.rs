use demo_crawler::navigator::FilteredListNavigator;

fn nav_from(discs: &[u64]) -> FilteredListNavigator {
    let items: Vec<Option<u64>> = discs.iter().map(|d| Some(*d)).collect();
    let labels: Vec<String> = discs.iter().map(|d| format!("kind-{}", d)).collect();
    FilteredListNavigator::build(items, labels)
}

#[test]
fn build_lists_every_item_with_all_filters_enabled() {
    let nav = nav_from(&[7, 8, 7, 9, 8]);
    assert_eq!(nav.display, vec![0, 1, 2, 3, 4]);
    assert_eq!(nav.active, None);
    assert_eq!(nav.filters.len(), 3);
    // first-occurrence order with occurrence counts
    assert_eq!(nav.filters[0].disc, 7);
    assert_eq!(nav.filters[0].count, 2);
    assert_eq!(nav.filters[0].label, "kind-7");
    assert_eq!(nav.filters[1].disc, 8);
    assert_eq!(nav.filters[1].count, 2);
    assert_eq!(nav.filters[2].disc, 9);
    assert_eq!(nav.filters[2].count, 1);
    assert!(nav.filters.iter().all(|f| f.enabled));
}

#[test]
fn select_in_bounds_yields_that_index() {
    let mut nav = nav_from(&[1, 2, 3]);
    for i in 0..3usize {
        assert!(nav.select(i));
        assert_eq!(nav.active, Some(i));
    }
}

#[test]
fn select_out_of_bounds_fails_and_keeps_selection() {
    let mut nav = nav_from(&[1, 2, 3]);
    assert!(nav.select(1));
    assert!(!nav.select(3));
    assert_eq!(nav.active, Some(1));
    assert!(!nav.select(usize::MAX));
    assert_eq!(nav.active, Some(1));
}

#[test]
fn select_unparsed_record_fails() {
    let items: Vec<Option<u64>> = vec![Some(1), None, Some(2)];
    let labels: Vec<String> = vec!["a".into(), "b".into(), "c".into()];
    let mut nav = FilteredListNavigator::build(items, labels);
    assert_eq!(nav.display, vec![0, 2]);
    assert!(!nav.select(1));
    assert_eq!(nav.active, None);
}

#[test]
fn clear_filters_is_idempotent() {
    let mut nav = nav_from(&[5, 6, 5, 7]);
    assert!(nav.set_enabled(6, false));
    nav.clear_filters();
    let once = nav.display.clone();
    nav.clear_filters();
    assert_eq!(nav.display, once);
}

#[test]
fn filtering_removes_exactly_matching_items_and_reenabling_restores() {
    // collection of 5 frames with discriminators [A,B,A,C,B]
    let a = 10u64;
    let b = 11u64;
    let c = 12u64;
    let mut nav = nav_from(&[a, b, a, c, b]);
    let before = nav.display.clone();
    assert!(nav.set_enabled(b, false));
    // disabling B yields display list of frames [0,2,3]
    assert_eq!(nav.display, vec![0, 2, 3]);
    assert!(nav.set_enabled(b, true));
    assert_eq!(nav.display, before);
}

#[test]
fn selecting_filtered_out_item_clears_filters_and_succeeds() {
    let a = 10u64;
    let b = 11u64;
    let c = 12u64;
    let mut nav = nav_from(&[a, b, a, c, b]);
    assert!(nav.set_enabled(b, false));
    assert_eq!(nav.display, vec![0, 2, 3]);
    // selecting absolute index 1 (a B frame, filtered out) clears filters
    assert!(nav.select(1));
    assert_eq!(nav.active, Some(1));
    assert!(nav.filters.iter().all(|f| f.enabled));
    assert_eq!(nav.display, vec![0, 1, 2, 3, 4]);
}

#[test]
fn next_then_prev_round_trips_off_boundary() {
    let mut nav = nav_from(&[1, 2, 3, 4]);
    assert!(nav.select(1));
    assert!(nav.next());
    assert_eq!(nav.active, Some(2));
    assert!(nav.prev());
    assert_eq!(nav.active, Some(1));
}

#[test]
fn next_at_end_and_prev_at_start_are_no_ops() {
    let mut nav = nav_from(&[1, 2]);
    assert!(nav.select(0));
    assert!(!nav.prev());
    assert_eq!(nav.active, Some(0));
    assert!(nav.select(1));
    assert!(!nav.next());
    assert_eq!(nav.active, Some(1));
}

#[test]
fn first_next_behaves_as_first_without_selection() {
    let mut nav = nav_from(&[4, 5, 6]);
    assert!(nav.next());
    assert_eq!(nav.active, Some(0));
}

#[test]
fn three_nexts_from_no_selection_land_on_position_two() {
    let mut nav = nav_from(&[1, 2, 3, 4, 5]);
    assert!(nav.next());
    assert!(nav.next());
    assert!(nav.next());
    assert_eq!(nav.active, Some(nav.display[2]));
    assert_eq!(nav.active, Some(2));
}

#[test]
fn single_item_collection_boundaries() {
    let mut nav = nav_from(&[42]);
    assert!(nav.select(0));
    assert!(nav.last());
    assert_eq!(nav.active, Some(0));
    assert!(nav.first());
    assert_eq!(nav.active, Some(0));
    assert!(!nav.next());
    assert_eq!(nav.active, Some(0));
    assert!(!nav.prev());
    assert_eq!(nav.active, Some(0));
}

#[test]
fn empty_collection_first_and_last_are_no_ops() {
    let mut nav = nav_from(&[]);
    assert!(!nav.first());
    assert!(!nav.last());
    assert!(!nav.next());
    assert!(!nav.prev());
    assert_eq!(nav.active, None);
}

#[test]
fn selection_hidden_by_filter_toggle_is_cleared() {
    let mut nav = nav_from(&[1, 2, 1]);
    assert!(nav.select(1));
    assert!(nav.set_enabled(2, false));
    assert_eq!(nav.display, vec![0, 2]);
    assert_eq!(nav.active, None);
}

#[test]
fn selection_surviving_filter_toggle_is_kept() {
    let mut nav = nav_from(&[1, 2, 1]);
    assert!(nav.select(0));
    assert!(nav.set_enabled(2, false));
    assert_eq!(nav.active, Some(0));
}

#[test]
fn unknown_discriminator_toggle_fails() {
    let mut nav = nav_from(&[1, 2]);
    assert!(!nav.set_enabled(99, false));
    assert_eq!(nav.display, vec![0, 1]);
}

#[test]
fn scroll_pending_set_on_select_and_taken_once() {
    let mut nav = nav_from(&[1, 2]);
    assert!(!nav.take_scroll_pending());
    assert!(nav.select(1));
    assert!(nav.take_scroll_pending());
    assert!(!nav.take_scroll_pending());
}

#[test]
fn selecting_the_same_index_twice_is_idempotent() {
    let mut nav = nav_from(&[1, 2, 3]);
    assert!(nav.select(2));
    let display = nav.display.clone();
    assert!(nav.select(2));
    assert_eq!(nav.active, Some(2));
    assert_eq!(nav.display, display);
}
