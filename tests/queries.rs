use std::sync::atomic::{AtomicU64, Ordering};
use std::sync::Arc;
use virtualizer::{
    Align, InitialOffset, OffsetProvider, Range, RangeExtractor, Rect, Virtualizer, VirtualizerOptions,
};

#[test]
fn lib_fixed_size_range_and_total() {
    let mut v = Virtualizer::new(VirtualizerOptions::new(100, |_| 1));
    v.set_viewport_size(10);
    v.set_scroll_offset(0);
    assert_eq!(v.get_total_size(), 100);

    let r = v.get_virtual_range();
    assert_eq!(r.start_index, 0);
    // 10 visible + overscan(1) at end
    assert_eq!(r.end_index, 11);
}

#[test]
fn lib_overscan_and_scroll() {
    let mut v = Virtualizer::new(VirtualizerOptions::new(100, |_| 1));
    v.set_viewport_size(10);
    v.set_scroll_offset(50);
    let r = v.get_virtual_range();
    assert_eq!(r.start_index, 49);
    assert_eq!(r.end_index, 61);
}

#[test]
fn lib_padding_and_gap_affect_total_and_positions() {
    let mut opts = VirtualizerOptions::new(3, |_| 2);
    opts.padding_start = 10;
    opts.padding_end = 5;
    opts.gap = 1;
    let v = Virtualizer::new(opts);
    // total = pad_start(10) + effective sizes((2+1)+(2+1)+2=8) + pad_end(5) = 23
    assert_eq!(v.get_total_size(), 23);

    let i0 = v.get_virtual_items(); // viewport size 0 => empty
    assert!(i0.is_empty());
}

#[test]
fn measure_updates_total_and_scroll_to_index() {
    let mut opts = VirtualizerOptions::new(5, |_| 1);
    opts.scroll_padding_start = 2;
    let mut v = Virtualizer::new(opts);
    v.set_viewport_size(3);

    assert_eq!(v.get_total_size(), 5);
    v.measure(2, 10);
    assert_eq!(v.get_total_size(), 14);

    // item 2 starts at 2 (sizes 1+1)
    assert_eq!(v.scroll_to_index_offset(2, Align::Start), 0); // start(2)=2, minus sp(2) => 0
    assert_eq!(v.scroll_to_index_offset(4, Align::End), 11); // end(4)=14, view=3 => 11
}

#[test]
fn lib_index_at_offset_with_gap_maps_into_previous_item() {
    let mut opts = VirtualizerOptions::new(2, |_| 2);
    opts.gap = 1; // layout: item0(0..2), gap(2..3), item1(3..5)
    let v = Virtualizer::new(opts);
    assert_eq!(v.index_at_offset(0), Some(0));
    assert_eq!(v.index_at_offset(1), Some(0));
    assert_eq!(v.index_at_offset(2), Some(0)); // inside gap treated as previous
    assert_eq!(v.index_at_offset(3), Some(1));
    assert_eq!(v.index_at_offset(4), Some(1));
}

#[test]
fn lib_range_extractor_can_pin_indices() {
    let mut opts = VirtualizerOptions::new(100, |_| 1);
    opts.overscan = 0;
    opts.range_extractor = Some(RangeExtractor::new(|r: Range| {
        let mut v: Vec<usize> = (r.start_index..r.end_index).collect();
        v.push(0); // pin header
        v.sort_unstable();
        v.dedup();
        v
    }));
    let mut v = Virtualizer::new(opts);
    v.set_viewport_size(5);
    v.set_scroll_offset(50);
    let items = v.get_virtual_items();
    assert!(items.iter().any(|it| it.index == 0));
    assert!(items.iter().any(|it| it.index == 50));
}

#[test]
fn lib_measurements_follow_keys_after_reorder() {
    let mut v = Virtualizer::new(VirtualizerOptions::new(2, |_| 1));
    v.measure(0, 10);
    assert_eq!(v.item_size(0), Some(10));
    assert_eq!(v.item_size(1), Some(1));

    // Simulate data reorder by changing the key mapping.
    v.set_get_item_key(|i| if i == 0 { 1 } else { 0 });
    v.sync_item_keys();

    // The measured size (10) should follow key=0, now at index 1.
    assert_eq!(v.item_size(0), Some(1));
    assert_eq!(v.item_size(1), Some(10));
}

#[test]
fn lib_scroll_margin_affects_visibility_and_item_starts() {
    let mut opts = VirtualizerOptions::new(100, |_| 1);
    opts.scroll_margin = 50;
    let mut v = Virtualizer::new(opts);
    v.set_viewport_size(10);

    // Viewport ends before the list starts.
    v.set_scroll_offset(0);
    assert!(v.get_virtual_items().is_empty());

    // Viewport overlaps the list.
    v.set_scroll_offset(45);
    let items = v.get_virtual_items();
    assert!(!items.is_empty());
    assert_eq!(items[0].index, 0);
    assert_eq!(items[0].start, 50);
}

#[test]
fn lib_resize_item_can_adjust_scroll_to_prevent_jumps() {
    let mut v = Virtualizer::new(VirtualizerOptions::new(5, |_| 10));
    v.set_viewport_size(10);
    v.set_scroll_offset(30);

    // Item 0 starts before scroll offset, so resizing it should shift the scroll position.
    let applied = v.resize_item(0, 15);
    assert_eq!(applied, 5);
    assert_eq!(v.scroll_offset(), 35);
}

#[test]
fn lib_virtual_item_for_offset_maps_to_correct_index() {
    let mut opts = VirtualizerOptions::new(2, |_| 2);
    opts.gap = 1; // item0(0..2), gap(2..3), item1(3..5)
    let v = Virtualizer::new(opts);
    assert_eq!(v.virtual_item_for_offset(0).unwrap().index, 0);
    assert_eq!(v.virtual_item_for_offset(2).unwrap().index, 0);
    assert_eq!(v.virtual_item_for_offset(3).unwrap().index, 1);
}

#[test]
fn measure_all_clears_measurements() {
    let mut v = Virtualizer::new(VirtualizerOptions::new(3, |_| 1));
    v.measure(1, 10);
    assert!(v.is_measured(1));
    assert_eq!(v.item_size(1), Some(10));

    v.measure_all();
    assert!(!v.is_measured(1));
    assert_eq!(v.item_size(1), Some(1));
}

#[test]
fn scroll_to_offset_clamped_respects_max_scroll_offset() {
    let mut v = Virtualizer::new(VirtualizerOptions::new(10, |_| 1));
    v.set_viewport_size(3);
    let max = v.max_scroll_offset();
    v.scroll_to_offset_clamped(u64::MAX);
    assert_eq!(v.scroll_offset(), max);
}

#[test]
fn lib_is_scrolling_resets_after_delay_without_scrollend_event() {
    let mut opts = VirtualizerOptions::new(10, |_| 1);
    opts.is_scrolling_reset_delay_ms = 10;
    let mut v = Virtualizer::new(opts);
    v.notify_scroll_event(0);
    assert!(v.is_scrolling());
    v.update_scrolling(9);
    assert!(v.is_scrolling());
    v.update_scrolling(10);
    assert!(!v.is_scrolling());
}

#[test]
fn range_extractor_v2_receives_visible_range_and_overscan() {
    let mut opts =
        VirtualizerOptions::new(100, |_| 1).with_range_extractor_v2(Some(|r: Range| {
            assert_eq!(r.overscan, 1);
            let mut out: Vec<usize> = (r.start_index..r.end_index).collect();
            out.push(0);
            out
        }));
    opts.overscan = 1;
    let mut v = Virtualizer::new(opts);
    v.set_viewport_size(5);
    v.set_scroll_offset(50);
    let idxs = v.get_virtual_indexes();
    assert!(idxs.contains(&0));
    assert!(idxs.contains(&50));
}

#[test]
fn lib_initial_rect_sets_viewport_and_scroll_rect() {
    let opts = VirtualizerOptions::new(1, |_| 1).with_initial_rect(Some(Rect {
        main: 10,
        cross: 20,
    }));
    let v = Virtualizer::new(opts);
    assert_eq!(v.viewport_size(), 10);
    assert_eq!(
        v.scroll_rect(),
        Rect {
            main: 10,
            cross: 20
        }
    );
}

#[test]
fn lib_set_scroll_rect_updates_viewport_size() {
    let mut v = Virtualizer::new(VirtualizerOptions::new(1, |_| 1));
    v.set_scroll_rect(Rect { main: 7, cross: 9 });
    assert_eq!(v.viewport_size(), 7);
    assert_eq!(v.scroll_rect(), Rect { main: 7, cross: 9 });
}

#[test]
fn lib_initial_offset_provider_is_used() {
    let called: Arc<AtomicU64> = Arc::new(AtomicU64::new(0));
    let seen = Arc::clone(&called);
    let opts = VirtualizerOptions::new(1, |_| 1).with_initial_offset(InitialOffset::Provider(
        OffsetProvider::new(move || {
            seen.fetch_add(1, Ordering::Relaxed);
            42
        }),
    ));
    let v = Virtualizer::new(opts);
    assert_eq!(v.scroll_offset(), 42);
    assert!(called.load(Ordering::Relaxed) >= 1);
}
