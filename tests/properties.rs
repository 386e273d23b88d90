use std::sync::atomic::{AtomicUsize, Ordering};
use std::sync::Arc;
use virtualizer::emitter::keep_accepted;
use virtualizer::{
    Align, IndexEmitter, Range, Rect, ScrollDirection, VirtualRange, Virtualizer,
    VirtualizerOptions,
};

fn counting(count: usize) -> (Virtualizer, Arc<AtomicUsize>) {
    let calls: Arc<AtomicUsize> = Arc::new(AtomicUsize::new(0));
    let seen = Arc::clone(&calls);
    let v = Virtualizer::new(VirtualizerOptions::new(count, |_| 1).with_on_change(Some(
        move |_: &Virtualizer, _: bool| {
            seen.fetch_add(1, Ordering::Relaxed);
        },
    )));
    (v, calls)
}

#[test]
fn total_size_is_padding_plus_effective_sizes() {
    for n in 0..6usize {
        for gap in 0..3u32 {
            let opts = VirtualizerOptions::new(n, |i| (i as u32) + 1)
                .with_gap(gap)
                .with_padding(4, 7)
                .with_scroll_margin(100);
            let v = Virtualizer::new(opts);
            let sizes: u64 = (0..n as u64).map(|i| i + 1).sum();
            let gaps = if n > 1 { (n as u64 - 1) * gap as u64 } else { 0 };
            assert_eq!(v.total_size(), 4 + sizes + gaps + 7);
        }
    }
}

#[test]
fn total_size_follows_measurements() {
    let mut v = Virtualizer::new(VirtualizerOptions::new(4, |_| 5).with_gap(2));
    assert_eq!(v.total_size(), 4 * 5 + 3 * 2);
    v.measure(3, 1);
    assert_eq!(v.total_size(), 3 * 5 + 1 + 3 * 2);
    v.set_gap(0);
    assert_eq!(v.total_size(), 3 * 5 + 1);
}

#[test]
fn index_at_offset_is_monotone_and_hits_item_starts() {
    let opts = VirtualizerOptions::new(6, |i| [3u32, 1, 4, 1, 5, 9][i])
        .with_gap(2)
        .with_padding(3, 1)
        .with_scroll_margin(5);
    let v = Virtualizer::new(opts);
    let mut prev = 0usize;
    for off in 0..60u64 {
        let i = v.index_at_offset(off).unwrap();
        assert!(i >= prev);
        assert!(i < 6);
        prev = i;
    }
    for i in 0..6usize {
        let start = v.item_start(i).unwrap();
        assert_eq!(v.index_at_offset(start), Some(i));
        let end = v.item_end(i).unwrap();
        // inside the gap after item i
        if i + 1 < 6 {
            assert_eq!(v.index_at_offset(end), Some(i));
            assert_eq!(v.index_at_offset(end + 1), Some(i));
        }
    }
}

#[test]
fn scenario_d_gap_belongs_to_previous_item() {
    let v = Virtualizer::new(VirtualizerOptions::new(2, |_| 2).with_gap(1));
    assert_eq!(v.index_at_offset(2), Some(0));
    assert_eq!(v.index_at_offset(3), Some(1));
}

#[test]
fn cache_round_trip_restores_sizes() {
    let mut a = Virtualizer::new(VirtualizerOptions::new(8, |_| 3));
    a.measure(1, 11);
    a.measure(6, 17);
    a.measure(1, 12);
    let snapshot = a.export_measurement_cache();
    assert_eq!(snapshot.len(), 2);
    let mut b = Virtualizer::new(VirtualizerOptions::new(8, |_| 3));
    b.import_measurement_cache(snapshot);
    for i in 0..8usize {
        if a.is_measured(i) {
            assert_eq!(b.item_size(i), a.item_size(i));
            assert!(b.is_measured(i));
        }
    }
    assert_eq!(b.item_size(1), Some(12));
    assert_eq!(b.item_size(6), Some(17));
    assert_eq!(b.item_size(0), Some(3));
}

#[test]
fn setters_with_current_values_do_not_notify() {
    let (mut v, calls) = counting(10);
    v.set_overscan(1);
    v.set_padding(0, 0);
    v.set_scroll_padding(0, 0);
    v.set_scroll_margin(0);
    v.set_gap(0);
    v.set_count(10);
    v.set_enabled(true);
    v.set_is_scrolling(false);
    v.set_scroll_offset(0);
    v.set_viewport_size(0);
    v.set_scroll_rect(Rect { main: 0, cross: 0 });
    v.set_use_scrollend_event(false);
    v.set_is_scrolling_reset_delay_ms(150);
    v.set_initial_offset(0);
    v.set_debug(false);
    v.set_horizontal(false);
    assert_eq!(calls.load(Ordering::Relaxed), 0);
    v.set_overscan(2);
    assert_eq!(calls.load(Ordering::Relaxed), 1);
}

#[test]
fn visible_range_lies_within_virtual_range() {
    let v = Virtualizer::new(
        VirtualizerOptions::new(20, |i| (i % 3) as u32 + 1)
            .with_overscan(2)
            .with_scroll_margin(4)
            .with_padding(2, 2),
    );
    for off in (0..80u64).step_by(3) {
        for view in 0..12u32 {
            let vis = v.visible_range_for(off, view);
            let virt = v.virtual_range_for(off, view);
            assert!(vis.end_index <= 20 && virt.end_index <= 20);
            if vis.is_empty() {
                assert_eq!(vis, virt);
            } else {
                assert!(virt.start_index <= vis.start_index);
                assert!(vis.end_index <= virt.end_index);
            }
        }
    }
}

#[test]
fn scenario_a_visible_and_virtual() {
    let mut v = Virtualizer::new(VirtualizerOptions::new(100, |_| 1));
    v.set_viewport_size(10);
    assert_eq!(v.visible_range(), VirtualRange { start_index: 0, end_index: 10 });
    assert_eq!(v.virtual_range(), VirtualRange { start_index: 0, end_index: 11 });
}

#[test]
fn scenario_b_virtual_after_scroll() {
    let mut v = Virtualizer::new(VirtualizerOptions::new(100, |_| 1));
    v.set_viewport_size(10);
    v.set_scroll_offset(50);
    assert_eq!(v.virtual_range(), VirtualRange { start_index: 49, end_index: 61 });
}

#[test]
fn scenario_c_measure_and_align() {
    let mut v = Virtualizer::new(VirtualizerOptions::new(5, |_| 1).with_scroll_padding(2, 0));
    v.measure(2, 10);
    assert_eq!(v.total_size(), 14);
    assert_eq!(v.scroll_to_index_offset(2, Align::Start), 0);
    v.set_viewport_size(3);
    assert_eq!(v.scroll_to_index_offset(4, Align::End), 11);
}

#[test]
fn scenario_e_resize_compensates_scroll() {
    let mut v = Virtualizer::new(VirtualizerOptions::new(5, |_| 10));
    v.set_viewport_size(10);
    v.set_scroll_offset(30);
    assert_eq!(v.resize_item(0, 15), 5);
    assert_eq!(v.scroll_offset(), 35);
    // an item after the offset does not move it
    assert_eq!(v.resize_item(4, 20), 0);
    assert_eq!(v.scroll_offset(), 35);
    // a shrink moves it back
    assert_eq!(v.resize_item(0, 10), -5);
    assert_eq!(v.scroll_offset(), 30);
}

#[test]
fn resize_policy_decides() {
    let mut v = Virtualizer::new(
        VirtualizerOptions::new(5, |_| 10).with_should_adjust_scroll_position_on_item_size_change(
            Some(|_: &Virtualizer, _item: virtualizer::VirtualItem, _delta: i64| false),
        ),
    );
    v.set_scroll_offset(30);
    assert_eq!(v.resize_item(0, 15), 0);
    assert_eq!(v.scroll_offset(), 30);
    assert_eq!(v.item_size(0), Some(15));
}

#[test]
fn three_setters_in_a_batch_notify_once() {
    let (mut v, calls) = counting(10);
    v.batch_update(|v| {
        v.set_viewport_size(4);
        v.set_scroll_offset(2);
        v.set_overscan(3);
    });
    assert_eq!(calls.load(Ordering::Relaxed), 1);
    v.batch_update(|_| {});
    assert_eq!(calls.load(Ordering::Relaxed), 1);
}

#[test]
fn empty_and_disabled_engines_give_empty_results() {
    let v = Virtualizer::new(VirtualizerOptions::new(0, |_| 1));
    assert_eq!(v.total_size(), 0);
    assert_eq!(v.index_at_offset(0), None);
    assert_eq!(v.scroll_to_index_offset(3, Align::Start), 0);
    assert!(v.get_virtual_indexes().is_empty());

    let mut w = Virtualizer::new(VirtualizerOptions::new(10, |_| 1).with_initial_offset_value(7));
    w.set_viewport_size(5);
    w.set_enabled(false);
    assert_eq!(w.viewport_size(), 0);
    assert_eq!(w.scroll_offset(), 7);
    assert_eq!(w.total_size(), 0);
    assert_eq!(w.item_size(0), None);
    assert_eq!(w.item_start(0), None);
    assert_eq!(w.virtual_range(), VirtualRange { start_index: 0, end_index: 0 });
    assert_eq!(w.max_scroll_offset(), 7);
}

#[test]
fn scroll_direction_follows_changes() {
    let mut v = Virtualizer::new(VirtualizerOptions::new(100, |_| 1));
    v.set_viewport_size(10);
    v.set_scroll_offset(20);
    assert_eq!(v.scroll_direction(), Some(ScrollDirection::Forward));
    v.set_scroll_offset(5);
    assert_eq!(v.scroll_direction(), Some(ScrollDirection::Backward));
    v.set_scroll_offset(5);
    assert_eq!(v.scroll_direction(), Some(ScrollDirection::Backward));
}

#[test]
fn align_center_and_auto() {
    let mut v = Virtualizer::new(VirtualizerOptions::new(100, |_| 10));
    v.set_viewport_size(30);
    // item 10 spans 100..110; its centre 105 minus half the view 15
    assert_eq!(v.scroll_to_index_offset(10, Align::Center), 90);
    v.set_scroll_offset(100);
    // fully visible: offset kept
    assert_eq!(v.scroll_to_index_offset(11, Align::Auto), 100);
    // before the viewport: aligns to start
    assert_eq!(v.scroll_to_index_offset(2, Align::Auto), 20);
    // after the viewport: aligns to end (150 - 30)
    assert_eq!(v.scroll_to_index_offset(14, Align::Auto), 120);
    // past the count: clamped to the last item and the max offset
    assert_eq!(v.scroll_to_index_offset(1000, Align::Start), 970);
}

#[test]
fn keys_follow_key_function() {
    let v = Virtualizer::new(VirtualizerOptions::new_with_key(3, |_| 1, |i| 100 + i as u64));
    assert_eq!(v.key_for(2), 102);
    let items = {
        let mut w = Virtualizer::new(v.options().clone());
        w.set_viewport_size(3);
        w.get_virtual_items_keyed()
    };
    assert_eq!(items[0].key, 100);
    assert_eq!(items[2].key, 102);
}

#[test]
fn measure_many_applies_in_order() {
    let mut v = Virtualizer::new(VirtualizerOptions::new(4, |_| 1));
    v.measure_many(vec![(0, 5), (9, 7), (0, 6), (3, 2)]);
    assert_eq!(v.item_size(0), Some(6));
    assert_eq!(v.item_size(3), Some(2));
    assert_eq!(v.measurement_cache_len(), 2);
    let mut w = Virtualizer::new(VirtualizerOptions::new(4, |_| 1));
    w.set_scroll_offset(3);
    assert_eq!(w.resize_item_many(vec![(0, 4), (3, 9)]), 3);
    assert_eq!(w.scroll_offset(), 6);
}

#[test]
fn emitter_drops_out_of_order_and_out_of_bounds() {
    let r = Range { start_index: 3, end_index: 6, overscan: 2, count: 8 };
    let mut out = Vec::new();
    {
        let mut sink = |i| out.push(i);
        let mut e = IndexEmitter::new(r, &mut sink);
        e.emit(9);
        e.emit_pinned(0);
        e.emit(0);
        e.emit_overscanned();
        e.emit(2);
    }
    assert_eq!(out, vec![0, 1, 2, 3, 4, 5, 6, 7]);
    assert_eq!(keep_accepted(&vec![4, 2, 4, 9, 5, 7, 7], 8), vec![4, 5, 7]);
}

#[test]
fn policy_output_is_kept_ascending() {
    let mut v = Virtualizer::new(
        VirtualizerOptions::new(100, |_| 1).with_range_extractor(Some(|r: Range| vec![r.start_index, 0, 99, 200, 99])),
    );
    v.set_viewport_size(5);
    v.set_scroll_offset(40);
    assert_eq!(v.get_virtual_indexes(), vec![40, 99]);
}

#[test]
fn scroll_events_and_frames() {
    let mut v = Virtualizer::new(VirtualizerOptions::new(100, |_| 1));
    v.apply_scroll_frame_clamped(Rect { main: 10, cross: 3 }, 500, 7);
    assert_eq!(v.scroll_offset(), 90);
    assert!(v.is_scrolling());
    let frame = v.frame_state();
    assert_eq!(frame.viewport.rect, Rect { main: 10, cross: 3 });
    assert_eq!(frame.scroll.offset, 90);
    v.set_use_scrollend_event(true);
    v.update_scrolling(10_000);
    assert!(v.is_scrolling());
    assert_eq!(v.scroll_offset_in_list(), 90);
}

#[test]
fn import_keeps_the_later_entry_for_a_key() {
    let mut v = Virtualizer::new(VirtualizerOptions::new(4, |_| 1));
    v.import_measurement_cache(vec![(2, 5), (3, 8), (2, 9)]);
    assert_eq!(v.measurement_cache_len(), 2);
    assert_eq!(v.item_size(2), Some(9));
    assert_eq!(v.item_size(3), Some(8));
    assert!(v.is_measured(2));
    assert!(!v.is_measured(0));
    v.reset_measurements();
    assert_eq!(v.measurement_cache_len(), 0);
    assert_eq!(v.item_size(2), Some(1));
}

#[test]
fn sync_item_keys_follows_reordered_data() {
    let data: Arc<std::sync::Mutex<Vec<u64>>> = Arc::new(std::sync::Mutex::new(vec![10, 11, 12]));
    let keys = Arc::clone(&data);
    let mut v = Virtualizer::new(VirtualizerOptions::new_with_key(3, |_| 1, move |i| keys.lock().unwrap()[i]));
    v.measure(0, 30);
    data.lock().unwrap().reverse();
    v.sync_item_keys();
    assert_eq!(v.item_size(0), Some(1));
    assert_eq!(v.item_size(2), Some(30));
    assert_eq!(v.key_for(2), 10);
}

#[test]
fn count_changes_keep_measurements_by_key() {
    let mut v = Virtualizer::new(VirtualizerOptions::new(3, |_| 2));
    v.measure(1, 7);
    v.set_count(1);
    assert_eq!(v.item_size(1), None);
    v.set_count(5);
    assert_eq!(v.item_size(1), Some(7));
    assert_eq!(v.item_size(4), Some(2));
    assert_eq!(v.total_size(), 2 + 7 + 2 + 2 + 2);
}

#[test]
fn enabling_restores_the_initial_geometry() {
    let mut v = Virtualizer::new(
        VirtualizerOptions::new(10, |_| 1)
            .with_initial_rect(Some(Rect { main: 4, cross: 2 }))
            .with_initial_offset_value(3),
    );
    v.set_scroll_offset(6);
    v.set_enabled(false);
    assert_eq!(v.scroll_rect(), Rect { main: 0, cross: 0 });
    v.set_enabled(true);
    assert_eq!(v.scroll_rect(), Rect { main: 4, cross: 2 });
    assert_eq!(v.viewport_size(), 4);
    assert_eq!(v.scroll_offset(), 3);
    assert_eq!(v.visible_range(), VirtualRange { start_index: 3, end_index: 7 });
}

#[test]
fn large_uniform_list_lookups() {
    let mut v = Virtualizer::new(VirtualizerOptions::new(1_000_000, |_| 3).with_gap(1));
    v.set_viewport_size(40);
    v.set_scroll_offset(4_000_000 - 2);
    assert_eq!(v.index_at_offset(4_000_000 - 2), Some(999_999));
    assert_eq!(v.index_at_offset(7), Some(1));
    v.measure(500_000, 103);
    assert_eq!(v.item_start(500_001), Some(500_001 * 4 + 100));
    assert_eq!(v.total_size(), 1_000_000 * 4 - 1 + 100);
}

#[test]
fn scroll_compensation_saturates() {
    let mut v = Virtualizer::new(VirtualizerOptions::new(3, |_| 10));
    v.set_scroll_offset(u64::MAX);
    assert_eq!(v.resize_item(0, u32::MAX), u32::MAX as i64 - 10);
    assert_eq!(v.scroll_offset(), u64::MAX);
    let mut w = Virtualizer::new(VirtualizerOptions::new(3, |_| 10));
    w.set_scroll_offset(3);
    assert_eq!(w.resize_item(0, 0), -10);
    assert_eq!(w.scroll_offset(), 0);
}

#[test]
fn update_options_and_restore_scroll_state() {
    let mut v = Virtualizer::new(VirtualizerOptions::new(20, |_| 1));
    v.update_options(|o| {
        o.gap = 1;
        o.padding_start = 2;
    });
    assert_eq!(v.total_size(), 2 + 20 + 19);
    assert_eq!(v.item_start(1), Some(4));
    v.set_viewport_size(5);
    v.restore_scroll_state(virtualizer::ScrollState { offset: 1_000, is_scrolling: false }, 0);
    assert_eq!(v.scroll_offset(), v.max_scroll_offset());
    assert!(!v.is_scrolling());
    v.restore_scroll_state(virtualizer::ScrollState { offset: 7, is_scrolling: true }, 3);
    assert_eq!(v.scroll_offset(), 7);
    assert!(v.is_scrolling());
}

#[test]
fn keyed_measurements_and_items() {
    let mut v = Virtualizer::new(VirtualizerOptions::new_with_key(4, |_| 2, |i| 40 + i as u64));
    v.measure_keyed(1, 99, 6);
    assert_eq!(v.item_size(1), Some(6));
    v.sync_item_keys();
    // the entry was stored under key 99, which no index has
    assert_eq!(v.item_size(1), Some(2));
    assert_eq!(v.resize_item_keyed(9, 41, 5), 0);
    v.set_viewport_size(3);
    let it = v.virtual_item_keyed_for_offset(2).unwrap();
    assert_eq!((it.key, it.index, it.start, it.size), (41, 1, 2, 2));
    assert_eq!(it.end(), 4);
}

#[test]
fn policy_range_and_many_resizes() {
    let mut v = Virtualizer::new(VirtualizerOptions::new(100, |_| 1).with_overscan(3));
    v.set_viewport_size(5);
    let r = v.policy_range(40, 5);
    assert_eq!((r.start_index, r.end_index, r.overscan, r.count), (40, 45, 3, 100));
    v.set_scroll_offset(10);
    // item 0 before the offset moves it (+4), index 200 is skipped, item 50 after it does not
    assert_eq!(v.resize_item_many(vec![(0, 5), (200, 9), (50, 3)]), 4);
    assert_eq!(v.scroll_offset(), 14);
    v.update_options(|o| o.count = 7);
    assert_eq!(v.count(), 7);
    assert_eq!(v.item_size(0), Some(5));
}
