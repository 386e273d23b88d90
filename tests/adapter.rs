use std::collections::HashMap;
use virtualizer::{apply_anchor, capture_first_visible_anchor, Virtualizer, VirtualizerOptions};

#[test]
fn anchor_can_preserve_scroll_across_prepend() {
    let mut v1 = Virtualizer::new(VirtualizerOptions::new_with_key(100, |_| 1, |i| 1000u64 + i as u64));
    v1.set_viewport_and_scroll_clamped(10, 50);

    let anchor = capture_first_visible_anchor(&v1).unwrap();
    assert_eq!(anchor.key, 1050);
    assert_eq!(anchor.offset_in_viewport, 0);

    // Prepend 10 items: old items shift by +10 indexes.
    let mut v2 = Virtualizer::new(VirtualizerOptions::new_with_key(110, |_| 1, |i| {
        if i < 10 {
            2000u64 + i as u64
        } else {
            1000u64 + (i - 10) as u64
        }
    }));
    v2.set_viewport_and_scroll_clamped(10, 50);

    let mut map = HashMap::<u64, usize>::new();
    for i in 0..110usize {
        map.insert(v2.key_for(i), i);
    }

    assert!(apply_anchor(&mut v2, &anchor, |k| map.get(k).copied()));
    assert_eq!(v2.scroll_offset(), 60);
}

#[test]
fn anchor_keeps_offset_inside_item() {
    let mut v = Virtualizer::new(VirtualizerOptions::new_with_key(50, |_| 10, |i| 7 + i as u64));
    v.set_viewport_and_scroll_clamped(30, 123);
    let anchor = capture_first_visible_anchor(&v).unwrap();
    assert_eq!(anchor.key, 19);
    assert_eq!(anchor.offset_in_viewport, 3);
    assert!(!apply_anchor(&mut v, &anchor, |_| None));
    assert!(!apply_anchor(&mut v, &anchor, |_| Some(500)));
    assert_eq!(v.scroll_offset(), 123);
    assert!(apply_anchor(&mut v, &anchor, |_| Some(2)));
    assert_eq!(v.scroll_offset(), 23);
    let empty = Virtualizer::new(VirtualizerOptions::new(5, |_| 1));
    assert!(capture_first_visible_anchor(&empty).is_none());
}

#[test]
fn tween_timing() {
    let t = virtualizer::Tween::new(5, 50, 100, 0, virtualizer::Easing::Linear);
    assert_eq!(t.duration_ms, 1);
    assert!(!t.is_done(100));
    assert!(t.is_done(101));
    let u = virtualizer::Tween::new(5, 50, 100, 40, virtualizer::Easing::SmoothStep);
    assert!(!u.is_done(139));
    assert!(u.is_done(140));
    assert!(!u.is_done(0));
}

#[test]
fn anchor_at_index_and_offset_capture() {
    let mut v = Virtualizer::new(VirtualizerOptions::new(50, |_| 10));
    v.set_viewport_and_scroll_clamped(30, 100);
    let a = virtualizer::capture_anchor_at_offset_in_viewport(&v, 15).unwrap();
    assert_eq!(a.key, 11);
    assert_eq!(a.offset_in_viewport, 0);
    let b = virtualizer::capture_anchor_at_offset_in_viewport(&v, 0).unwrap();
    assert_eq!((b.key, b.offset_in_viewport), (10, 0));
    assert!(!virtualizer::apply_anchor_at(&mut v, &a, None));
    assert!(!virtualizer::apply_anchor_at(&mut v, &a, Some(50)));
    assert_eq!(v.scroll_offset(), 100);
    assert!(virtualizer::apply_anchor_at(&mut v, &a, Some(49)));
    assert_eq!(v.scroll_offset(), v.max_scroll_offset());
}

#[test]
fn tween_steps_drive_the_engine() {
    let mut v = Virtualizer::new(VirtualizerOptions::new(100, |_| 1));
    v.set_viewport_size(10);
    let t = virtualizer::Tween::new(0, 40, 0, 100, virtualizer::Easing::Linear);
    assert!(!virtualizer::advance_tween(&mut v, &t, 20, 50));
    assert_eq!(v.scroll_offset(), 20);
    assert!(v.is_scrolling());
    assert!(virtualizer::advance_tween(&mut v, &t, 500, 100));
    assert_eq!(v.scroll_offset(), 90);
    assert!(!v.is_scrolling());
}
