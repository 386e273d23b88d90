//! Laws of the engine, stated over its model and proved.
use vstd::prelude::*;
use crate::cache::entries_map;
use crate::engine::VirtualizerModel;
use crate::sums::{
    eff, lemma_consumed_bounds, lemma_consumed_is, lemma_consumed_monotone,
    lemma_sum_eff_monotone, lemma_sum_eff_nonneg, lemma_sum_eff_update, sum_eff,
};
use crate::types::{sat, u64_max, ItemKey};

verus! {

/// The total size of an enabled engine is the start padding, plus every item's size with a
/// gap after each but the last, plus the end padding, saturated at the largest `u64`.
pub proof fn lemma_total_size_saturated(m: VirtualizerModel)
    requires
        m.options.enabled,
    ensures
        m.total_size() == sat(m.options.padding_start + sum_eff(m.sizes, m.options.gap, m.count())
            + m.options.padding_end),
{
}

/// The total size is the start padding, plus every item's size with a gap after each but
/// the last, plus the end padding, whenever that sum fits in a `u64`.
pub proof fn lemma_total_size(m: VirtualizerModel)
    requires
        m.options.enabled,
        m.options.padding_start + m.items_total() + m.options.padding_end <= u64_max(),
    ensures
        m.total_size() == m.options.padding_start + sum_eff(m.sizes, m.options.gap, m.count())
            + m.options.padding_end,
{
}

/// Measuring item `i` moves the total by exactly the change of its size.
pub proof fn lemma_total_after_measure(m: VirtualizerModel, i: int, key: ItemKey, size: u32)
    requires
        m.options.enabled,
        0 <= i < m.count(),
        m.sizes.len() == m.count(),
        m.options.padding_start + m.items_total() + m.options.padding_end <= u64_max(),
        m.options.padding_start + m.items_total() + size - m.sizes[i] + m.options.padding_end <= u64_max(),
    ensures
        m.with_size(i, key, size).total_size() == m.total_size() + size - m.sizes[i],
{
    lemma_sum_eff_update(m.sizes, m.options.gap, i, size, m.count());
    lemma_sum_eff_nonneg(m.sizes.update(i, size), m.options.gap, m.count());
}

/// The list-relative lookup stays within the items and never goes back as the offset grows.
pub proof fn lemma_index_in_list_monotone(m: VirtualizerModel, a: int, b: int)
    requires
        m.count() > 0,
        0 <= a <= b,
    ensures
        0 <= m.index_in_list(a) <= m.index_in_list(b) < m.count(),
{
    let ps = m.options.padding_start as int;
    let n = m.count();
    let s = m.sizes;
    let g = m.options.gap;
    if b >= ps {
        lemma_consumed_bounds(s, g, b - ps, n);
    }
    if a >= ps {
        lemma_consumed_bounds(s, g, a - ps, n);
        lemma_consumed_monotone(s, g, a - ps, b - ps, n);
    }
}

/// The index under an offset never decreases as the offset grows, and stays in range.
pub proof fn lemma_index_at_monotone(m: VirtualizerModel, a: int, b: int)
    requires
        m.count() > 0,
        0 <= a <= b,
    ensures
        0 <= m.index_at(a) <= m.index_at(b) < m.count(),
{
    let mg = m.options.scroll_margin as int;
    if b >= mg {
        lemma_index_in_list_monotone(m, 0, b - mg);
    }
    if a >= mg {
        lemma_index_in_list_monotone(m, a - mg, b - mg);
    }
}

/// Every offset from an item's start up to the end of its trailing gap maps to that item,
/// when the item's effective size is positive and the offsets fit in a `u64`.
pub proof fn lemma_index_at_item(m: VirtualizerModel, i: int, o: int)
    requires
        0 <= i < m.count(),
        m.options.scroll_margin + m.options.padding_start + sum_eff(m.sizes, m.options.gap, i + 1) <= u64_max(),
        m.item_start(i) <= o < m.item_start(i) + eff(m.sizes, m.options.gap, i),
    ensures
        m.index_at(o) == i,
{
    let s = m.sizes;
    let g = m.options.gap;
    let n = m.count();
    let base = m.options.scroll_margin + m.options.padding_start;
    lemma_sum_eff_nonneg(s, g, i);
    lemma_sum_eff_monotone(s, g, i, i + 1);
    assert(m.item_start(i) == base + sum_eff(s, g, i));
    let t = o - base;
    assert(sum_eff(s, g, i + 1) == sum_eff(s, g, i) + eff(s, g, i));
    lemma_consumed_is(s, g, t, n, i);
}

/// An offset inside the gap after item `i` (from its end to the next item's start) maps
/// to item `i`, when the next item's start fits in a `u64`.
pub proof fn lemma_index_at_gap(m: VirtualizerModel, i: int, o: int)
    requires
        0 <= i,
        i + 1 < m.count(),
        m.options.scroll_margin + m.options.padding_start + sum_eff(m.sizes, m.options.gap, i + 1) <= u64_max(),
        m.item_start(i) + m.sizes[i] <= o < m.item_start(i + 1),
    ensures
        m.index_at(o) == i,
{
    lemma_sum_eff_nonneg(m.sizes, m.options.gap, i);
    assert(sum_eff(m.sizes, m.options.gap, i + 1) == sum_eff(m.sizes, m.options.gap, i) + eff(m.sizes, m.options.gap, i));
    lemma_index_at_item(m, i, o);
}

/// Every offset from the last item's start on maps to the last item, whatever its size,
/// when that start fits in a `u64`.
pub proof fn lemma_index_at_last_item(m: VirtualizerModel, o: int)
    requires
        m.count() > 0,
        m.options.scroll_margin + m.options.padding_start + sum_eff(m.sizes, m.options.gap, m.count() - 1) <= u64_max(),
        m.item_start(m.count() - 1) <= o,
    ensures
        m.index_at(o) == m.count() - 1,
{
    let s = m.sizes;
    let g = m.options.gap;
    let n = m.count();
    lemma_sum_eff_nonneg(s, g, n - 1);
    let t = o - m.options.scroll_margin - m.options.padding_start;
    lemma_consumed_bounds(s, g, t, n);
    let c = crate::sums::consumed(s, g, t, n);
    if c < n - 1 {
        lemma_sum_eff_monotone(s, g, c + 1, n - 1);
    }
}

/// The visible range lies inside the virtual range, and both inside `[0, count]`.
pub proof fn lemma_visible_within_virtual(m: VirtualizerModel, offset: int, view: int)
    requires
        0 <= offset,
        0 <= view,
    ensures
        ({
            let (s, e) = m.visible_for(offset, view);
            let (vs, ve) = m.virtual_for(offset, view);
            &&& 0 <= vs <= s && s <= e && e <= ve && ve <= m.count()
            &&& s >= e ==> vs == s && ve == e
        }),
{
    let (s, e) = m.visible_for(offset, view);
    let n = m.count();
    let mg = m.options.scroll_margin as int;
    let ms = m.max_scroll_for(view);
    let off = if offset < ms { offset } else { ms };
    let end = sat(off + view);
    if m.options.enabled && n > 0 && view > 0 && end > mg && !((if off > mg { off - mg } else { 0 }) >= m.total_size()) {
        let vs = if off > mg { off - mg } else { 0 };
        let ve = end - mg - 1;
        let last = if ve > vs { ve } else { vs };
        lemma_index_in_list_monotone(m, vs, last);
    }
}

/// Measuring item `i` under its own key keeps every measured size equal to its key's
/// cache entry, when keys are unique.
pub proof fn lemma_measure_keeps_cache(m: VirtualizerModel, i: int, size: u32)
    requires
        m.measured_in_cache(),
        0 <= i < m.count(),
        m.keys.len() == m.count(),
        m.sizes.len() == m.count(),
        m.measured.len() == m.count(),
        m.keys.no_duplicates(),
    ensures
        m.with_size(i, m.keys[i], size).measured_in_cache(),
{
    let r = m.with_size(i, m.keys[i], size);
    assert forall|j: int| 0 <= j < r.count() && #[trigger] r.measured[j] implies {
        &&& r.cache.contains_key(r.keys[j])
        &&& r.sizes[j] == r.cache[r.keys[j]]
    } by {
        if j != i {
            assert(m.measured[j]);
            assert(m.keys[j] != m.keys[i]);
        }
    }
}

/// Sizes re-derived from the cache agree with it.
pub proof fn lemma_derived_is_cached(m: VirtualizerModel)
    requires
        m.derived_from_cache(),
    ensures
        m.measured_in_cache(),
{
}

/// Exporting the cache of one engine and importing it into another over the same keys
/// gives every index measured in the first the same size, measured, in the second.
pub proof fn lemma_cache_round_trip(a: VirtualizerModel, exported: Seq<(ItemKey, u32)>, b: VirtualizerModel)
    requires
        a.measured_in_cache(),
        entries_map(exported) == a.cache,
        b.cache == entries_map(exported),
        b.derived_from_cache(),
        b.count() == a.count(),
        b.keys == a.keys,
    ensures
        forall|i: int|
            0 <= i < a.count() && #[trigger] a.measured[i] ==> b.measured[i] && b.sizes[i] == a.sizes[i],
{
    assert forall|i: int| 0 <= i < a.count() && #[trigger] a.measured[i] implies b.measured[i]
        && b.sizes[i] == a.sizes[i] by {
        assert(b.measured[i] == b.cache.contains_key(b.keys[i]));
    }
}

/// A batch around a closure that fires nothing itself and keeps the depth: when it is the
/// outermost batch, closing it fires exactly one notification if anything inside asked for
/// one, and none otherwise.
pub proof fn lemma_batch_update_once(a: VirtualizerModel, inside: VirtualizerModel)
    requires
        a.notify_depth == 0,
        !a.notify_pending,
        inside.notify_depth == a.after_batch_begin().notify_depth,
        inside.notifications == a.notifications,
    ensures
        inside.after_batch_end().notifications == a.notifications + (if inside.notify_pending { 1int } else { 0 }),
        inside.after_batch_end().notify_depth == 0,
        !inside.after_batch_end().notify_pending,
{
}

/// A change made inside an open batch asks for the notification and fires nothing.
pub proof fn lemma_change_in_batch(m: VirtualizerModel)
    requires
        m.notify_depth > 0,
    ensures
        m.after_notify().notify_pending,
        m.after_notify().notifications == m.notifications,
        m.after_notify().notify_depth == m.notify_depth,
{
}

/// Keys by index are distinct.
pub proof fn lemma_index_keys_unique(m: VirtualizerModel)
    requires
        m.options.get_item_key is Index,
        m.index_keys(),
        m.keys.len() == m.count(),
    ensures
        m.keys.no_duplicates(),
{
    assert forall|i: int, j: int| 0 <= i < m.keys.len() && 0 <= j < m.keys.len() && i != j implies m.keys[i]
        != m.keys[j] by {
        assert(m.keys[i] == i);
        assert(m.keys[j] == j);
    }
}

/// With keys by index on both engines and the same count, exporting the cache of one and
/// importing it into the other gives every index measured in the first the same size,
/// measured, in the second, and the same number of cached entries.
pub proof fn lemma_cache_round_trip_index_keys(a: VirtualizerModel, exported: Seq<(ItemKey, u32)>, b: VirtualizerModel)
    requires
        a.measured_in_cache(),
        a.options.get_item_key is Index,
        a.index_keys(),
        a.keys.len() == a.count(),
        b.options.get_item_key is Index,
        b.index_keys(),
        b.keys.len() == b.count(),
        b.count() == a.count(),
        entries_map(exported) == a.cache,
        b.cache == entries_map(exported),
        b.derived_from_cache(),
    ensures
        forall|i: int|
            0 <= i < a.count() && #[trigger] a.measured[i] ==> b.measured[i] && b.sizes[i] == a.sizes[i],
        b.cache.dom().len() == a.cache.dom().len(),
{
    assert forall|i: int| 0 <= i < a.keys.len() implies a.keys[i] == b.keys[i] by {
        assert(a.keys[i] == i);
        assert(b.keys[i] == i);
    }
    assert(a.keys =~= b.keys);
    lemma_cache_round_trip(a, exported, b);
}

/// The state after `k` change notifications.
pub open spec fn notified_times(m: VirtualizerModel, k: nat) -> VirtualizerModel
    decreases k,
{
    if k == 0 {
        m
    } else {
        notified_times(m, (k - 1) as nat).after_notify()
    }
}

proof fn lemma_notified_in_batch(m: VirtualizerModel, k: nat)
    requires
        m.notify_depth > 0,
    ensures
        notified_times(m, k).notifications == m.notifications,
        notified_times(m, k).notify_depth == m.notify_depth,
        notified_times(m, k).notify_pending == (m.notify_pending || k > 0),
    decreases k,
{
    if k > 0 {
        lemma_notified_in_batch(m, (k - 1) as nat);
    }
}

/// Any number of changes inside one outermost batch fire exactly one notification when
/// the batch closes, and none if nothing changed.
pub proof fn lemma_batch_notifies_once(m: VirtualizerModel, k: nat)
    requires
        m.notify_depth == 0,
        !m.notify_pending,
    ensures
        notified_times(m.after_batch_begin(), k).after_batch_end().notifications == m.notifications + (if k > 0 {
            1int
        } else {
            0
        }),
        notified_times(m.after_batch_begin(), k).after_batch_end().notify_depth == 0,
        !notified_times(m.after_batch_begin(), k).after_batch_end().notify_pending,
{
    lemma_notified_in_batch(m.after_batch_begin(), k);
}

} // verus!
