//! The engine: viewport and scroll state, per-index sizes with their prefix sums, the
//! measurement cache, range queries, and batched change notification.
use vstd::prelude::*;
use crate::cache::{entries_map, MeasurementCache};
use crate::emitter::{
    accepted, ascending_below, in_bounds, keep_accepted, keep_in_bounds, lemma_accepted_ascending, lemma_in_bounds_below,
};
use crate::options::{InitialOffset, VirtualizerOptions};
use crate::sums::{
    consumed, lemma_consumed_bounds, lemma_sum_eff_bound, lemma_sum_eff_nonneg, sum_eff,
    CumulativeSizeIndex,
};
use crate::types::{
    sat, Align, FrameState, ItemKey, Range, Rect, ScrollDirection, ScrollState,
    ViewportState, VirtualItem, VirtualItemKeyed, VirtualRange,
};

verus! {

/// What the engine holds, as mathematical values.
pub struct VirtualizerModel {
    pub options: VirtualizerOptions,
    pub viewport_size: u32,
    pub scroll_offset: u64,
    pub scroll_rect: Rect,
    pub is_scrolling: bool,
    pub scroll_direction: Option<ScrollDirection>,
    pub last_scroll_event_ms: Option<u64>,
    /// Size of each item, without the gap.
    pub sizes: Seq<u32>,
    /// Whether each item's size was measured rather than estimated.
    pub measured: Seq<bool>,
    /// The key each index had when the sizes were last derived.
    pub keys: Seq<ItemKey>,
    /// Measured size by key.
    pub cache: Map<ItemKey, u32>,
    /// How many batches are open.
    pub notify_depth: nat,
    /// Whether a change happened inside the open batches.
    pub notify_pending: bool,
    /// How many change notifications have been fired; the callback, when set, runs once for each.
    pub notifications: nat,
}

impl VirtualizerModel {
    pub open spec fn count(self) -> int {
        self.options.count as int
    }

    /// Every size comes from the cache where its key has an entry, and only then is it
    /// measured; with keys by index, index `i` has key `i`.
    pub open spec fn derived_from_cache(self) -> bool {
        &&& forall|i: int|
            0 <= i < self.count() ==> {
                &&& (#[trigger] self.measured[i]) == self.cache.contains_key(self.keys[i])
                &&& self.measured[i] ==> self.sizes[i] == self.cache[self.keys[i]]
            }
        &&& self.index_keys()
    }

    /// With keys by index, index `i` has key `i`.
    pub open spec fn index_keys(self) -> bool {
        self.options.get_item_key is Index ==> forall|i: int| 0 <= i < self.count() ==> #[trigger] self.keys[i] == i
    }

    /// Every measured size agrees with the cache entry of its key.
    pub open spec fn measured_in_cache(self) -> bool {
        forall|i: int|
            0 <= i < self.count() && #[trigger] self.measured[i] ==> {
                &&& self.cache.contains_key(self.keys[i])
                &&& self.sizes[i] == self.cache[self.keys[i]]
            }
    }

    /// The same state after one change notification: deferred while a batch is open.
    pub open spec fn after_notify(self) -> VirtualizerModel {
        if self.notify_depth > 0 {
            VirtualizerModel { notify_pending: true, ..self }
        } else {
            VirtualizerModel { notifications: self.notifications + 1, ..self }
        }
    }

    /// Sum of all effective sizes.
    pub open spec fn items_total(self) -> int {
        sum_eff(self.sizes, self.options.gap, self.count())
    }

    /// Padding, effective sizes and padding, saturated; zero while disabled.
    pub open spec fn total_size(self) -> int {
        if !self.options.enabled {
            0
        } else {
            sat(self.options.padding_start + self.items_total() + self.options.padding_end)
        }
    }

    /// Absolute start of item `i`: margin, padding and the effective sizes before it.
    pub open spec fn item_start(self, i: int) -> int {
        sat(self.options.scroll_margin + self.options.padding_start + sum_eff(self.sizes, self.options.gap, i))
    }

    pub open spec fn item(self, i: int) -> VirtualItem {
        VirtualItem { index: i as usize, start: self.item_start(i) as u64, size: self.sizes[i] }
    }

    /// The largest scroll offset of an enabled engine for a viewport of `view`.
    pub open spec fn max_scroll_for(self, view: int) -> int {
        let t = self.total_size();
        sat(self.options.scroll_margin + if t > view { t - view } else { 0 })
    }

    pub open spec fn max_scroll(self) -> int {
        self.max_scroll_for(self.viewport_size as int)
    }

    /// Index under a list-relative offset: padding maps to the first item, offsets past the
    /// items to the last; an offset inside a gap belongs to the item before it.
    pub open spec fn index_in_list(self, off: int) -> int {
        let ps = self.options.padding_start as int;
        if off < ps {
            0
        } else {
            let c = consumed(self.sizes, self.options.gap, off - ps, self.count());
            if c < self.count() - 1 { c } else { self.count() - 1 }
        }
    }

    /// Index under an absolute offset.
    pub open spec fn index_at(self, offset: int) -> int {
        let m = self.options.scroll_margin as int;
        if offset < m {
            0
        } else {
            self.index_in_list(offset - m)
        }
    }

    /// The visible range for an offset and viewport, as `(start, end)`.
    pub open spec fn visible_for(self, offset: int, view: int) -> (int, int) {
        let n = self.count();
        let m = self.options.scroll_margin as int;
        let total = self.total_size();
        let off = if offset < self.max_scroll_for(view) { offset } else { self.max_scroll_for(view) };
        let end = sat(off + view);
        if !self.options.enabled || n == 0 || view == 0 {
            (0, 0)
        } else if end <= m {
            (0, 0)
        } else if (if off > m { off - m } else { 0 }) >= total {
            (n, n)
        } else {
            let vs = if off > m { off - m } else { 0 };
            let ve = end - m - 1;
            let last = if ve > vs { ve } else { vs };
            (self.index_in_list(vs), self.index_in_list(last) + 1)
        }
    }

    /// The visible range widened by the overscan and cut at the count.
    pub open spec fn virtual_for(self, offset: int, view: int) -> (int, int) {
        let (s, e) = self.visible_for(offset, view);
        let o = self.options.overscan as int;
        if s >= e {
            (s, e)
        } else {
            (if s > o { s - o } else { 0 }, if e + o < self.count() { e + o } else { self.count() })
        }
    }

    /// Offset that brings item `i` to the place `align` asks for, before clamping.
    pub open spec fn align_target(self, i: int, align: Align) -> int {
        let start = self.item_start(i);
        let size = self.sizes[i] as int;
        let end = sat(start + size);
        let view = self.viewport_size as int;
        let sps = self.options.scroll_padding_start as int;
        let spe = self.options.scroll_padding_end as int;
        let to_start = if start > sps { start - sps } else { 0 };
        let to_end = if sat(end + spe) > view { sat(end + spe) - view } else { 0 };
        let cur = self.scroll_offset as int;
        match align {
            Align::Start => to_start,
            Align::End => to_end,
            Align::Center => {
                let c = sat(start + size / 2);
                if c > view / 2 { c - view / 2 } else { 0 }
            },
            Align::Auto => {
                if start >= cur && end <= sat(cur + view) {
                    cur
                } else if start < cur {
                    to_start
                } else {
                    to_end
                }
            },
        }
    }

    /// The state after item `i` is set to `size` and the cache records `size` for `key`.
    pub open spec fn with_size(self, i: int, key: ItemKey, size: u32) -> VirtualizerModel {
        VirtualizerModel {
            sizes: self.sizes.update(i, size),
            measured: self.measured.update(i, true),
            cache: self.cache.insert(key, size),
            ..self
        }
    }

    /// The state after each `(index, size)` of `ms` in turn is measured under the index's
    /// key; indexes past the count are skipped.
    pub open spec fn after_measurements(self, ms: Seq<(usize, u32)>) -> VirtualizerModel
        decreases ms.len(),
    {
        if ms.len() == 0 {
            self
        } else {
            let m = self.after_measurements(ms.drop_last());
            let (i, size) = ms.last();
            if i < m.count() {
                m.with_size(i as int, m.keys[i as int], size)
            } else {
                m
            }
        }
    }

    /// Item `i` with its key.
    pub open spec fn item_keyed(self, i: int) -> VirtualItemKeyed {
        VirtualItemKeyed {
            key: self.keys[i],
            index: i as usize,
            start: self.item_start(i) as u64,
            size: self.sizes[i],
        }
    }

    /// What the indexes to render at `offset` and `view` are: none for an empty visible
    /// range, the virtual range without a policy, always in bounds, and ascending unless the
    /// lenient policy is set.
    pub open spec fn renders_indexes(self, offset: int, view: int, r: Seq<usize>) -> bool {
        let (s, e) = self.visible_for(offset, view);
        let no_policy = self.options.range_extractor is None && self.options.range_extractor_v2 is None;
        &&& s >= e ==> r.len() == 0
        &&& s < e && no_policy ==> r == self.default_indexes(offset, view)
        &&& forall|i: int| 0 <= i < r.len() ==> r[i] < self.count()
        &&& self.options.range_extractor_v2 is None ==> ascending_below(r, self.count())
    }

    pub open spec fn renders_items(self, offset: int, view: int, r: Seq<VirtualItem>) -> bool {
        &&& self.renders_indexes(offset, view, r.map_values(|it: VirtualItem| it.index))
        &&& forall|j: int| 0 <= j < r.len() ==> r[j] == self.item(#[trigger] r[j].index as int)
    }

    pub open spec fn renders_keyed(self, offset: int, view: int, r: Seq<VirtualItemKeyed>) -> bool {
        &&& self.renders_indexes(offset, view, r.map_values(|it: VirtualItemKeyed| it.index))
        &&& forall|j: int| 0 <= j < r.len() ==> r[j] == self.item_keyed(#[trigger] r[j].index as int)
    }

    /// The state once a batch opens.
    pub open spec fn after_batch_begin(self) -> VirtualizerModel {
        VirtualizerModel {
            notify_depth: if self.notify_depth < usize::MAX { self.notify_depth + 1 } else { self.notify_depth },
            ..self
        }
    }

    /// The state once a batch closes: closing the outermost one fires the deferred
    /// notification, if any.
    pub open spec fn after_batch_end(self) -> VirtualizerModel {
        let depth = if self.notify_depth > 0 { self.notify_depth - 1 } else { 0 };
        if depth == 0 && self.notify_pending {
            VirtualizerModel {
                notify_depth: 0,
                notify_pending: false,
                notifications: self.notifications + 1,
                ..self
            }
        } else {
            VirtualizerModel { notify_depth: depth as nat, ..self }
        }
    }

    /// `c` is `offset` clamped to the largest scroll offset; while disabled, to the initial
    /// offset when that is a fixed value.
    pub open spec fn clamp_of(self, offset: int, c: int) -> bool {
        &&& c <= offset
        &&& self.options.enabled ==> c == (if offset < self.max_scroll() { offset } else { self.max_scroll() })
        &&& !self.options.enabled && self.options.initial_offset is Value ==> c == (
            if offset < self.options.initial_offset->Value_0 { offset } else { self.options.initial_offset->Value_0 as int })
    }

    /// `b` is this state after setting the scroll offset to `c`: unchanged when it already is
    /// `c`, otherwise the new offset, the direction of the move, and one notification.
    pub open spec fn scrolled_to(self, b: VirtualizerModel, c: int) -> bool {
        &&& self.scroll_offset == c ==> b == self
        &&& self.scroll_offset != c ==> b == (VirtualizerModel {
            scroll_offset: c as u64,
            scroll_direction: Some(if c > self.scroll_offset { ScrollDirection::Forward } else { ScrollDirection::Backward }),
            ..self
        }).after_notify()
    }

    /// The indexes to render by default: the virtual range in order.
    pub open spec fn default_indexes(self, offset: int, view: int) -> Seq<usize> {
        let (s, e) = self.virtual_for(offset, view);
        Seq::new(if e > s { (e - s) as nat } else { 0 }, |j: int| (s + j) as usize)
    }
}

/// `x` shifted by `delta`, kept within `0..=u64::MAX`.
pub open spec fn shifted(x: int, delta: int) -> int {
    if x + delta < 0 {
        0
    } else {
        sat(x + delta)
    }
}

/// Measuring keeps the keys, the configuration and the count.
pub proof fn lemma_measurements_keep(m: VirtualizerModel, ms: Seq<(usize, u32)>)
    ensures
        m.after_measurements(ms).keys == m.keys,
        m.after_measurements(ms).options == m.options,
    decreases ms.len(),
{
    if ms.len() > 0 {
        lemma_measurements_keep(m, ms.drop_last());
    }
}

/// What a resize of item `i` to `size` under `key` does, with `r` the shift returned.
pub open spec fn resized(a: VirtualizerModel, b: VirtualizerModel, i: int, key: ItemKey, size: u32, r: i64) -> bool {
    let delta = size - a.sizes[i];
    let m = a.with_size(i, key, size);
    &&& b == (VirtualizerModel { scroll_offset: b.scroll_offset, ..m }).after_notify()
    &&& b.scroll_offset == shifted(a.scroll_offset as int, r as int)
    &&& delta == 0 ==> r == 0
    &&& delta != 0 && a.options.should_adjust_scroll_position_on_item_size_change is None ==> r == (
        if a.item_start(i) < a.scroll_offset { delta } else { 0 })
    &&& r == 0 || r == delta
}

/// What `scroll_to_index_offset` gives for `index` and `align` on a state `m`.
pub open spec fn offset_for_index(m: VirtualizerModel, index: usize, align: Align, r: u64) -> bool {
    &&& !m.options.enabled && m.options.initial_offset is Value ==> r == m.options.initial_offset->Value_0
    &&& m.options.enabled && m.count() == 0 ==> r == 0
    &&& m.options.enabled && m.count() > 0 ==> {
        let i = if index < m.count() { index as int } else { m.count() - 1 };
        let t = m.align_target(i, align);
        r == (if t < m.max_scroll() { t } else { m.max_scroll() })
    }
}

/// `x` kept within the range of an `i64`.
pub open spec fn clamp_i64(x: int) -> int {
    if x > i64::MAX {
        i64::MAX as int
    } else if x < i64::MIN {
        i64::MIN as int
    } else {
        x
    }
}

/// The shifts added in turn, each partial sum kept within the range of an `i64`.
pub open spec fn shift_sum(shifts: Seq<i64>) -> int
    decreases shifts.len(),
{
    if shifts.len() == 0 {
        0
    } else {
        clamp_i64(shift_sum(shifts.drop_last()) + shifts.last())
    }
}

/// One resize of a batch, from `a` to `b` with shift `r`: an index past the count changes
/// nothing, any other is resized under its key.
pub open spec fn resize_step(a: VirtualizerModel, b: VirtualizerModel, m: (usize, u32), r: i64) -> bool {
    if m.0 < a.count() {
        resized(a, b, m.0 as int, a.keys[m.0 as int], m.1, r)
    } else {
        r == 0 && b == a
    }
}

/// `states` runs through the resizes of `ms` in turn, with `shifts` their returned shifts.
pub open spec fn resizes_in_turn(states: Seq<VirtualizerModel>, shifts: Seq<i64>, ms: Seq<(usize, u32)>) -> bool {
    &&& states.len() == ms.len() + 1
    &&& shifts.len() == ms.len()
    &&& forall|k: int| 0 <= k < ms.len() ==> resize_step(states[k], states[k + 1], ms[k], #[trigger] shifts[k])
}

/// The list virtualization engine.
pub struct Virtualizer {
    options: VirtualizerOptions,
    viewport_size: u32,
    scroll_offset: u64,
    scroll_rect: Rect,
    is_scrolling: bool,
    scroll_direction: Option<ScrollDirection>,
    last_scroll_event_ms: Option<u64>,
    sizes: Vec<u32>,
    measured: Vec<bool>,
    keys: Vec<ItemKey>,
    sums: CumulativeSizeIndex,
    cache: MeasurementCache,
    notify_depth: usize,
    notify_pending: bool,
    notifications: Ghost<nat>,
}

impl View for Virtualizer {
    type V = VirtualizerModel;

    closed spec fn view(&self) -> VirtualizerModel {
        VirtualizerModel {
            options: self.options,
            viewport_size: self.viewport_size,
            scroll_offset: self.scroll_offset,
            scroll_rect: self.scroll_rect,
            is_scrolling: self.is_scrolling,
            scroll_direction: self.scroll_direction,
            last_scroll_event_ms: self.last_scroll_event_ms,
            sizes: self.sizes@,
            measured: self.measured@,
            keys: self.keys@,
            cache: self.cache@,
            notify_depth: self.notify_depth as nat,
            notify_pending: self.notify_pending,
            notifications: self.notifications@,
        }
    }
}

impl Virtualizer {
    /// The engine's invariant.
    pub closed spec fn wf(&self) -> bool {
        &&& self.sizes@.len() == self.options.count
        &&& self.measured@.len() == self.options.count
        &&& self.keys@.len() == self.options.count
        &&& self.options.count < usize::MAX
        &&& self.viewport_size == self.scroll_rect.main
        &&& self.sums.matches(self.sizes@, self.options.gap)
        &&& self.cache.wf()
        &&& self.options.get_item_key is Index ==> forall|i: int|
            0 <= i < self.options.count ==> #[trigger] self.keys@[i] == i
    }

    /// Re-derives keys and sizes for the current count from the key function, the cache
    /// and the estimator, and rebuilds the prefix sums.
    fn rebuild_estimates(&mut self)
        requires
            old(self).options.count < usize::MAX,
            old(self).cache.wf(),
            old(self).viewport_size == old(self).scroll_rect.main,
        ensures
            final(self).wf(),
            final(self)@ == (VirtualizerModel {
                sizes: final(self)@.sizes,
                measured: final(self)@.measured,
                keys: final(self)@.keys,
                ..old(self)@
            }),
            final(self)@.derived_from_cache(),
    {
        let n = self.options.count;
        let mut sizes: Vec<u32> = Vec::new();
        let mut measured: Vec<bool> = Vec::new();
        let mut keys: Vec<ItemKey> = Vec::new();
        let mut i: usize = 0;
        while i < n
            invariant
                n == self.options.count,
                self.cache.wf(),
                i <= n,
                sizes@.len() == i,
                measured@.len() == i,
                keys@.len() == i,
                forall|j: int|
                    0 <= j < i ==> {
                        &&& (#[trigger] measured@[j]) == self.cache@.contains_key(keys@[j])
                        &&& measured@[j] ==> sizes@[j] == self.cache@[keys@[j]]
                    },
                self.options.get_item_key is Index ==> forall|j: int| 0 <= j < i ==> #[trigger] keys@[j] == j,
            decreases n - i,
        {
            let key = self.options.get_item_key.key(i);
            keys.push(key);
            match self.cache.get(key) {
                Some(s) => {
                    sizes.push(s);
                    measured.push(true);
                },
                None => {
                    let s = self.options.estimate_size.call(i);
                    sizes.push(s);
                    measured.push(false);
                },
            }
            proof {
                assert(measured@[i as int] == self.cache@.contains_key(keys@[i as int]));
            }
            i = i + 1;
        }
        self.sums = CumulativeSizeIndex::build(&sizes, self.options.gap);
        self.sizes = sizes;
        self.measured = measured;
        self.keys = keys;
    }

    /// Rebuilds the prefix sums from the current sizes (after the gap changed).
    fn rebuild_sums(&mut self)
        requires
            old(self).sizes@.len() == old(self).options.count,
            old(self).measured@.len() == old(self).options.count,
            old(self).keys@.len() == old(self).options.count,
            old(self).options.count < usize::MAX,
            old(self).cache.wf(),
            old(self).viewport_size == old(self).scroll_rect.main,
            old(self).options.get_item_key is Index ==> forall|i: int|
                0 <= i < old(self).options.count ==> #[trigger] old(self).keys@[i] == i,
        ensures
            final(self).wf(),
            final(self)@ == old(self)@,
    {
        self.sums = CumulativeSizeIndex::build(&self.sizes, self.options.gap);
    }

    /// Counts one change notification and runs the callback, unless a batch is open.
    fn notify(&mut self)
        ensures
            final(self)@ == old(self)@.after_notify(),
            final(self).wf() == old(self).wf(),
    {
        if self.notify_depth > 0 {
            self.notify_pending = true;
            return;
        }
        self.notify_now();
    }

    fn notify_now(&mut self)
        ensures
            final(self)@ == (VirtualizerModel { notifications: old(self)@.notifications + 1, ..old(self)@ }),
            final(self).wf() == old(self).wf(),
    {
        self.notifications = Ghost(self.notifications@ + 1);
        if let Some(cb) = &self.options.on_change {
            cb.call(self, self.is_scrolling);
        }
    }

    pub fn new(options: VirtualizerOptions) -> (r: Virtualizer)
        requires
            options.count < usize::MAX,
        ensures
            r.wf(),
            r@.options == options,
            r@.derived_from_cache(),
            r@.cache == Map::<ItemKey, u32>::empty(),
            r@.scroll_rect == (match options.initial_rect { Some(x) => x, None => Rect { main: 0, cross: 0 } }),
            r@.viewport_size == r@.scroll_rect.main,
            options.initial_offset is Value ==> r@.scroll_offset == options.initial_offset->Value_0,
            !r@.is_scrolling,
            r@.scroll_direction is None,
            r@.last_scroll_event_ms is None,
            r@.notify_depth == 0,
            !r@.notify_pending,
            r@.notifications == 0,
    {
        let scroll_rect = match options.initial_rect {
            Some(x) => x,
            None => Rect { main: 0, cross: 0 },
        };
        let scroll_offset = options.initial_offset.resolve();
        let mut v = Virtualizer {
            viewport_size: scroll_rect.main,
            scroll_offset,
            scroll_rect,
            is_scrolling: false,
            scroll_direction: None,
            last_scroll_event_ms: None,
            sizes: Vec::new(),
            measured: Vec::new(),
            keys: Vec::new(),
            sums: CumulativeSizeIndex::build(&Vec::new(), 0),
            cache: MeasurementCache::new(),
            options,
            notify_depth: 0,
            notify_pending: false,
            notifications: Ghost(0),
        };
        v.rebuild_estimates();
        v
    }

    pub fn options(&self) -> (r: &VirtualizerOptions)
        ensures
            *r == self@.options,
    {
        &self.options
    }

    pub fn count(&self) -> (r: usize)
        ensures
            r == self@.options.count,
    {
        self.options.count
    }

    pub fn enabled(&self) -> (r: bool)
        ensures
            r == self@.options.enabled,
    {
        self.options.enabled
    }

    pub fn is_scrolling(&self) -> (r: bool)
        ensures
            r == self@.is_scrolling,
    {
        self.is_scrolling
    }

    pub fn scroll_direction(&self) -> (r: Option<ScrollDirection>)
        ensures
            r == self@.scroll_direction,
    {
        self.scroll_direction
    }

    pub fn viewport_size(&self) -> (r: u32)
        ensures
            r == self@.viewport_size,
    {
        self.viewport_size
    }

    pub fn scroll_rect(&self) -> (r: Rect)
        ensures
            r == self@.scroll_rect,
    {
        self.scroll_rect
    }

    pub fn scroll_offset(&self) -> (r: u64)
        ensures
            r == self@.scroll_offset,
    {
        self.scroll_offset
    }

    /// Sums of effective sizes are nonnegative and far below `2^100`.
    proof fn lemma_sum_fits(&self, k: int)
        requires
            self.wf(),
            0 <= k <= self@.count(),
        ensures
            0 <= sum_eff(self@.sizes, self@.options.gap, k) <= 0x1_0000_0000_0000_0000 * 8589934590,
    {
        lemma_sum_eff_nonneg(self@.sizes, self@.options.gap, k);
        lemma_sum_eff_bound(self@.sizes, self@.options.gap, k);
        assert(k * 8589934590 <= 0x1_0000_0000_0000_0000 * 8589934590) by (nonlinear_arith)
            requires
                k <= 0x1_0000_0000_0000_0000,
        ;
    }

    pub fn total_size(&self) -> (r: u64)
        requires
            self.wf(),
        ensures
            r == self@.total_size(),
    {
        if !self.options.enabled {
            return 0;
        }
        let t = self.sums.total(Ghost(self.sizes@), Ghost(self.options.gap));
        proof {
            self.lemma_sum_fits(self.options.count as int);
        }
        let x: u128 = self.options.padding_start as u128 + t + self.options.padding_end as u128;
        if x > u64::MAX as u128 {
            u64::MAX
        } else {
            x as u64
        }
    }

    /// The largest scroll offset: margin plus whatever of the content the viewport cannot
    /// show; while disabled, the initial offset.
    pub fn max_scroll_offset(&self) -> (r: u64)
        requires
            self.wf(),
        ensures
            self@.options.enabled ==> r == self@.max_scroll(),
            !self@.options.enabled && self@.options.initial_offset is Value ==> r
                == self@.options.initial_offset->Value_0,
    {
        if !self.options.enabled {
            return self.options.initial_offset.resolve();
        }
        self.max_scroll_for(self.viewport_size)
    }

    fn max_scroll_for(&self, view: u32) -> (r: u64)
        requires
            self.wf(),
        ensures
            r == self@.max_scroll_for(view as int),
    {
        let total = self.total_size();
        (self.options.scroll_margin as u64).saturating_add(total.saturating_sub(view as u64))
    }

    pub fn clamp_scroll_offset(&self, offset: u64) -> (r: u64)
        requires
            self.wf(),
        ensures
            self@.clamp_of(offset as int, r as int),
    {
        let m = self.max_scroll_offset();
        if offset < m { offset } else { m }
    }

    /// The scroll offset relative to the start of the list.
    pub fn scroll_offset_in_list(&self) -> (r: u64)
        ensures
            r == (if self@.scroll_offset > self@.options.scroll_margin {
                self@.scroll_offset - self@.options.scroll_margin
            } else {
                0
            }),
    {
        self.scroll_offset.saturating_sub(self.options.scroll_margin as u64)
    }

    fn index_in_list(&self, off: u64) -> (r: usize)
        requires
            self.wf(),
            self.options.count > 0,
        ensures
            r == self@.index_in_list(off as int),
            r < self@.count(),
    {
        let ps = self.options.padding_start as u64;
        if off < ps {
            return 0;
        }
        let c = self.sums.lower_bound(Ghost(self.sizes@), Ghost(self.options.gap), off - ps);
        proof {
            lemma_consumed_bounds(self.sizes@, self.options.gap, (off - ps) as int, self.options.count as int);
        }
        if c < self.options.count - 1 { c } else { self.options.count - 1 }
    }

    fn index_at(&self, offset: u64) -> (r: usize)
        requires
            self.wf(),
            self.options.count > 0,
        ensures
            r == self@.index_at(offset as int),
            r < self@.count(),
    {
        let m = self.options.scroll_margin as u64;
        if offset < m {
            return 0;
        }
        self.index_in_list(offset - m)
    }

    /// Index of the item under an absolute offset; `None` when disabled or empty.
    pub fn index_at_offset(&self, offset: u64) -> (r: Option<usize>)
        requires
            self.wf(),
        ensures
            self@.options.enabled && self@.count() > 0 ==> r == Some(self@.index_at(offset as int) as usize),
            !(self@.options.enabled && self@.count() > 0) ==> r is None,
            r is Some ==> r->Some_0 < self@.count(),
            self@.options.enabled && self@.count() > 0 ==> 0 <= self@.index_at(offset as int) < self@.count(),
    {
        if !self.options.enabled || self.options.count == 0 {
            return None;
        }
        Some(self.index_at(offset))
    }

    fn item(&self, index: usize) -> (r: VirtualItem)
        requires
            self.wf(),
            index < self@.count(),
        ensures
            r == self@.item(index as int),
            r.start == self@.item_start(index as int),
            r.size == self@.sizes[index as int],
    {
        let p = self.sums.prefix_sum(Ghost(self.sizes@), Ghost(self.options.gap), index);
        proof {
            self.lemma_sum_fits(index as int);
        }
        let x: u128 = self.options.scroll_margin as u128 + self.options.padding_start as u128 + p;
        let start: u64 = if x > u64::MAX as u128 {
            u64::MAX
        } else {
            x as u64
        };
        VirtualItem { index, start, size: self.sizes[index] }
    }

    pub fn item_start(&self, index: usize) -> (r: Option<u64>)
        requires
            self.wf(),
        ensures
            self@.options.enabled && index < self@.count() ==> r == Some(self@.item_start(index as int) as u64),
            !(self@.options.enabled && index < self@.count()) ==> r is None,
    {
        if !self.options.enabled || index >= self.options.count {
            return None;
        }
        Some(self.item(index).start)
    }

    pub fn item_size(&self, index: usize) -> (r: Option<u32>)
        requires
            self.wf(),
        ensures
            self@.options.enabled && index < self@.count() ==> r == Some(self@.sizes[index as int]),
            !(self@.options.enabled && index < self@.count()) ==> r is None,
    {
        if !self.options.enabled || index >= self.options.count {
            return None;
        }
        Some(self.sizes[index])
    }

    pub fn item_end(&self, index: usize) -> (r: Option<u64>)
        requires
            self.wf(),
        ensures
            self@.options.enabled && index < self@.count() ==> r == Some(
                sat(self@.item_start(index as int) + self@.sizes[index as int]) as u64,
            ),
            !(self@.options.enabled && index < self@.count()) ==> r is None,
    {
        if !self.options.enabled || index >= self.options.count {
            return None;
        }
        Some(self.item(index).end())
    }

    pub fn is_measured(&self, index: usize) -> (r: bool)
        requires
            self.wf(),
        ensures
            r == (index < self@.count() && self@.measured[index as int]),
    {
        index < self.measured.len() && self.measured[index]
    }

    /// Key of the item at `index`: the key it had when sizes were last derived, or what the
    /// key function gives for an index past the count.
    pub fn key_for(&self, index: usize) -> (r: ItemKey)
        requires
            self.wf(),
        ensures
            index < self@.count() ==> r == self@.keys[index as int],
    {
        if index < self.keys.len() {
            self.keys[index]
        } else {
            self.options.get_item_key.key(index)
        }
    }

    pub fn virtual_item_for_offset(&self, offset: u64) -> (r: Option<VirtualItem>)
        requires
            self.wf(),
        ensures
            self@.options.enabled && self@.count() > 0 ==> r == Some(self@.item(self@.index_at(offset as int))),
            !(self@.options.enabled && self@.count() > 0) ==> r is None,
    {
        match self.index_at_offset(offset) {
            Some(i) => Some(self.item(i)),
            None => None,
        }
    }

    pub fn virtual_item_keyed_for_offset(&self, offset: u64) -> (r: Option<VirtualItemKeyed>)
        requires
            self.wf(),
        ensures
            self@.options.enabled && self@.count() > 0 ==> r == Some(self@.item_keyed(self@.index_at(offset as int))),
            !(self@.options.enabled && self@.count() > 0) ==> r is None,
    {
        match self.index_at_offset(offset) {
            Some(i) => Some(self.item_keyed(i)),
            None => None,
        }
    }

    fn item_keyed(&self, index: usize) -> (r: VirtualItemKeyed)
        requires
            self.wf(),
            index < self@.count(),
        ensures
            r == self@.item_keyed(index as int),
            r.start == self@.item_start(index as int),
    {
        let it = self.item(index);
        VirtualItemKeyed { key: self.keys[index], index, start: it.start, size: it.size }
    }

    fn compute_visible_range(&self, scroll_offset: u64, viewport_size: u32) -> (r: VirtualRange)
        requires
            self.wf(),
            self@.options.enabled,
        ensures
            (r.start_index as int, r.end_index as int) == self@.visible_for(scroll_offset as int, viewport_size as int),
    {
        let count = self.options.count;
        if count == 0 || viewport_size == 0 {
            return VirtualRange { start_index: 0, end_index: 0 };
        }
        let margin = self.options.scroll_margin as u64;
        let view = viewport_size as u64;
        let total = self.total_size();
        let max_scroll = self.max_scroll_for(viewport_size);
        let off = if scroll_offset < max_scroll { scroll_offset } else { max_scroll };
        let scroll_end = off.saturating_add(view);
        if scroll_end <= margin {
            return VirtualRange { start_index: 0, end_index: 0 };
        }
        let vs = off.saturating_sub(margin);
        if vs >= total {
            return VirtualRange { start_index: count, end_index: count };
        }
        let ve = scroll_end - margin - 1;
        let last = if ve > vs { ve } else { vs };
        let start = self.index_in_list(vs);
        let end = self.index_in_list(last) + 1;
        VirtualRange { start_index: start, end_index: end }
    }

    fn compute_range(&self, scroll_offset: u64, viewport_size: u32) -> (r: VirtualRange)
        requires
            self.wf(),
            self@.options.enabled,
        ensures
            (r.start_index as int, r.end_index as int) == self@.virtual_for(scroll_offset as int, viewport_size as int),
    {
        let range = self.compute_visible_range(scroll_offset, viewport_size);
        if range.start_index >= range.end_index {
            return range;
        }
        let o = self.options.overscan;
        let s = range.start_index.saturating_sub(o);
        let e = range.end_index.saturating_add(o);
        let e = if e < self.options.count { e } else { self.options.count };
        VirtualRange { start_index: s, end_index: e }
    }

    /// The items that intersect the viewport at the given offset and size.
    pub fn visible_range_for(&self, scroll_offset: u64, viewport_size: u32) -> (r: VirtualRange)
        requires
            self.wf(),
        ensures
            (r.start_index as int, r.end_index as int) == self@.visible_for(scroll_offset as int, viewport_size as int),
    {
        if !self.options.enabled {
            return VirtualRange { start_index: 0, end_index: 0 };
        }
        self.compute_visible_range(scroll_offset, viewport_size)
    }

    /// The visible range widened by the overscan, at the given offset and size.
    pub fn virtual_range_for(&self, scroll_offset: u64, viewport_size: u32) -> (r: VirtualRange)
        requires
            self.wf(),
        ensures
            (r.start_index as int, r.end_index as int) == self@.virtual_for(scroll_offset as int, viewport_size as int),
    {
        if !self.options.enabled {
            return VirtualRange { start_index: 0, end_index: 0 };
        }
        self.compute_range(scroll_offset, viewport_size)
    }

    pub fn visible_range(&self) -> (r: VirtualRange)
        requires
            self.wf(),
        ensures
            (r.start_index as int, r.end_index as int) == self@.visible_for(self@.scroll_offset as int, self@.viewport_size as int),
    {
        self.visible_range_for(self.scroll_offset, self.viewport_size)
    }

    pub fn virtual_range(&self) -> (r: VirtualRange)
        requires
            self.wf(),
        ensures
            (r.start_index as int, r.end_index as int) == self@.virtual_for(self@.scroll_offset as int, self@.viewport_size as int),
    {
        self.virtual_range_for(self.scroll_offset, self.viewport_size)
    }

    /// Offset that shows item `index` (clamped to the last item) as `align` asks, clamped to
    /// the scrollable range. Reads state only.
    pub fn scroll_to_index_offset(&self, index: usize, align: Align) -> (r: u64)
        requires
            self.wf(),
        ensures
            offset_for_index(self@, index, align, r),
    {
        if !self.options.enabled {
            return self.options.initial_offset.resolve();
        }
        if self.options.count == 0 {
            return 0;
        }
        let index = if index < self.options.count { index } else { self.options.count - 1 };
        let item = self.item(index);
        let sp_start = self.options.scroll_padding_start as u64;
        let sp_end = self.options.scroll_padding_end as u64;
        let view = self.viewport_size as u64;
        let end = item.end();
        let target = match align {
            Align::Start => item.start.saturating_sub(sp_start),
            Align::End => end.saturating_add(sp_end).saturating_sub(view),
            Align::Center => {
                let center = item.start.saturating_add(item.size as u64 / 2);
                center.saturating_sub(view / 2)
            },
            Align::Auto => {
                let cur = self.scroll_offset;
                let cur_end = cur.saturating_add(view);
                if item.start >= cur && end <= cur_end {
                    cur
                } else if item.start < cur {
                    item.start.saturating_sub(sp_start)
                } else {
                    end.saturating_add(sp_end).saturating_sub(view)
                }
            },
        };
        self.clamp_scroll_offset(target)
    }

    /// Geometry and scroll state as configured initially; the offset as the initial offset
    /// gives it.
    fn reset_to_initial(&mut self)
        requires
            old(self).wf(),
        ensures
            final(self).wf(),
            final(self)@ == (VirtualizerModel {
                scroll_offset: final(self)@.scroll_offset,
                scroll_rect: final(self)@.scroll_rect,
                viewport_size: final(self)@.scroll_rect.main,
                is_scrolling: false,
                scroll_direction: None,
                last_scroll_event_ms: None,
                ..old(self)@
            }),
            final(self)@.scroll_rect == (match old(self)@.options.initial_rect {
                Some(x) => x,
                None => Rect { main: 0, cross: 0 },
            }),
            old(self)@.options.initial_offset is Value ==> final(self)@.scroll_offset
                == old(self)@.options.initial_offset->Value_0,
    {
        self.scroll_offset = self.options.initial_offset.resolve();
        self.scroll_rect = match self.options.initial_rect {
            Some(x) => x,
            None => Rect { main: 0, cross: 0 },
        };
        self.viewport_size = self.scroll_rect.main;
        self.is_scrolling = false;
        self.scroll_direction = None;
        self.last_scroll_event_ms = None;
    }

    /// Zero geometry and scroll state, with the offset as the initial offset gives it.
    fn reset_to_disabled(&mut self)
        requires
            old(self).wf(),
        ensures
            final(self).wf(),
            final(self)@ == (VirtualizerModel {
                scroll_offset: final(self)@.scroll_offset,
                scroll_rect: Rect { main: 0, cross: 0 },
                viewport_size: 0,
                is_scrolling: false,
                scroll_direction: None,
                last_scroll_event_ms: None,
                ..old(self)@
            }),
            old(self)@.options.initial_offset is Value ==> final(self)@.scroll_offset
                == old(self)@.options.initial_offset->Value_0,
    {
        self.viewport_size = 0;
        self.scroll_offset = self.options.initial_offset.resolve();
        self.scroll_rect = Rect { main: 0, cross: 0 };
        self.is_scrolling = false;
        self.scroll_direction = None;
        self.last_scroll_event_ms = None;
    }

    /// Replaces the whole configuration. Sizes are re-derived when the count or either
    /// closure changed, the prefix sums rebuilt when only the gap changed; disabling zeroes
    /// the geometry and enabling restores the initial one.
    pub fn set_options(&mut self, options: VirtualizerOptions)
        requires
            old(self).wf(),
            options.count < usize::MAX,
        ensures
            final(self).wf(),
            final(self)@.options == options,
            final(self)@.cache == old(self)@.cache,
            final(self)@.notify_depth == old(self)@.notify_depth,
            final(self)@.notifications == old(self)@.after_notify().notifications,
            final(self)@.notify_pending == old(self)@.after_notify().notify_pending,
            !options.enabled ==> {
                &&& final(self)@.viewport_size == 0
                &&& final(self)@.scroll_rect == Rect { main: 0, cross: 0 }
                &&& !final(self)@.is_scrolling
                &&& final(self)@.scroll_direction is None
                &&& options.initial_offset is Value ==> final(self)@.scroll_offset == options.initial_offset->Value_0
            },
            options.enabled && !old(self)@.options.enabled ==> {
                &&& final(self)@.derived_from_cache()
                &&& final(self)@.scroll_rect == (match options.initial_rect {
                    Some(x) => x,
                    None => Rect { main: 0, cross: 0 },
                })
                &&& final(self)@.viewport_size == final(self)@.scroll_rect.main
                &&& options.initial_offset is Value ==> final(self)@.scroll_offset == options.initial_offset->Value_0
                &&& !final(self)@.is_scrolling
                &&& final(self)@.scroll_direction is None
            },
            options.count != old(self)@.options.count ==> final(self)@.derived_from_cache(),
            final(self)@.derived_from_cache() || (final(self)@.sizes == old(self)@.sizes
                && final(self)@.measured == old(self)@.measured && final(self)@.keys == old(self)@.keys),
            options.enabled && old(self)@.options.enabled && options.count == old(self)@.options.count
                && options.gap == old(self)@.options.gap ==> final(self)@.viewport_size == old(self)@.viewport_size
                && final(self)@.scroll_offset == old(self)@.scroll_offset,
    {
        let prev_count = self.options.count;
        let prev_gap = self.options.gap;
        let was_enabled = self.options.enabled;
        let same_estimate = self.options.estimate_size.same(&options.estimate_size);
        let same_key = self.options.get_item_key.same(&options.get_item_key);
        self.options = options;
        if self.options.count != prev_count || !same_estimate || !same_key
            || (self.options.enabled && !was_enabled) {
            self.rebuild_estimates();
        } else if self.options.gap != prev_gap {
            self.rebuild_sums();
        }
        if !self.options.enabled {
            self.reset_to_disabled();
        } else if !was_enabled {
            self.reset_to_initial();
        }
        self.notify();
    }

    /// Applies `f` to a copy of the configuration and then sets it, as `set_options` does;
    /// a configuration whose count is `usize::MAX` is not taken.
    pub fn update_options(&mut self, f: impl FnOnce(&mut VirtualizerOptions))
        requires
            old(self).wf(),
            forall|o: &mut VirtualizerOptions| #[trigger] f.requires((o,)),
        ensures
            final(self).wf(),
            final(self)@.cache == old(self)@.cache,
            exists|o: &mut VirtualizerOptions| {
                &&& *o == old(self)@.options
                &&& #[trigger] f.ensures((o,), ())
                &&& final(o).count < usize::MAX ==> final(self)@.options == *final(o)
                &&& final(o).count >= usize::MAX ==> final(self)@ == old(self)@
            },
    {
        let mut next = self.options.clone();
        f(&mut next);
        if next.count < usize::MAX {
            self.set_options(next);
        }
    }

    pub fn set_on_change(&mut self, on_change: Option<impl Fn(&Virtualizer, bool) + Send + Sync + 'static>)
        requires
            old(self).wf(),
        ensures
            final(self).wf(),
            final(self)@ == (VirtualizerModel {
                options: VirtualizerOptions { on_change: final(self)@.options.on_change, ..old(self)@.options },
                ..old(self)@
            }).after_notify(),
            final(self)@.options.on_change is Some <==> on_change is Some,
    {
        self.options.on_change = match on_change {
            Some(f) => Some(crate::callbacks::OnChangeCallback::new(f)),
            None => None,
        };
        self.notify();
    }

    pub fn set_initial_offset(&mut self, initial_offset: u64)
        requires
            old(self).wf(),
        ensures
            final(self).wf(),
            old(self)@.options.initial_offset == InitialOffset::Value(initial_offset) ==> final(self)@ == old(self)@,
            old(self)@.options.initial_offset != InitialOffset::Value(initial_offset) ==> final(self)@ == (VirtualizerModel {
                options: VirtualizerOptions { initial_offset: InitialOffset::Value(initial_offset), ..old(self)@.options },
                ..old(self)@
            }).after_notify(),
    {
        if let InitialOffset::Value(v) = self.options.initial_offset {
            if v == initial_offset {
                return;
            }
        }
        self.options.initial_offset = InitialOffset::Value(initial_offset);
        self.notify();
    }

    pub fn set_initial_offset_provider(&mut self, initial_offset: impl Fn() -> u64 + Send + Sync + 'static)
        requires
            old(self).wf(),
        ensures
            final(self).wf(),
            final(self)@ == (VirtualizerModel {
                options: VirtualizerOptions { initial_offset: final(self)@.options.initial_offset, ..old(self)@.options },
                ..old(self)@
            }).after_notify(),
            final(self)@.options.initial_offset is Provider,
    {
        self.options.initial_offset = InitialOffset::Provider(crate::callbacks::OffsetProvider::new(initial_offset));
        self.notify();
    }

    pub fn set_use_scrollend_event(&mut self, use_scrollend_event: bool)
        requires
            old(self).wf(),
        ensures
            final(self).wf(),
            old(self)@.options.use_scrollend_event == use_scrollend_event ==> final(self)@ == old(self)@,
            old(self)@.options.use_scrollend_event != use_scrollend_event ==> final(self)@ == (VirtualizerModel {
                options: VirtualizerOptions { use_scrollend_event, ..old(self)@.options },
                ..old(self)@
            }).after_notify(),
    {
        if self.options.use_scrollend_event == use_scrollend_event {
            return;
        }
        self.options.use_scrollend_event = use_scrollend_event;
        self.notify();
    }

    pub fn set_is_scrolling_reset_delay_ms(&mut self, delay_ms: u64)
        requires
            old(self).wf(),
        ensures
            final(self).wf(),
            old(self)@.options.is_scrolling_reset_delay_ms == delay_ms ==> final(self)@ == old(self)@,
            old(self)@.options.is_scrolling_reset_delay_ms != delay_ms ==> final(self)@ == (VirtualizerModel {
                options: VirtualizerOptions { is_scrolling_reset_delay_ms: delay_ms, ..old(self)@.options },
                ..old(self)@
            }).after_notify(),
    {
        if self.options.is_scrolling_reset_delay_ms == delay_ms {
            return;
        }
        self.options.is_scrolling_reset_delay_ms = delay_ms;
        self.notify();
    }

    fn begin_batch(&mut self)
        ensures
            final(self)@ == old(self)@.after_batch_begin(),
            final(self).wf() == old(self).wf(),
    {
        self.notify_depth = self.notify_depth.saturating_add(1);
    }

    /// Closes a batch; closing the outermost one fires one notification if anything changed.
    fn end_batch(&mut self)
        ensures
            final(self).wf() == old(self).wf(),
            final(self)@ == old(self)@.after_batch_end(),
    {
        self.notify_depth = self.notify_depth.saturating_sub(1);
        if self.notify_depth == 0 && self.notify_pending {
            self.notify_pending = false;
            self.notify_now();
        }
    }

    /// Runs `f` with notifications deferred; when the outermost batch closes, one
    /// notification fires if anything inside asked for one.
    pub fn batch_update(&mut self, f: impl FnOnce(&mut Virtualizer))
        requires
            old(self).wf(),
            forall|v: &mut Virtualizer| v.wf() && (*v)@.notify_depth > 0 ==> #[trigger] f.requires((v,)),
            forall|v: &mut Virtualizer| #[trigger] f.ensures((v,), ()) ==> {
                &&& final(v).wf()
                &&& final(v)@.notify_depth == (*v)@.notify_depth
                &&& final(v)@.notifications == (*v)@.notifications
                &&& (*v)@.notify_pending ==> final(v)@.notify_pending
            },
        ensures
            final(self).wf(),
            exists|v: &mut Virtualizer| {
                &&& (*v)@ == old(self)@.after_batch_begin()
                &&& #[trigger] f.ensures((v,), ())
                &&& final(self)@ == final(v)@.after_batch_end()
            },
    {
        self.begin_batch();
        f(self);
        self.end_batch();
    }

    pub fn set_enabled(&mut self, enabled: bool)
        requires
            old(self).wf(),
        ensures
            final(self).wf(),
            old(self)@.options.enabled == enabled ==> final(self)@ == old(self)@,
            old(self)@.options.enabled != enabled ==> {
                &&& final(self)@.options == (VirtualizerOptions { enabled, ..old(self)@.options })
                &&& !enabled ==> final(self)@.sizes == old(self)@.sizes
                &&& enabled ==> final(self)@.derived_from_cache()
                &&& final(self)@.cache == old(self)@.cache
                &&& !final(self)@.is_scrolling
                &&& final(self)@.scroll_direction is None
                &&& !enabled ==> final(self)@.viewport_size == 0 && final(self)@.scroll_rect == Rect { main: 0, cross: 0 }
                &&& enabled ==> final(self)@.scroll_rect == (match old(self)@.options.initial_rect {
                    Some(x) => x,
                    None => Rect { main: 0, cross: 0 },
                }) && final(self)@.viewport_size == final(self)@.scroll_rect.main
                &&& old(self)@.options.initial_offset is Value ==> final(self)@.scroll_offset
                    == old(self)@.options.initial_offset->Value_0
                &&& final(self)@.notify_depth == old(self)@.notify_depth
                &&& final(self)@.notifications == old(self)@.after_notify().notifications
                &&& final(self)@.notify_pending == old(self)@.after_notify().notify_pending
            },
    {
        if self.options.enabled == enabled {
            return;
        }
        self.options.enabled = enabled;
        if !enabled {
            self.reset_to_disabled();
        } else {
            self.rebuild_estimates();
            self.reset_to_initial();
        }
        self.notify();
    }

    pub fn set_is_scrolling(&mut self, is_scrolling: bool)
        requires
            old(self).wf(),
        ensures
            final(self).wf(),
            old(self)@.is_scrolling == is_scrolling ==> final(self)@ == old(self)@,
            old(self)@.is_scrolling != is_scrolling ==> final(self)@ == (VirtualizerModel {
                is_scrolling,
                scroll_direction: if is_scrolling { old(self)@.scroll_direction } else { None },
                last_scroll_event_ms: if is_scrolling { old(self)@.last_scroll_event_ms } else { None },
                ..old(self)@
            }).after_notify(),
    {
        if self.is_scrolling == is_scrolling {
            return;
        }
        self.is_scrolling = is_scrolling;
        if !is_scrolling {
            self.scroll_direction = None;
            self.last_scroll_event_ms = None;
        }
        self.notify();
    }

    /// Records a scroll event at `now_ms` and marks scrolling.
    pub fn notify_scroll_event(&mut self, now_ms: u64)
        requires
            old(self).wf(),
        ensures
            final(self).wf(),
            !old(self)@.options.enabled ==> final(self)@ == old(self)@,
            old(self)@.options.enabled && old(self)@.is_scrolling ==> final(self)@ == (VirtualizerModel {
                last_scroll_event_ms: Some(now_ms),
                ..old(self)@
            }),
            old(self)@.options.enabled && !old(self)@.is_scrolling ==> final(self)@ == (VirtualizerModel {
                last_scroll_event_ms: Some(now_ms),
                is_scrolling: true,
                ..old(self)@
            }).after_notify(),
    {
        if !self.options.enabled {
            return;
        }
        self.last_scroll_event_ms = Some(now_ms);
        self.set_is_scrolling(true);
    }

    /// Ends scrolling once `is_scrolling_reset_delay_ms` has passed since the last scroll
    /// event, unless the host signals the end of scrolling itself.
    pub fn update_scrolling(&mut self, now_ms: u64)
        requires
            old(self).wf(),
        ensures
            final(self).wf(),
            ({
                let m = old(self)@;
                let due = m.options.enabled && !m.options.use_scrollend_event && m.is_scrolling
                    && m.last_scroll_event_ms is Some && (if now_ms > m.last_scroll_event_ms->Some_0 {
                    now_ms - m.last_scroll_event_ms->Some_0
                } else {
                    0
                }) >= m.options.is_scrolling_reset_delay_ms;
                &&& due ==> final(self)@ == (VirtualizerModel {
                    is_scrolling: false,
                    scroll_direction: None,
                    last_scroll_event_ms: None,
                    ..m
                }).after_notify()
                &&& !due ==> final(self)@ == m
            }),
    {
        if !self.options.enabled || self.options.use_scrollend_event || !self.is_scrolling {
            return;
        }
        match self.last_scroll_event_ms {
            None => {},
            Some(last) => {
                if now_ms.saturating_sub(last) >= self.options.is_scrolling_reset_delay_ms {
                    self.set_is_scrolling(false);
                }
            },
        }
    }

    pub fn viewport_state(&self) -> (r: ViewportState)
        ensures
            r == (ViewportState { rect: self@.scroll_rect }),
    {
        ViewportState { rect: self.scroll_rect }
    }

    pub fn scroll_state(&self) -> (r: ScrollState)
        ensures
            r == (ScrollState { offset: self@.scroll_offset, is_scrolling: self@.is_scrolling }),
    {
        ScrollState { offset: self.scroll_offset, is_scrolling: self.is_scrolling }
    }

    pub fn frame_state(&self) -> (r: FrameState)
        ensures
            r == (FrameState {
                viewport: ViewportState { rect: self@.scroll_rect },
                scroll: ScrollState { offset: self@.scroll_offset, is_scrolling: self@.is_scrolling },
            }),
    {
        FrameState { viewport: self.viewport_state(), scroll: self.scroll_state() }
    }

    pub fn set_scroll_rect(&mut self, rect: Rect)
        requires
            old(self).wf(),
        ensures
            final(self).wf(),
            old(self)@.scroll_rect == rect ==> final(self)@ == old(self)@,
            old(self)@.scroll_rect != rect ==> final(self)@ == (VirtualizerModel {
                scroll_rect: rect,
                viewport_size: rect.main,
                ..old(self)@
            }).after_notify(),
    {
        if self.scroll_rect == rect {
            return;
        }
        self.scroll_rect = rect;
        self.viewport_size = rect.main;
        self.notify();
    }

    pub fn restore_viewport_state(&mut self, viewport: ViewportState)
        requires
            old(self).wf(),
        ensures
            final(self).wf(),
            old(self)@.scroll_rect == viewport.rect ==> final(self)@ == old(self)@,
            old(self)@.scroll_rect != viewport.rect ==> final(self)@ == (VirtualizerModel {
                scroll_rect: viewport.rect,
                viewport_size: viewport.rect.main,
                ..old(self)@
            }).after_notify(),
    {
        self.set_scroll_rect(viewport.rect);
    }

    pub fn set_viewport_size(&mut self, size: u32)
        requires
            old(self).wf(),
        ensures
            final(self).wf(),
            old(self)@.viewport_size == size && old(self)@.scroll_rect.main == size ==> final(self)@ == old(self)@,
            !(old(self)@.viewport_size == size && old(self)@.scroll_rect.main == size) ==> final(self)@ == (VirtualizerModel {
                viewport_size: size,
                scroll_rect: Rect { main: size, ..old(self)@.scroll_rect },
                ..old(self)@
            }).after_notify(),
    {
        if self.viewport_size == size && self.scroll_rect.main == size {
            return;
        }
        self.viewport_size = size;
        self.scroll_rect.main = size;
        self.notify();
    }

    /// Sets the offset; the direction becomes the sign of the change.
    pub fn set_scroll_offset(&mut self, offset: u64)
        requires
            old(self).wf(),
        ensures
            final(self).wf(),
            old(self)@.scroll_offset == offset ==> final(self)@ == old(self)@,
            old(self)@.scroll_offset != offset ==> final(self)@ == (VirtualizerModel {
                scroll_offset: offset,
                scroll_direction: Some(
                    if offset > old(self)@.scroll_offset { ScrollDirection::Forward } else { ScrollDirection::Backward },
                ),
                ..old(self)@
            }).after_notify(),
    {
        if self.scroll_offset == offset {
            return;
        }
        let prev = self.scroll_offset;
        self.scroll_offset = offset;
        self.scroll_direction = Some(if offset > prev { ScrollDirection::Forward } else { ScrollDirection::Backward });
        self.notify();
    }

    /// Sets the offset, clamped to the scrollable range.
    pub fn set_scroll_offset_clamped(&mut self, offset: u64)
        requires
            old(self).wf(),
        ensures
            final(self).wf(),
            old(self)@.options.enabled ==> final(self)@.scroll_offset == (if offset < old(self)@.max_scroll() {
                offset as int
            } else {
                old(self)@.max_scroll()
            }),
            final(self)@.scroll_offset <= offset || final(self)@ == old(self)@,
            final(self)@.sizes == old(self)@.sizes,
            final(self)@.options == old(self)@.options,
            final(self)@.viewport_size == old(self)@.viewport_size,
            final(self)@.scroll_rect == old(self)@.scroll_rect,
            final(self)@.is_scrolling == old(self)@.is_scrolling,
            final(self)@.notify_depth == old(self)@.notify_depth,
            old(self)@.notify_depth > 0 ==> final(self)@.notifications == old(self)@.notifications,
            final(self)@.notifications <= old(self)@.notifications + 1,
            final(self)@.last_scroll_event_ms == old(self)@.last_scroll_event_ms,
            exists|c: u64| #[trigger] old(self)@.clamp_of(offset as int, c as int) && old(self)@.scrolled_to(final(self)@, c as int),
    {
        let clamped = self.clamp_scroll_offset(offset);
        self.set_scroll_offset(clamped);
    }

    /// Opens a batch around several changes, closes it, and fires at most one notification.
    pub fn apply_scroll_offset_event(&mut self, offset: u64, now_ms: u64)
        requires
            old(self).wf(),
        ensures
            final(self).wf(),
            final(self)@.scroll_offset == offset,
            final(self)@.options == old(self)@.options,
            final(self)@.sizes == old(self)@.sizes,
            final(self)@.viewport_size == old(self)@.viewport_size,
            final(self)@.scroll_rect == old(self)@.scroll_rect,
            old(self)@.options.enabled ==> final(self)@.is_scrolling && final(self)@.last_scroll_event_ms == Some(now_ms),
            old(self)@.notify_depth < usize::MAX ==> final(self)@.notify_depth == old(self)@.notify_depth,
            old(self)@.notify_depth == 0 ==> final(self)@.notifications <= old(self)@.notifications + 1,
    {
        self.begin_batch();
        self.set_scroll_offset(offset);
        self.notify_scroll_event(now_ms);
        self.end_batch();
    }

    pub fn apply_scroll_offset_event_clamped(&mut self, offset: u64, now_ms: u64)
        requires
            old(self).wf(),
        ensures
            final(self).wf(),
            old(self)@.options.enabled ==> final(self)@.scroll_offset == (if offset < old(self)@.max_scroll() {
                offset as int
            } else {
                old(self)@.max_scroll()
            }),
            final(self)@.options == old(self)@.options,
            final(self)@.sizes == old(self)@.sizes,
            final(self)@.viewport_size == old(self)@.viewport_size,
            final(self)@.scroll_rect == old(self)@.scroll_rect,
            old(self)@.options.enabled ==> final(self)@.is_scrolling && final(self)@.last_scroll_event_ms == Some(now_ms),
            old(self)@.notify_depth < usize::MAX ==> final(self)@.notify_depth == old(self)@.notify_depth,
            old(self)@.notify_depth == 0 ==> final(self)@.notifications <= old(self)@.notifications + 1,
    {
        self.begin_batch();
        self.set_scroll_offset_clamped(offset);
        self.notify_scroll_event(now_ms);
        self.end_batch();
    }

    pub fn apply_scroll_rect_event(&mut self, rect: Rect)
        requires
            old(self).wf(),
        ensures
            final(self).wf(),
            final(self)@.scroll_rect == rect,
            final(self)@.viewport_size == rect.main,
            final(self)@.scroll_offset == old(self)@.scroll_offset,
            final(self)@.options == old(self)@.options,
            final(self)@.sizes == old(self)@.sizes,
            old(self)@.notify_depth < usize::MAX ==> final(self)@.notify_depth == old(self)@.notify_depth,
            old(self)@.notify_depth == 0 ==> final(self)@.notifications <= old(self)@.notifications + 1,
    {
        self.begin_batch();
        self.set_scroll_rect(rect);
        self.end_batch();
    }

    pub fn set_viewport_and_scroll(&mut self, viewport_size: u32, scroll_offset: u64)
        requires
            old(self).wf(),
        ensures
            final(self).wf(),
            final(self)@.viewport_size == viewport_size,
            final(self)@.scroll_rect.main == viewport_size,
            final(self)@.scroll_offset == scroll_offset,
            final(self)@.options == old(self)@.options,
            final(self)@.sizes == old(self)@.sizes,
            old(self)@.notify_depth < usize::MAX ==> final(self)@.notify_depth == old(self)@.notify_depth,
            old(self)@.notify_depth == 0 ==> final(self)@.notifications <= old(self)@.notifications + 1,
            old(self)@.viewport_size == viewport_size && old(self)@.scroll_rect.main == viewport_size
                && old(self)@.scroll_offset == scroll_offset && old(self)@.notify_depth < usize::MAX
                && !old(self)@.notify_pending ==> final(self)@ == old(self)@,
    {
        self.begin_batch();
        self.set_viewport_size(viewport_size);
        self.set_scroll_offset(scroll_offset);
        self.end_batch();
    }

    pub fn set_viewport_and_scroll_clamped(&mut self, viewport_size: u32, scroll_offset: u64)
        requires
            old(self).wf(),
        ensures
            final(self).wf(),
            final(self)@.viewport_size == viewport_size,
            final(self)@.scroll_rect.main == viewport_size,
            old(self)@.options.enabled ==> final(self)@.scroll_offset == (if scroll_offset < final(self)@.max_scroll() {
                scroll_offset as int
            } else {
                final(self)@.max_scroll()
            }),
            final(self)@.options == old(self)@.options,
            final(self)@.sizes == old(self)@.sizes,
            old(self)@.notify_depth < usize::MAX ==> final(self)@.notify_depth == old(self)@.notify_depth,
            old(self)@.notify_depth == 0 ==> final(self)@.notifications <= old(self)@.notifications + 1,
    {
        self.begin_batch();
        self.set_viewport_size(viewport_size);
        self.set_scroll_offset_clamped(scroll_offset);
        self.end_batch();
    }

    pub fn apply_scroll_frame(&mut self, rect: Rect, scroll_offset: u64, now_ms: u64)
        requires
            old(self).wf(),
        ensures
            final(self).wf(),
            final(self)@.scroll_rect == rect,
            final(self)@.viewport_size == rect.main,
            final(self)@.scroll_offset == scroll_offset,
            final(self)@.options == old(self)@.options,
            final(self)@.sizes == old(self)@.sizes,
            old(self)@.options.enabled ==> final(self)@.is_scrolling && final(self)@.last_scroll_event_ms == Some(now_ms),
            old(self)@.notify_depth < usize::MAX ==> final(self)@.notify_depth == old(self)@.notify_depth,
            old(self)@.notify_depth == 0 ==> final(self)@.notifications <= old(self)@.notifications + 1,
    {
        self.begin_batch();
        self.set_scroll_rect(rect);
        self.set_scroll_offset(scroll_offset);
        self.notify_scroll_event(now_ms);
        self.end_batch();
    }

    pub fn apply_scroll_frame_clamped(&mut self, rect: Rect, scroll_offset: u64, now_ms: u64)
        requires
            old(self).wf(),
        ensures
            final(self).wf(),
            final(self)@.scroll_rect == rect,
            final(self)@.viewport_size == rect.main,
            old(self)@.options.enabled ==> final(self)@.scroll_offset == (if scroll_offset < final(self)@.max_scroll() {
                scroll_offset as int
            } else {
                final(self)@.max_scroll()
            }),
            final(self)@.options == old(self)@.options,
            final(self)@.sizes == old(self)@.sizes,
            old(self)@.options.enabled ==> final(self)@.is_scrolling && final(self)@.last_scroll_event_ms == Some(now_ms),
            old(self)@.notify_depth < usize::MAX ==> final(self)@.notify_depth == old(self)@.notify_depth,
            old(self)@.notify_depth == 0 ==> final(self)@.notifications <= old(self)@.notifications + 1,
    {
        self.begin_batch();
        self.set_scroll_rect(rect);
        self.set_scroll_offset_clamped(scroll_offset);
        self.notify_scroll_event(now_ms);
        self.end_batch();
    }

    /// Restores a scroll snapshot: as a scroll event when it was scrolling, otherwise as a
    /// clamped offset with scrolling ended.
    pub fn restore_scroll_state(&mut self, scroll: ScrollState, now_ms: u64)
        requires
            old(self).wf(),
        ensures
            final(self).wf(),
            old(self)@.options.enabled ==> final(self)@.scroll_offset == (if scroll.offset < old(self)@.max_scroll() {
                scroll.offset as int
            } else {
                old(self)@.max_scroll()
            }),
            old(self)@.options.enabled ==> final(self)@.is_scrolling == scroll.is_scrolling,
            final(self)@.options == old(self)@.options,
            final(self)@.sizes == old(self)@.sizes,
            old(self)@.notify_depth < usize::MAX ==> final(self)@.notify_depth == old(self)@.notify_depth,
            old(self)@.notify_depth == 0 ==> final(self)@.notifications <= old(self)@.notifications + 1,
    {
        if scroll.is_scrolling {
            self.apply_scroll_offset_event_clamped(scroll.offset, now_ms);
            return;
        }
        self.begin_batch();
        self.set_scroll_offset_clamped(scroll.offset);
        self.set_is_scrolling(false);
        self.end_batch();
    }

    /// Restores a frame snapshot: geometry, then the clamped offset and scrolling state.
    pub fn restore_frame_state(&mut self, frame: FrameState, now_ms: u64)
        requires
            old(self).wf(),
        ensures
            final(self).wf(),
            final(self)@.scroll_rect == frame.viewport.rect,
            final(self)@.viewport_size == frame.viewport.rect.main,
            old(self)@.options.enabled ==> final(self)@.scroll_offset == (if frame.scroll.offset < final(self)@.max_scroll() {
                frame.scroll.offset as int
            } else {
                final(self)@.max_scroll()
            }),
            old(self)@.options.enabled ==> final(self)@.is_scrolling == frame.scroll.is_scrolling,
            final(self)@.options == old(self)@.options,
            final(self)@.sizes == old(self)@.sizes,
            old(self)@.notify_depth < usize::MAX ==> final(self)@.notify_depth == old(self)@.notify_depth,
            old(self)@.notify_depth == 0 ==> final(self)@.notifications <= old(self)@.notifications + 1,
    {
        if frame.scroll.is_scrolling {
            self.apply_scroll_frame_clamped(frame.viewport.rect, frame.scroll.offset, now_ms);
            return;
        }
        self.begin_batch();
        self.set_scroll_rect(frame.viewport.rect);
        self.set_scroll_offset_clamped(frame.scroll.offset);
        self.set_is_scrolling(false);
        self.end_batch();
    }

    /// Sets item `index` to `size`, records it under `key`, and returns the size change.
    fn set_item_size_keyed(&mut self, index: usize, key: ItemKey, size: u32) -> (r: i64)
        requires
            old(self).wf(),
            index < old(self)@.count(),
        ensures
            final(self).wf(),
            final(self)@ == old(self)@.with_size(index as int, key, size),
            r == size - old(self)@.sizes[index as int],
    {
        let cur = self.sizes[index];
        self.measured.set(index, true);
        self.cache.insert(key, size);
        if cur == size {
            proof {
                assert(self.sizes@ =~= old(self).sizes@.update(index as int, size));
            }
            return 0;
        }
        let ghost before = self.sizes@;
        self.sizes.set(index, size);
        self.sums.update(Ghost(before), &self.sizes, self.options.gap, index, cur);
        size as i64 - cur as i64
    }

    /// Records a measured size for item `index` under its key; out-of-range indexes are
    /// ignored.
    pub fn measure(&mut self, index: usize, size: u32)
        requires
            old(self).wf(),
        ensures
            final(self).wf(),
            index >= old(self)@.count() ==> final(self)@ == old(self)@,
            index < old(self)@.count() ==> final(self)@ == old(self)@.with_size(
                index as int,
                old(self)@.keys[index as int],
                size,
            ).after_notify(),
    {
        if index >= self.options.count {
            return;
        }
        let key = self.keys[index];
        self.measure_keyed(index, key, size);
    }

    /// Records a measured size for item `index` under the given key.
    pub fn measure_keyed(&mut self, index: usize, key: ItemKey, size: u32)
        requires
            old(self).wf(),
        ensures
            final(self).wf(),
            index >= old(self)@.count() ==> final(self)@ == old(self)@,
            index < old(self)@.count() ==> final(self)@ == old(self)@.with_size(index as int, key, size).after_notify(),
    {
        if index >= self.options.count {
            return;
        }
        self.set_item_size_keyed(index, key, size);
        self.notify();
    }

    /// Like `measure`, and moves the scroll offset by the size change when the item starts
    /// before it (or when the configured policy says so). Returns the applied shift.
    pub fn resize_item(&mut self, index: usize, size: u32) -> (r: i64)
        requires
            old(self).wf(),
        ensures
            final(self).wf(),
            index >= old(self)@.count() ==> r == 0 && final(self)@ == old(self)@,
            index < old(self)@.count() ==> resized(old(self)@, final(self)@, index as int, old(self)@.keys[index as int], size, r),
    {
        if index >= self.options.count {
            return 0;
        }
        let key = self.keys[index];
        self.resize_item_keyed(index, key, size)
    }

    pub fn resize_item_keyed(&mut self, index: usize, key: ItemKey, size: u32) -> (r: i64)
        requires
            old(self).wf(),
        ensures
            final(self).wf(),
            index >= old(self)@.count() ==> r == 0 && final(self)@ == old(self)@,
            index < old(self)@.count() ==> resized(old(self)@, final(self)@, index as int, key, size, r),
    {
        if index >= self.options.count {
            return 0;
        }
        let item = self.item(index);
        let delta = self.set_item_size_keyed(index, key, size);
        if delta == 0 {
            self.notify();
            return 0;
        }
        let adjust = match &self.options.should_adjust_scroll_position_on_item_size_change {
            Some(f) => f.call(self, item, delta),
            None => item.start < self.scroll_offset,
        };
        if adjust {
            if delta > 0 {
                self.scroll_offset = self.scroll_offset.saturating_add(delta as u64);
            } else {
                self.scroll_offset = self.scroll_offset.saturating_sub((-delta) as u64);
            }
            self.notify();
            delta
        } else {
            self.notify();
            0
        }
    }

    /// Records several measurements in order, then notifies once.
    pub fn measure_many(&mut self, measurements: Vec<(usize, u32)>)
        requires
            old(self).wf(),
        ensures
            final(self).wf(),
            final(self)@ == old(self)@.after_measurements(measurements@).after_notify(),
    {
        let n = measurements.len();
        let mut j: usize = 0;
        while j < n
            invariant
                self.wf(),
                n == measurements@.len(),
                j <= n,
                self@ == old(self)@.after_measurements(measurements@.subrange(0, j as int)),
            decreases n - j,
        {
            let (index, size) = measurements[j];
            proof {
                assert(measurements@.subrange(0, j + 1).drop_last() =~= measurements@.subrange(0, j as int));
            }
            if index < self.options.count {
                let key = self.keys[index];
                self.set_item_size_keyed(index, key, size);
            }
            j = j + 1;
        }
        proof {
            assert(measurements@.subrange(0, n as int) =~= measurements@);
        }
        self.notify();
    }

    /// Resizes several items in order; returns the sum of the applied shifts, saturated.
    pub fn resize_item_many(&mut self, measurements: Vec<(usize, u32)>) -> (r: i64)
        requires
            old(self).wf(),
        ensures
            final(self).wf(),
            final(self)@.sizes == old(self)@.after_measurements(measurements@).sizes,
            final(self)@.measured == old(self)@.after_measurements(measurements@).measured,
            final(self)@.cache == old(self)@.after_measurements(measurements@).cache,
            final(self)@.options == old(self)@.options,
            exists|states: Seq<VirtualizerModel>, shifts: Seq<i64>| {
                &&& #[trigger] resizes_in_turn(states, shifts, measurements@)
                &&& states[0] == old(self)@
                &&& states.last() == final(self)@
                &&& r == shift_sum(shifts)
            },
    {
        let mut applied: i64 = 0;
        let n = measurements.len();
        let mut j: usize = 0;
        let ghost mut states: Seq<VirtualizerModel> = seq![self@];
        let ghost mut shifts: Seq<i64> = Seq::empty();
        while j < n
            invariant
                self.wf(),
                n == measurements@.len(),
                j <= n,
                self@.sizes == old(self)@.after_measurements(measurements@.subrange(0, j as int)).sizes,
                self@.measured == old(self)@.after_measurements(measurements@.subrange(0, j as int)).measured,
                self@.cache == old(self)@.after_measurements(measurements@.subrange(0, j as int)).cache,
                self@.keys == old(self)@.keys,
                self@.options == old(self)@.options,
                states.len() == j + 1,
                shifts.len() == j,
                states[0] == old(self)@,
                states.last() == self@,
                forall|k: int| 0 <= k < j ==> resize_step(states[k], states[k + 1], measurements@[k], #[trigger] shifts[k]),
                applied == shift_sum(shifts),
            decreases n - j,
        {
            let (index, size) = measurements[j];
            proof {
                assert(measurements@.subrange(0, j + 1).drop_last() =~= measurements@.subrange(0, j as int));
                lemma_measurements_keep(old(self)@, measurements@.subrange(0, j as int));
            }
            let ghost before = self@;
            let d = self.resize_item(index, size);
            applied = if d > 0 && applied > i64::MAX - d {
                i64::MAX
            } else if d < 0 && applied < i64::MIN - d {
                i64::MIN
            } else {
                applied + d
            };
            proof {
                let ghost prev_shifts = shifts;
                let ghost prev_states = states;
                states = states.push(self@);
                shifts = shifts.push(d);
                assert(shifts.drop_last() =~= prev_shifts);
                assert(resize_step(before, self@, measurements@[j as int], d));
                assert forall|k: int| 0 <= k < j + 1 implies resize_step(states[k], states[k + 1], measurements@[k], #[trigger] shifts[k]) by {
                    if k < j {
                        assert(states[k] == prev_states[k]);
                        assert(states[k + 1] == prev_states[k + 1]);
                        assert(shifts[k] == prev_shifts[k]);
                    }
                }
            }
            j = j + 1;
        }
        proof {
            assert(measurements@.subrange(0, n as int) =~= measurements@);
            assert(resizes_in_turn(states, shifts, measurements@));
        }
        applied
    }

    /// Re-derives every size from the current key function, the cache and the estimator,
    /// keeping the count; for use after the data set was reordered in place.
    pub fn sync_item_keys(&mut self)
        requires
            old(self).wf(),
        ensures
            final(self).wf(),
            final(self)@.derived_from_cache(),
            final(self)@ == (VirtualizerModel {
                sizes: final(self)@.sizes,
                measured: final(self)@.measured,
                keys: final(self)@.keys,
                ..old(self)@
            }).after_notify(),
    {
        self.rebuild_estimates();
        self.notify();
    }

    /// Forgets every measurement; sizes return to the estimates.
    pub fn reset_measurements(&mut self)
        requires
            old(self).wf(),
        ensures
            final(self).wf(),
            final(self)@.derived_from_cache(),
            final(self)@.cache == Map::<ItemKey, u32>::empty(),
            final(self)@ == (VirtualizerModel {
                sizes: final(self)@.sizes,
                measured: final(self)@.measured,
                keys: final(self)@.keys,
                cache: Map::<ItemKey, u32>::empty(),
                ..old(self)@
            }).after_notify(),
    {
        self.cache.clear();
        self.rebuild_estimates();
        self.notify();
    }

    pub fn measurement_cache_len(&self) -> (r: usize)
        requires
            self.wf(),
        ensures
            r == self@.cache.dom().len(),
    {
        self.cache.len()
    }

    /// The cached measurements as `(key, size)` pairs, each key once.
    pub fn export_measurement_cache(&self) -> (r: Vec<(ItemKey, u32)>)
        requires
            self.wf(),
        ensures
            entries_map(r@) == self@.cache,
            r@.map_values(|e: (ItemKey, u32)| e.0).no_duplicates(),
            r@.len() == self@.cache.dom().len(),
    {
        self.cache.entries()
    }

    /// Hands each cached `(key, size)` to `f`.
    pub fn for_each_cached_size(&self, mut f: impl FnMut(&ItemKey, u32))
        requires
            self.wf(),
            forall|k: &ItemKey, v: u32| #[trigger] f.requires((k, v)),
    {
        let entries = self.cache.entries();
        let mut i: usize = 0;
        while i < entries.len()
            invariant
                forall|k: &ItemKey, v: u32| #[trigger] f.requires((k, v)),
            decreases entries.len() - i,
        {
            let (k, v) = entries[i];
            f(&k, v);
            i = i + 1;
        }
    }

    /// Replaces the cache by `entries` (a later entry for a key wins) and re-derives sizes.
    pub fn import_measurement_cache(&mut self, entries: Vec<(ItemKey, u32)>)
        requires
            old(self).wf(),
        ensures
            final(self).wf(),
            final(self)@.cache == entries_map(entries@),
            final(self)@.derived_from_cache(),
            final(self)@ == (VirtualizerModel {
                sizes: final(self)@.sizes,
                measured: final(self)@.measured,
                keys: final(self)@.keys,
                cache: entries_map(entries@),
                ..old(self)@
            }).after_notify(),
    {
        self.cache.clear();
        let n = entries.len();
        let mut i: usize = 0;
        while i < n
            invariant
                self.cache.wf(),
                n == entries@.len(),
                i <= n,
                self.cache@ == entries_map(entries@.subrange(0, i as int)),
                self.options == old(self).options,
                self.viewport_size == self.scroll_rect.main,
                self.viewport_size == old(self).viewport_size,
                self.scroll_rect == old(self).scroll_rect,
                self.scroll_offset == old(self).scroll_offset,
                self.is_scrolling == old(self).is_scrolling,
                self.scroll_direction == old(self).scroll_direction,
                self.last_scroll_event_ms == old(self).last_scroll_event_ms,
                self.notify_depth == old(self).notify_depth,
                self.notify_pending == old(self).notify_pending,
                self.notifications == old(self).notifications,
                old(self).wf(),
            decreases n - i,
        {
            let (k, v) = entries[i];
            proof {
                assert(entries@.subrange(0, i + 1).drop_last() =~= entries@.subrange(0, i as int));
            }
            self.cache.insert(k, v);
            i = i + 1;
        }
        proof {
            assert(entries@.subrange(0, n as int) =~= entries@);
        }
        self.rebuild_estimates();
        self.notify();
    }

    /// Changes the item count; sizes are re-derived for the new count.
    pub fn set_count(&mut self, count: usize)
        requires
            old(self).wf(),
            count < usize::MAX,
        ensures
            final(self).wf(),
            old(self)@.options.count == count ==> final(self)@ == old(self)@,
            old(self)@.options.count != count ==> {
                &&& final(self)@.derived_from_cache()
                &&& final(self)@ == (VirtualizerModel {
                    options: VirtualizerOptions { count, ..old(self)@.options },
                    sizes: final(self)@.sizes,
                    measured: final(self)@.measured,
                    keys: final(self)@.keys,
                    ..old(self)@
                }).after_notify()
            },
    {
        if self.options.count == count {
            return;
        }
        self.options.count = count;
        self.rebuild_estimates();
        self.notify();
    }

    pub fn set_overscan(&mut self, overscan: usize)
        requires
            old(self).wf(),
        ensures
            final(self).wf(),
            old(self)@.options.overscan == overscan ==> final(self)@ == old(self)@,
            old(self)@.options.overscan != overscan ==> final(self)@ == (VirtualizerModel {
                options: VirtualizerOptions { overscan, ..old(self)@.options },
                ..old(self)@
            }).after_notify(),
    {
        if self.options.overscan == overscan {
            return;
        }
        self.options.overscan = overscan;
        self.notify();
    }

    pub fn set_padding(&mut self, padding_start: u32, padding_end: u32)
        requires
            old(self).wf(),
        ensures
            final(self).wf(),
            old(self)@.options.padding_start == padding_start && old(self)@.options.padding_end == padding_end
                ==> final(self)@ == old(self)@,
            !(old(self)@.options.padding_start == padding_start && old(self)@.options.padding_end == padding_end)
                ==> final(self)@ == (VirtualizerModel {
                options: VirtualizerOptions { padding_start, padding_end, ..old(self)@.options },
                ..old(self)@
            }).after_notify(),
    {
        if self.options.padding_start == padding_start && self.options.padding_end == padding_end {
            return;
        }
        self.options.padding_start = padding_start;
        self.options.padding_end = padding_end;
        self.notify();
    }

    pub fn set_scroll_padding(&mut self, scroll_padding_start: u32, scroll_padding_end: u32)
        requires
            old(self).wf(),
        ensures
            final(self).wf(),
            old(self)@.options.scroll_padding_start == scroll_padding_start
                && old(self)@.options.scroll_padding_end == scroll_padding_end ==> final(self)@ == old(self)@,
            !(old(self)@.options.scroll_padding_start == scroll_padding_start
                && old(self)@.options.scroll_padding_end == scroll_padding_end) ==> final(self)@ == (VirtualizerModel {
                options: VirtualizerOptions { scroll_padding_start, scroll_padding_end, ..old(self)@.options },
                ..old(self)@
            }).after_notify(),
    {
        if self.options.scroll_padding_start == scroll_padding_start
            && self.options.scroll_padding_end == scroll_padding_end {
            return;
        }
        self.options.scroll_padding_start = scroll_padding_start;
        self.options.scroll_padding_end = scroll_padding_end;
        self.notify();
    }

    pub fn set_scroll_margin(&mut self, scroll_margin: u32)
        requires
            old(self).wf(),
        ensures
            final(self).wf(),
            old(self)@.options.scroll_margin == scroll_margin ==> final(self)@ == old(self)@,
            old(self)@.options.scroll_margin != scroll_margin ==> final(self)@ == (VirtualizerModel {
                options: VirtualizerOptions { scroll_margin, ..old(self)@.options },
                ..old(self)@
            }).after_notify(),
    {
        if self.options.scroll_margin == scroll_margin {
            return;
        }
        self.options.scroll_margin = scroll_margin;
        self.notify();
    }

    /// Changes the gap; only the prefix sums are rebuilt.
    pub fn set_gap(&mut self, gap: u32)
        requires
            old(self).wf(),
        ensures
            final(self).wf(),
            old(self)@.options.gap == gap ==> final(self)@ == old(self)@,
            old(self)@.options.gap != gap ==> final(self)@ == (VirtualizerModel {
                options: VirtualizerOptions { gap, ..old(self)@.options },
                ..old(self)@
            }).after_notify(),
    {
        if self.options.gap == gap {
            return;
        }
        self.options.gap = gap;
        self.rebuild_sums();
        self.notify();
    }

    /// Replaces the key function and re-derives sizes: measurements follow their keys.
    pub fn set_get_item_key(&mut self, f: impl Fn(usize) -> ItemKey + Send + Sync + 'static)
        requires
            old(self).wf(),
        ensures
            final(self).wf(),
            final(self)@.derived_from_cache(),
            final(self)@ == (VirtualizerModel {
                options: VirtualizerOptions { get_item_key: final(self)@.options.get_item_key, ..old(self)@.options },
                sizes: final(self)@.sizes,
                measured: final(self)@.measured,
                keys: final(self)@.keys,
                ..old(self)@
            }).after_notify(),
    {
        self.options.get_item_key = crate::options::KeySource::Custom(crate::callbacks::KeyFn::new(f));
        self.rebuild_estimates();
        self.notify();
    }

    /// Replaces the size estimator and re-derives sizes.
    pub fn set_estimate_size(&mut self, f: impl Fn(usize) -> u32 + Send + Sync + 'static)
        requires
            old(self).wf(),
        ensures
            final(self).wf(),
            final(self)@.derived_from_cache(),
            final(self)@ == (VirtualizerModel {
                options: VirtualizerOptions { estimate_size: final(self)@.options.estimate_size, ..old(self)@.options },
                sizes: final(self)@.sizes,
                measured: final(self)@.measured,
                keys: final(self)@.keys,
                ..old(self)@
            }).after_notify(),
    {
        self.options.estimate_size = crate::callbacks::SizeEstimate::new(f);
        self.rebuild_estimates();
        self.notify();
    }

    pub fn set_should_adjust_scroll_position_on_item_size_change(
        &mut self,
        f: Option<impl Fn(&Virtualizer, VirtualItem, i64) -> bool + Send + Sync + 'static>,
    )
        requires
            old(self).wf(),
        ensures
            final(self).wf(),
            final(self)@ == (VirtualizerModel {
                options: VirtualizerOptions {
                    should_adjust_scroll_position_on_item_size_change: final(self)@.options.should_adjust_scroll_position_on_item_size_change,
                    ..old(self)@.options
                },
                ..old(self)@
            }).after_notify(),
            final(self)@.options.should_adjust_scroll_position_on_item_size_change is Some <==> f is Some,
    {
        self.options.should_adjust_scroll_position_on_item_size_change = match f {
            Some(f) => Some(crate::callbacks::AdjustScrollCallback::new(f)),
            None => None,
        };
        self.notify();
    }

    pub fn set_range_extractor(&mut self, f: Option<impl Fn(Range) -> Vec<usize> + Send + Sync + 'static>)
        requires
            old(self).wf(),
        ensures
            final(self).wf(),
            final(self)@ == (VirtualizerModel {
                options: VirtualizerOptions { range_extractor: final(self)@.options.range_extractor, ..old(self)@.options },
                ..old(self)@
            }).after_notify(),
            final(self)@.options.range_extractor is Some <==> f is Some,
    {
        self.options.range_extractor = match f {
            Some(f) => Some(crate::callbacks::RangeExtractor::new(f)),
            None => None,
        };
        self.notify();
    }

    /// What a range-selection policy is handed: the visible range, the overscan and the count.
    pub fn policy_range(&self, scroll_offset: u64, viewport_size: u32) -> (r: Range)
        requires
            self.wf(),
        ensures
            (r.start_index as int, r.end_index as int) == self@.visible_for(scroll_offset as int, viewport_size as int),
            r.overscan == self@.options.overscan,
            r.count == self@.options.count,
    {
        let visible = self.visible_range_for(scroll_offset, viewport_size);
        Range {
            start_index: visible.start_index,
            end_index: visible.end_index,
            overscan: self.options.overscan,
            count: self.options.count,
        }
    }

    /// The indexes to render at the given offset and viewport: the virtual range in order,
    /// or what the range-selection policy chose, kept ascending and in bounds.
    pub fn virtual_indexes_for(&self, scroll_offset: u64, viewport_size: u32) -> (r: Vec<usize>)
        requires
            self.wf(),
        ensures
            self@.renders_indexes(scroll_offset as int, viewport_size as int, r@),
            self@.options.range_extractor_v2 is Some ==> exists|raw: Seq<usize>| r@ == #[trigger] in_bounds(raw, self@.count()),
            self@.options.range_extractor_v2 is None && self@.options.range_extractor is Some ==> exists|raw: Seq<usize>|
                r@ == #[trigger] accepted(raw, self@.count()),
    {
        let mut out: Vec<usize> = Vec::new();
        proof {
            assert(out@ =~= in_bounds(Seq::<usize>::empty(), self@.count()));
            assert(out@ =~= accepted(Seq::<usize>::empty(), self@.count()));
        }
        if !self.options.enabled {
            return out;
        }
        let visible = self.compute_visible_range(scroll_offset, viewport_size);
        if visible.start_index >= visible.end_index {
            return out;
        }
        let count = self.options.count;
        if let Some(extract) = &self.options.range_extractor_v2 {
            let range = self.policy_range(scroll_offset, viewport_size);
            let raw = extract.call(range);
            proof {
                lemma_in_bounds_below(raw@, count as int);
            }
            return keep_in_bounds(&raw, count);
        }
        match &self.options.range_extractor {
            Some(extract) => {
                let range = self.policy_range(scroll_offset, viewport_size);
                let raw = extract.call(range);
                proof {
                    lemma_accepted_ascending(raw@, count as int);
                }
                keep_accepted(&raw, count)
            },
            None => {
                let range = self.compute_range(scroll_offset, viewport_size);
                let ghost lo = range.start_index as int;
                let mut i: usize = range.start_index;
                while i < range.end_index
                    invariant
                        lo == range.start_index,
                        lo <= i <= range.end_index,
                        range.end_index <= count,
                        out@ == Seq::new((i - lo) as nat, |j: int| (lo + j) as usize),
                    decreases range.end_index - i,
                {
                    out.push(i);
                    proof {
                        assert(out@ =~= Seq::new((i + 1 - lo) as nat, |j: int| (lo + j) as usize));
                    }
                    i = i + 1;
                }
                proof {
                    assert(out@ =~= self@.default_indexes(scroll_offset as int, viewport_size as int));
                }
                out
            },
        }
    }

    /// The items for `virtual_indexes_for`, in the same order.
    pub fn virtual_items_for(&self, scroll_offset: u64, viewport_size: u32) -> (r: Vec<VirtualItem>)
        requires
            self.wf(),
        ensures
            self@.renders_items(scroll_offset as int, viewport_size as int, r@),
    {
        let idx = self.virtual_indexes_for(scroll_offset, viewport_size);
        let mut out: Vec<VirtualItem> = Vec::new();
        let mut j: usize = 0;
        while j < idx.len()
            invariant
                self.wf(),
                forall|i: int| 0 <= i < idx@.len() ==> idx@[i] < self@.count(),
                j <= idx@.len(),
                out@ == idx@.subrange(0, j as int).map_values(|i: usize| self@.item(i as int)),
            decreases idx@.len() - j,
        {
            let it = self.item(idx[j]);
            out.push(it);
            proof {
                assert(out@ =~= idx@.subrange(0, j + 1).map_values(|i: usize| self@.item(i as int)));
            }
            j = j + 1;
        }
        proof {
            assert(idx@.subrange(0, idx@.len() as int) =~= idx@);
            assert(out@.map_values(|it: VirtualItem| it.index) =~= idx@);
        }
        out
    }

    /// The keyed items for `virtual_indexes_for`, in the same order.
    pub fn virtual_items_keyed_for(&self, scroll_offset: u64, viewport_size: u32) -> (r: Vec<VirtualItemKeyed>)
        requires
            self.wf(),
        ensures
            self@.renders_keyed(scroll_offset as int, viewport_size as int, r@),
    {
        let idx = self.virtual_indexes_for(scroll_offset, viewport_size);
        let mut out: Vec<VirtualItemKeyed> = Vec::new();
        let mut j: usize = 0;
        while j < idx.len()
            invariant
                self.wf(),
                forall|i: int| 0 <= i < idx@.len() ==> idx@[i] < self@.count(),
                j <= idx@.len(),
                out@ == idx@.subrange(0, j as int).map_values(|i: usize| self@.item_keyed(i as int)),
            decreases idx@.len() - j,
        {
            let it = self.item_keyed(idx[j]);
            out.push(it);
            proof {
                assert(out@ =~= idx@.subrange(0, j + 1).map_values(|i: usize| self@.item_keyed(i as int)));
            }
            j = j + 1;
        }
        proof {
            assert(idx@.subrange(0, idx@.len() as int) =~= idx@);
            assert(out@.map_values(|it: VirtualItemKeyed| it.index) =~= idx@);
        }
        out
    }

    pub fn get_virtual_indexes(&self) -> (r: Vec<usize>)
        requires
            self.wf(),
        ensures
            self@.renders_indexes(self@.scroll_offset as int, self@.viewport_size as int, r@),
    {
        self.virtual_indexes_for(self.scroll_offset, self.viewport_size)
    }

    /// Hands each entry of `virtual_indexes_for` at the given offset and viewport to `f`, in order.
    pub fn for_each_virtual_index_for(&self, scroll_offset: u64, viewport_size: u32, mut f: impl FnMut(usize))
        requires
            self.wf(),
            forall|x: usize| #[trigger] f.requires((x,)),
    {
        let all = self.virtual_indexes_for(scroll_offset, viewport_size);
        let mut j: usize = 0;
        while j < all.len()
            invariant
                forall|x: usize| #[trigger] f.requires((x,)),
            decreases all.len() - j,
        {
            f(all[j]);
            j = j + 1;
        }
    }

    /// Hands each entry of `virtual_indexes_for` at the current offset and viewport to `f`, in order.
    pub fn for_each_virtual_index(&self, f: impl FnMut(usize))
        requires
            self.wf(),
            forall|x: usize| #[trigger] f.requires((x,)),
    {
        self.for_each_virtual_index_for(self.scroll_offset, self.viewport_size, f);
    }

    /// Hands each entry of `virtual_items_for` at the given offset and viewport to `f`, in order.
    pub fn for_each_virtual_item_for(&self, scroll_offset: u64, viewport_size: u32, mut f: impl FnMut(VirtualItem))
        requires
            self.wf(),
            forall|x: VirtualItem| #[trigger] f.requires((x,)),
    {
        let all = self.virtual_items_for(scroll_offset, viewport_size);
        let mut j: usize = 0;
        while j < all.len()
            invariant
                forall|x: VirtualItem| #[trigger] f.requires((x,)),
            decreases all.len() - j,
        {
            f(all[j]);
            j = j + 1;
        }
    }

    /// Hands each entry of `virtual_items_for` at the current offset and viewport to `f`, in order.
    pub fn for_each_virtual_item(&self, f: impl FnMut(VirtualItem))
        requires
            self.wf(),
            forall|x: VirtualItem| #[trigger] f.requires((x,)),
    {
        self.for_each_virtual_item_for(self.scroll_offset, self.viewport_size, f);
    }

    /// Hands each entry of `virtual_items_keyed_for` at the given offset and viewport to `f`, in order.
    pub fn for_each_virtual_item_keyed_for(&self, scroll_offset: u64, viewport_size: u32, mut f: impl FnMut(VirtualItemKeyed))
        requires
            self.wf(),
            forall|x: VirtualItemKeyed| #[trigger] f.requires((x,)),
    {
        let all = self.virtual_items_keyed_for(scroll_offset, viewport_size);
        let mut j: usize = 0;
        while j < all.len()
            invariant
                forall|x: VirtualItemKeyed| #[trigger] f.requires((x,)),
            decreases all.len() - j,
        {
            f(all[j]);
            j = j + 1;
        }
    }

    /// Hands each entry of `virtual_items_keyed_for` at the current offset and viewport to `f`, in order.
    pub fn for_each_virtual_item_keyed(&self, f: impl FnMut(VirtualItemKeyed))
        requires
            self.wf(),
            forall|x: VirtualItemKeyed| #[trigger] f.requires((x,)),
    {
        self.for_each_virtual_item_keyed_for(self.scroll_offset, self.viewport_size, f);
    }

    /// Replaces the contents of `out` by `virtual_indexes_for` at the given offset and viewport.
    pub fn collect_virtual_indexes_for(&self, scroll_offset: u64, viewport_size: u32, out: &mut Vec<usize>)
        requires
            self.wf(),
        ensures
            self@.renders_indexes(scroll_offset as int, viewport_size as int, final(out)@),
    {
        *out = self.virtual_indexes_for(scroll_offset, viewport_size);
    }

    /// Replaces the contents of `out` by `virtual_indexes_for` at the current offset and viewport.
    pub fn collect_virtual_indexes(&self, out: &mut Vec<usize>)
        requires
            self.wf(),
        ensures
            self@.renders_indexes(self@.scroll_offset as int, self@.viewport_size as int, final(out)@),
    {
        self.collect_virtual_indexes_for(self.scroll_offset, self.viewport_size, out);
    }

    /// Replaces the contents of `out` by `virtual_items_for` at the given offset and viewport.
    pub fn collect_virtual_items_for(&self, scroll_offset: u64, viewport_size: u32, out: &mut Vec<VirtualItem>)
        requires
            self.wf(),
        ensures
            self@.renders_items(scroll_offset as int, viewport_size as int, final(out)@),
    {
        *out = self.virtual_items_for(scroll_offset, viewport_size);
    }

    /// Replaces the contents of `out` by `virtual_items_for` at the current offset and viewport.
    pub fn collect_virtual_items(&self, out: &mut Vec<VirtualItem>)
        requires
            self.wf(),
        ensures
            self@.renders_items(self@.scroll_offset as int, self@.viewport_size as int, final(out)@),
    {
        self.collect_virtual_items_for(self.scroll_offset, self.viewport_size, out);
    }

    /// Replaces the contents of `out` by `virtual_items_keyed_for` at the given offset and viewport.
    pub fn collect_virtual_items_keyed_for(&self, scroll_offset: u64, viewport_size: u32, out: &mut Vec<VirtualItemKeyed>)
        requires
            self.wf(),
        ensures
            self@.renders_keyed(scroll_offset as int, viewport_size as int, final(out)@),
    {
        *out = self.virtual_items_keyed_for(scroll_offset, viewport_size);
    }

    /// Replaces the contents of `out` by `virtual_items_keyed_for` at the current offset and viewport.
    pub fn collect_virtual_items_keyed(&self, out: &mut Vec<VirtualItemKeyed>)
        requires
            self.wf(),
        ensures
            self@.renders_keyed(self@.scroll_offset as int, self@.viewport_size as int, final(out)@),
    {
        self.collect_virtual_items_keyed_for(self.scroll_offset, self.viewport_size, out);
    }

    pub fn get_virtual_items(&self) -> (r: Vec<VirtualItem>)
        requires
            self.wf(),
        ensures
            self@.renders_items(self@.scroll_offset as int, self@.viewport_size as int, r@),
    {
        self.virtual_items_for(self.scroll_offset, self.viewport_size)
    }

    pub fn get_virtual_items_keyed(&self) -> (r: Vec<VirtualItemKeyed>)
        requires
            self.wf(),
        ensures
            self@.renders_keyed(self@.scroll_offset as int, self@.viewport_size as int, r@),
    {
        self.virtual_items_keyed_for(self.scroll_offset, self.viewport_size)
    }

    pub fn get_virtual_range(&self) -> (r: VirtualRange)
        requires
            self.wf(),
        ensures
            (r.start_index as int, r.end_index as int) == self@.virtual_for(self@.scroll_offset as int, self@.viewport_size as int),
    {
        self.virtual_range()
    }

    pub fn get_visible_range(&self) -> (r: VirtualRange)
        requires
            self.wf(),
        ensures
            (r.start_index as int, r.end_index as int) == self@.visible_for(self@.scroll_offset as int, self@.viewport_size as int),
    {
        self.visible_range()
    }

    pub fn get_total_size(&self) -> (r: u64)
        requires
            self.wf(),
        ensures
            r == self@.total_size(),
    {
        self.total_size()
    }

    /// Forgets every measurement, as `reset_measurements`.
    pub fn measure_all(&mut self)
        requires
            old(self).wf(),
        ensures
            final(self).wf(),
            final(self)@.derived_from_cache(),
            final(self)@ == (VirtualizerModel {
                sizes: final(self)@.sizes,
                measured: final(self)@.measured,
                keys: final(self)@.keys,
                cache: Map::<ItemKey, u32>::empty(),
                ..old(self)@
            }).after_notify(),
    {
        self.reset_measurements();
    }

    /// Forgets every measurement, as `reset_measurements`.
    pub fn clear_measurement_cache(&mut self)
        requires
            old(self).wf(),
        ensures
            final(self).wf(),
            final(self)@.derived_from_cache(),
            final(self)@ == (VirtualizerModel {
                sizes: final(self)@.sizes,
                measured: final(self)@.measured,
                keys: final(self)@.keys,
                cache: Map::<ItemKey, u32>::empty(),
                ..old(self)@
            }).after_notify(),
    {
        self.reset_measurements();
    }

    /// Scrolls so that item `index` shows as `align` asks; returns the offset applied.
    pub fn scroll_to_index(&mut self, index: usize, align: Align) -> (r: u64)
        requires
            old(self).wf(),
        ensures
            final(self).wf(),
            offset_for_index(old(self)@, index, align, r),
            old(self)@.scroll_offset == r ==> final(self)@ == old(self)@,
            old(self)@.scroll_offset != r ==> final(self)@ == (VirtualizerModel {
                scroll_offset: r,
                scroll_direction: Some(
                    if r > old(self)@.scroll_offset { ScrollDirection::Forward } else { ScrollDirection::Backward },
                ),
                ..old(self)@
            }).after_notify(),
    {
        let offset = self.scroll_to_index_offset(index, align);
        self.set_scroll_offset(offset);
        offset
    }

    pub fn scroll_to_offset(&mut self, offset: u64)
        requires
            old(self).wf(),
        ensures
            final(self).wf(),
            old(self)@.scroll_offset == offset ==> final(self)@ == old(self)@,
            old(self)@.scroll_offset != offset ==> final(self)@ == (VirtualizerModel {
                scroll_offset: offset,
                scroll_direction: Some(
                    if offset > old(self)@.scroll_offset { ScrollDirection::Forward } else { ScrollDirection::Backward },
                ),
                ..old(self)@
            }).after_notify(),
    {
        self.set_scroll_offset(offset);
    }

    pub fn scroll_to_offset_clamped(&mut self, offset: u64)
        requires
            old(self).wf(),
        ensures
            final(self).wf(),
            old(self)@.options.enabled ==> final(self)@.scroll_offset == (if offset < old(self)@.max_scroll() {
                offset as int
            } else {
                old(self)@.max_scroll()
            }),
            final(self)@.sizes == old(self)@.sizes,
            final(self)@.options == old(self)@.options,
            final(self)@.viewport_size == old(self)@.viewport_size,
            exists|c: u64| #[trigger] old(self)@.clamp_of(offset as int, c as int) && old(self)@.scrolled_to(final(self)@, c as int),
    {
        self.set_scroll_offset_clamped(offset);
    }

    pub fn set_range_extractor_v2(&mut self, f: Option<impl Fn(Range) -> Vec<usize> + Send + Sync + 'static>)
        requires
            old(self).wf(),
        ensures
            final(self).wf(),
            final(self)@ == (VirtualizerModel {
                options: VirtualizerOptions { range_extractor_v2: final(self)@.options.range_extractor_v2, ..old(self)@.options },
                ..old(self)@
            }).after_notify(),
            final(self)@.options.range_extractor_v2 is Some <==> f is Some,
    {
        self.options.range_extractor_v2 = match f {
            Some(f) => Some(crate::callbacks::RangeExtractor::new(f)),
            None => None,
        };
        self.notify();
    }

    pub fn debug(&self) -> (r: bool)
        ensures
            r == self@.options.debug,
    {
        self.options.debug
    }

    pub fn set_debug(&mut self, debug: bool)
        requires
            old(self).wf(),
        ensures
            final(self).wf(),
            old(self)@.options.debug == debug ==> final(self)@ == old(self)@,
            old(self)@.options.debug != debug ==> final(self)@ == (VirtualizerModel {
                options: VirtualizerOptions { debug, ..old(self)@.options },
                ..old(self)@
            }).after_notify(),
    {
        if self.options.debug == debug {
            return;
        }
        self.options.debug = debug;
        self.notify();
    }

    pub fn set_horizontal(&mut self, horizontal: bool)
        requires
            old(self).wf(),
        ensures
            final(self).wf(),
            old(self)@.options.horizontal == horizontal ==> final(self)@ == old(self)@,
            old(self)@.options.horizontal != horizontal ==> final(self)@ == (VirtualizerModel {
                options: VirtualizerOptions { horizontal, ..old(self)@.options },
                ..old(self)@
            }).after_notify(),
    {
        if self.options.horizontal == horizontal {
            return;
        }
        self.options.horizontal = horizontal;
        self.notify();
    }

    /// The engine's invariant gives the model's lengths.
    pub proof fn lemma_lengths(&self)
        requires
            self.wf(),
        ensures
            self@.sizes.len() == self@.count(),
            self@.measured.len() == self@.count(),
            self@.keys.len() == self@.count(),
            self@.viewport_size == self@.scroll_rect.main,
            self@.index_keys(),
    {
    }
}

} // verus!
