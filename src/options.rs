//! Configuration of the engine.
use vstd::prelude::*;
use crate::callbacks::{
    AdjustScrollCallback, KeyFn, OffsetProvider, OnChangeCallback, RangeExtractor, SizeEstimate,
};
use crate::engine::Virtualizer;
use crate::types::{ItemKey, Range, Rect, VirtualItem};

verus! {

/// The initial scroll offset: a fixed value, or a provider called when it is needed.
pub enum InitialOffset {
    Value(u64),
    Provider(OffsetProvider),
}

impl InitialOffset {
    pub fn resolve(&self) -> (r: u64)
        ensures
            self is Value ==> r == self->Value_0,
    {
        match self {
            InitialOffset::Value(v) => *v,
            InitialOffset::Provider(f) => f.call(),
        }
    }
}

impl Clone for InitialOffset {
    fn clone(&self) -> (r: Self)
        ensures
            r == *self,
    {
        match self {
            InitialOffset::Value(v) => InitialOffset::Value(*v),
            InitialOffset::Provider(f) => InitialOffset::Provider(f.clone()),
        }
    }
}

/// Where item keys come from: the index itself, or the host's key function.
pub enum KeySource {
    Index,
    Custom(KeyFn),
}

impl KeySource {
    pub fn key(&self, index: usize) -> (r: ItemKey)
        ensures
            self is Index ==> r == index,
    {
        match self {
            KeySource::Index => index as ItemKey,
            KeySource::Custom(f) => f.call(index),
        }
    }

    /// Whether both give keys the same way: both by index, or through the same closure.
    pub fn same(&self, other: &KeySource) -> (r: bool)
        ensures
            self is Index && other is Index ==> r,
            r ==> (self is Index <==> other is Index),
    {
        match (self, other) {
            (KeySource::Index, KeySource::Index) => true,
            (KeySource::Custom(a), KeySource::Custom(b)) => a.same(b),
            _ => false,
        }
    }
}

impl Clone for KeySource {
    fn clone(&self) -> (r: Self)
        ensures
            r == *self,
    {
        match self {
            KeySource::Index => KeySource::Index,
            KeySource::Custom(f) => KeySource::Custom(f.clone()),
        }
    }
}

impl Default for InitialOffset {
    fn default() -> (r: Self)
        ensures
            r == InitialOffset::Value(0),
    {
        InitialOffset::Value(0)
    }
}

/// Everything the engine is configured with.
pub struct VirtualizerOptions {
    pub count: usize,
    pub estimate_size: SizeEstimate,
    pub get_item_key: KeySource,
    pub range_extractor: Option<RangeExtractor>,
    /// A lenient range-selection policy: its indexes are kept in the order given, only
    /// those past the count dropped. It takes precedence over `range_extractor`.
    pub range_extractor_v2: Option<RangeExtractor>,
    /// When disabled, every query returns an empty result.
    pub enabled: bool,
    /// A flag for hosts that log the engine's activity; the engine only carries it.
    pub debug: bool,
    /// Whether the host lays the list out horizontally; the engine only carries it.
    pub horizontal: bool,
    pub overscan: usize,
    /// The initial scroll area: `main` along the virtualized axis.
    pub initial_rect: Option<Rect>,
    /// Padding before the first item.
    pub padding_start: u32,
    /// Padding after the last item.
    pub padding_end: u32,
    /// Extra room kept before an item when scrolling to it.
    pub scroll_padding_start: u32,
    /// Extra room kept after an item when scrolling to it.
    pub scroll_padding_end: u32,
    /// Where the list starts inside a larger scroll area.
    pub scroll_margin: u32,
    pub initial_offset: InitialOffset,
    pub on_change: Option<OnChangeCallback>,
    /// When set, the host signals the end of scrolling and no delay applies.
    pub use_scrollend_event: bool,
    pub is_scrolling_reset_delay_ms: u64,
    pub should_adjust_scroll_position_on_item_size_change: Option<AdjustScrollCallback>,
    /// Space between consecutive items.
    pub gap: u32,
}

impl Clone for VirtualizerOptions {
    fn clone(&self) -> (r: Self)
        ensures
            r == *self,
    {
        VirtualizerOptions {
            count: self.count,
            estimate_size: self.estimate_size.clone(),
            get_item_key: self.get_item_key.clone(),
            range_extractor: match &self.range_extractor {
                Some(f) => Some(f.clone()),
                None => None,
            },
            range_extractor_v2: match &self.range_extractor_v2 {
                Some(f) => Some(f.clone()),
                None => None,
            },
            enabled: self.enabled,
            debug: self.debug,
            horizontal: self.horizontal,
            overscan: self.overscan,
            initial_rect: self.initial_rect,
            padding_start: self.padding_start,
            padding_end: self.padding_end,
            scroll_padding_start: self.scroll_padding_start,
            scroll_padding_end: self.scroll_padding_end,
            scroll_margin: self.scroll_margin,
            initial_offset: self.initial_offset.clone(),
            on_change: match &self.on_change {
                Some(f) => Some(f.clone()),
                None => None,
            },
            use_scrollend_event: self.use_scrollend_event,
            is_scrolling_reset_delay_ms: self.is_scrolling_reset_delay_ms,
            should_adjust_scroll_position_on_item_size_change: match &self.should_adjust_scroll_position_on_item_size_change {
                Some(f) => Some(f.clone()),
                None => None,
            },
            gap: self.gap,
        }
    }
}

impl VirtualizerOptions {
    /// The defaults, with identity keys.
    pub open spec fn defaults(self, count: usize) -> bool {
        &&& self.count == count
        &&& self.get_item_key is Index
        &&& self.range_extractor is None
        &&& self.range_extractor_v2 is None
        &&& self.enabled
        &&& !self.debug
        &&& !self.horizontal
        &&& self.overscan == 1
        &&& self.initial_rect is None
        &&& self.padding_start == 0
        &&& self.padding_end == 0
        &&& self.scroll_padding_start == 0
        &&& self.scroll_padding_end == 0
        &&& self.scroll_margin == 0
        &&& self.initial_offset == InitialOffset::Value(0)
        &&& self.on_change is None
        &&& !self.use_scrollend_event
        &&& self.is_scrolling_reset_delay_ms == 150
        &&& self.should_adjust_scroll_position_on_item_size_change is None
        &&& self.gap == 0
    }

    pub fn new(count: usize, estimate_size: impl Fn(usize) -> u32 + Send + Sync + 'static) -> (r: Self)
        ensures
            r.defaults(count),
            r.get_item_key is Index,
    {
        VirtualizerOptions {
            count,
            estimate_size: SizeEstimate::new(estimate_size),
            get_item_key: KeySource::Index,
            range_extractor: None,
            range_extractor_v2: None,
            enabled: true,
            debug: false,
            horizontal: false,
            overscan: 1,
            initial_rect: None,
            padding_start: 0,
            padding_end: 0,
            scroll_padding_start: 0,
            scroll_padding_end: 0,
            scroll_margin: 0,
            initial_offset: InitialOffset::Value(0),
            on_change: None,
            use_scrollend_event: false,
            is_scrolling_reset_delay_ms: 150,
            should_adjust_scroll_position_on_item_size_change: None,
            gap: 0,
        }
    }

    pub fn new_with_key(
        count: usize,
        estimate_size: impl Fn(usize) -> u32 + Send + Sync + 'static,
        get_item_key: impl Fn(usize) -> ItemKey + Send + Sync + 'static,
    ) -> (r: Self)
        ensures
            r.get_item_key is Custom,
            (VirtualizerOptions { get_item_key: KeySource::Index, ..r }).defaults(count),
    {
        VirtualizerOptions {
            count,
            estimate_size: SizeEstimate::new(estimate_size),
            get_item_key: KeySource::Custom(KeyFn::new(get_item_key)),
            range_extractor: None,
            range_extractor_v2: None,
            enabled: true,
            debug: false,
            horizontal: false,
            overscan: 1,
            initial_rect: None,
            padding_start: 0,
            padding_end: 0,
            scroll_padding_start: 0,
            scroll_padding_end: 0,
            scroll_margin: 0,
            initial_offset: InitialOffset::Value(0),
            on_change: None,
            use_scrollend_event: false,
            is_scrolling_reset_delay_ms: 150,
            should_adjust_scroll_position_on_item_size_change: None,
            gap: 0,
        }
    }

    pub fn with_get_item_key(self, get_item_key: impl Fn(usize) -> ItemKey + Send + Sync + 'static) -> (r: Self)
        ensures
            r == (VirtualizerOptions { get_item_key: r.get_item_key, ..self }),
            r.get_item_key is Custom,
    {
        let mut o = self;
        o.get_item_key = KeySource::Custom(KeyFn::new(get_item_key));
        o
    }

    pub fn with_range_extractor(
        self,
        range_extractor: Option<impl Fn(Range) -> Vec<usize> + Send + Sync + 'static>,
    ) -> (r: Self)
        ensures
            r == (VirtualizerOptions { range_extractor: r.range_extractor, ..self }),
            r.range_extractor is Some <==> range_extractor is Some,
    {
        let mut o = self;
        o.range_extractor = match range_extractor {
            Some(f) => Some(RangeExtractor::new(f)),
            None => None,
        };
        o
    }

    pub fn with_range_extractor_v2(
        self,
        range_extractor: Option<impl Fn(Range) -> Vec<usize> + Send + Sync + 'static>,
    ) -> (r: Self)
        ensures
            r == (VirtualizerOptions { range_extractor_v2: r.range_extractor_v2, ..self }),
            r.range_extractor_v2 is Some <==> range_extractor is Some,
    {
        let mut o = self;
        o.range_extractor_v2 = match range_extractor {
            Some(f) => Some(RangeExtractor::new(f)),
            None => None,
        };
        o
    }

    pub fn with_debug(self, debug: bool) -> (r: Self)
        ensures
            r == (VirtualizerOptions { debug, ..self }),
    {
        let mut o = self;
        o.debug = debug;
        o
    }

    pub fn with_horizontal(self, horizontal: bool) -> (r: Self)
        ensures
            r == (VirtualizerOptions { horizontal, ..self }),
    {
        let mut o = self;
        o.horizontal = horizontal;
        o
    }

    pub fn with_enabled(self, enabled: bool) -> (r: Self)
        ensures
            r == (VirtualizerOptions { enabled, ..self }),
    {
        let mut o = self;
        o.enabled = enabled;
        o
    }

    pub fn with_initial_rect(self, initial_rect: Option<Rect>) -> (r: Self)
        ensures
            r == (VirtualizerOptions { initial_rect, ..self }),
    {
        let mut o = self;
        o.initial_rect = initial_rect;
        o
    }

    pub fn with_overscan(self, overscan: usize) -> (r: Self)
        ensures
            r == (VirtualizerOptions { overscan, ..self }),
    {
        let mut o = self;
        o.overscan = overscan;
        o
    }

    pub fn with_padding(self, padding_start: u32, padding_end: u32) -> (r: Self)
        ensures
            r == (VirtualizerOptions { padding_start, padding_end, ..self }),
    {
        let mut o = self;
        o.padding_start = padding_start;
        o.padding_end = padding_end;
        o
    }

    pub fn with_scroll_padding(self, scroll_padding_start: u32, scroll_padding_end: u32) -> (r: Self)
        ensures
            r == (VirtualizerOptions { scroll_padding_start, scroll_padding_end, ..self }),
    {
        let mut o = self;
        o.scroll_padding_start = scroll_padding_start;
        o.scroll_padding_end = scroll_padding_end;
        o
    }

    pub fn with_scroll_margin(self, scroll_margin: u32) -> (r: Self)
        ensures
            r == (VirtualizerOptions { scroll_margin, ..self }),
    {
        let mut o = self;
        o.scroll_margin = scroll_margin;
        o
    }

    pub fn with_initial_offset(self, initial_offset: InitialOffset) -> (r: Self)
        ensures
            r == (VirtualizerOptions { initial_offset, ..self }),
    {
        let mut o = self;
        o.initial_offset = initial_offset;
        o
    }

    pub fn with_initial_offset_value(self, initial_offset: u64) -> (r: Self)
        ensures
            r == (VirtualizerOptions { initial_offset: InitialOffset::Value(initial_offset), ..self }),
    {
        let mut o = self;
        o.initial_offset = InitialOffset::Value(initial_offset);
        o
    }

    pub fn with_initial_offset_provider(self, initial_offset: impl Fn() -> u64 + Send + Sync + 'static) -> (r: Self)
        ensures
            r == (VirtualizerOptions { initial_offset: r.initial_offset, ..self }),
            r.initial_offset is Provider,
    {
        let mut o = self;
        o.initial_offset = InitialOffset::Provider(OffsetProvider::new(initial_offset));
        o
    }

    pub fn with_on_change(self, on_change: Option<impl Fn(&Virtualizer, bool) + Send + Sync + 'static>) -> (r: Self)
        ensures
            r == (VirtualizerOptions { on_change: r.on_change, ..self }),
            r.on_change is Some <==> on_change is Some,
    {
        let mut o = self;
        o.on_change = match on_change {
            Some(f) => Some(OnChangeCallback::new(f)),
            None => None,
        };
        o
    }

    pub fn with_use_scrollend_event(self, use_scrollend_event: bool) -> (r: Self)
        ensures
            r == (VirtualizerOptions { use_scrollend_event, ..self }),
    {
        let mut o = self;
        o.use_scrollend_event = use_scrollend_event;
        o
    }

    pub fn with_is_scrolling_reset_delay_ms(self, delay_ms: u64) -> (r: Self)
        ensures
            r == (VirtualizerOptions { is_scrolling_reset_delay_ms: delay_ms, ..self }),
    {
        let mut o = self;
        o.is_scrolling_reset_delay_ms = delay_ms;
        o
    }

    pub fn with_should_adjust_scroll_position_on_item_size_change(
        self,
        f: Option<impl Fn(&Virtualizer, VirtualItem, i64) -> bool + Send + Sync + 'static>,
    ) -> (r: Self)
        ensures
            r == (VirtualizerOptions { should_adjust_scroll_position_on_item_size_change: r.should_adjust_scroll_position_on_item_size_change, ..self }),
            r.should_adjust_scroll_position_on_item_size_change is Some <==> f is Some,
    {
        let mut o = self;
        o.should_adjust_scroll_position_on_item_size_change = match f {
            Some(f) => Some(AdjustScrollCallback::new(f)),
            None => None,
        };
        o
    }

    pub fn with_gap(self, gap: u32) -> (r: Self)
        ensures
            r == (VirtualizerOptions { gap, ..self }),
    {
        let mut o = self;
        o.gap = gap;
        o
    }
}

} // verus!
