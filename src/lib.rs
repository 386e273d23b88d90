//! A headless list virtualization engine: a binary indexed tree over item sizes, offset to
//! index lookup, overscanned visible ranges, dynamic measurement with scroll compensation,
//! and batched change notification, each with a proved contract.

pub mod types;
pub mod lowbit;
pub mod sums;
pub mod cache;
pub mod emitter;
pub mod callbacks;
pub mod options;
pub mod engine;
pub mod laws;
pub mod anchor;
pub mod tween;

pub use anchor::{
    apply_anchor, apply_anchor_at, capture_anchor_at_offset_in_viewport, capture_first_visible_anchor,
    ScrollAnchor,
};
pub use callbacks::{
    AdjustScrollCallback, KeyFn, OffsetProvider, OnChangeCallback, RangeExtractor, SizeEstimate,
};
pub use emitter::IndexEmitter;
pub use engine::{Virtualizer, VirtualizerModel};
pub use options::{InitialOffset, KeySource, VirtualizerOptions};
pub use types::{Align, ItemKey, Range, Rect, ScrollDirection, VirtualItem, VirtualRange};
pub use types::{FrameState, ScrollState, ViewportState, VirtualItemKeyed};
pub use tween::{advance_tween, Easing, Tween};
