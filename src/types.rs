use vstd::prelude::*;

verus! {

/// Where an item should land in the viewport when scrolling to it.
#[derive(Clone, Copy, Debug, PartialEq, Eq, Structural)]
pub enum Align {
    Start,
    Center,
    End,
    Auto,
}

/// The direction of the last change of the scroll offset.
#[derive(Clone, Copy, Debug, PartialEq, Eq, Structural)]
pub enum ScrollDirection {
    Forward,
    Backward,
}

/// The scroll area: `main` along the virtualized axis, `cross` across it.
#[derive(Clone, Copy, Debug, Default, PartialEq, Eq, Structural)]
pub struct Rect {
    pub main: u32,
    pub cross: u32,
}

/// A half-open range of item indexes `[start_index, end_index)`.
#[derive(Clone, Copy, Debug, PartialEq, Eq, Structural)]
pub struct VirtualRange {
    pub start_index: usize,
    pub end_index: usize,
}

impl VirtualRange {
    pub fn is_empty(&self) -> (r: bool)
        ensures
            r == (self.start_index >= self.end_index),
    {
        self.start_index >= self.end_index
    }
}

/// Largest value of a `u64`, as an integer.
pub open spec fn u64_max() -> int {
    0xffff_ffff_ffff_ffff
}

/// `x` saturated at the largest `u64`.
pub open spec fn sat(x: int) -> int {
    if x > u64_max() {
        u64_max()
    } else {
        x
    }
}

/// One rendered item: its index, absolute start offset and size.
#[derive(Clone, Copy, Debug, PartialEq, Eq, Structural)]
pub struct VirtualItem {
    pub index: usize,
    /// Start offset in the scroll axis (includes `scroll_margin` and `padding_start`).
    pub start: u64,
    /// Size in the scroll axis (excludes `gap`).
    pub size: u32,
}

impl VirtualItem {
    pub fn end(&self) -> (r: u64)
        ensures
            r == sat(self.start + self.size),
    {
        self.start.saturating_add(self.size as u64)
    }
}

/// The identity of an item, stable across reorders of the data set.
pub type ItemKey = u64;

/// A rendered item together with its key.
#[derive(Clone, Copy, Debug, PartialEq, Eq, Structural)]
pub struct VirtualItemKeyed {
    pub key: ItemKey,
    pub index: usize,
    /// Start offset in the scroll axis (includes `scroll_margin` and `padding_start`).
    pub start: u64,
    /// Size in the scroll axis (excludes `gap`).
    pub size: u32,
}

impl VirtualItemKeyed {
    pub fn end(&self) -> (r: u64)
        ensures
            r == sat(self.start + self.size),
    {
        self.start.saturating_add(self.size as u64)
    }
}

/// What a range-selection policy is given: the visible range (no overscan), the overscan
/// and the item count.
#[derive(Clone, Copy, Debug, PartialEq, Eq, Structural)]
pub struct Range {
    pub start_index: usize,
    pub end_index: usize,
    pub overscan: usize,
    pub count: usize,
}

/// A snapshot of the viewport geometry.
#[derive(Clone, Copy, Debug, Default, PartialEq, Eq, Structural)]
pub struct ViewportState {
    pub rect: Rect,
}

/// A snapshot of the scroll state.
#[derive(Clone, Copy, Debug, Default, PartialEq, Eq, Structural)]
pub struct ScrollState {
    pub offset: u64,
    pub is_scrolling: bool,
}

/// A combined snapshot of viewport and scroll state.
#[derive(Clone, Copy, Debug, Default, PartialEq, Eq, Structural)]
pub struct FrameState {
    pub viewport: ViewportState,
    pub scroll: ScrollState,
}

} // verus!
