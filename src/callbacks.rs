//! Callbacks supplied by the host: each holds a shared closure and is opaque to proofs.
//! Nothing is assumed of what a closure returns.
use vstd::prelude::*;
use std::sync::Arc;
use crate::engine::Virtualizer;
use crate::types::{ItemKey, Range, VirtualItem};

verus! {

/// Size estimate for an index, used for items that have no measurement.
#[verifier::external_body]
pub struct SizeEstimate {
    f: Arc<dyn Fn(usize) -> u32 + Send + Sync>,
}

impl SizeEstimate {
    /// Relies on `Arc::new` to share the closure.
    #[verifier::external_body]
    pub fn new(f: impl Fn(usize) -> u32 + Send + Sync + 'static) -> Self {
        SizeEstimate { f: Arc::new(f) }
    }

    /// Relies on the host's closure to give an estimate for `index`.
    #[verifier::external_body]
    pub fn call(&self, index: usize) -> u32 {
        (self.f)(index)
    }

    /// Relies on `Arc::ptr_eq`: whether both hold the same closure.
    #[verifier::external_body]
    pub fn same(&self, other: &SizeEstimate) -> bool {
        Arc::ptr_eq(&self.f, &other.f)
    }
}

impl Clone for SizeEstimate {
    /// Relies on `Arc::clone`: the copy points to the same closure, so it is the same value.
    #[verifier::external_body]
    fn clone(&self) -> (r: Self)
        ensures
            r == *self,
    {
        SizeEstimate { f: Arc::clone(&self.f) }
    }
}

/// Key of the item at an index.
#[verifier::external_body]
pub struct KeyFn {
    f: Arc<dyn Fn(usize) -> ItemKey + Send + Sync>,
}

impl KeyFn {
    /// Relies on `Arc::new` to share the closure.
    #[verifier::external_body]
    pub fn new(f: impl Fn(usize) -> ItemKey + Send + Sync + 'static) -> Self {
        KeyFn { f: Arc::new(f) }
    }

    /// Relies on the host's closure to give the key of `index`.
    #[verifier::external_body]
    pub fn call(&self, index: usize) -> ItemKey {
        (self.f)(index)
    }

    /// Relies on `Arc::ptr_eq`: whether both hold the same closure.
    #[verifier::external_body]
    pub fn same(&self, other: &KeyFn) -> bool {
        Arc::ptr_eq(&self.f, &other.f)
    }
}

impl Clone for KeyFn {
    /// Relies on `Arc::clone`: the copy points to the same closure, so it is the same value.
    #[verifier::external_body]
    fn clone(&self) -> (r: Self)
        ensures
            r == *self,
    {
        KeyFn { f: Arc::clone(&self.f) }
    }
}

/// Provider of the initial scroll offset, called when the engine starts or is enabled.
#[verifier::external_body]
pub struct OffsetProvider {
    f: Arc<dyn Fn() -> u64 + Send + Sync>,
}

impl OffsetProvider {
    /// Relies on `Arc::new` to share the closure.
    #[verifier::external_body]
    pub fn new(f: impl Fn() -> u64 + Send + Sync + 'static) -> Self {
        OffsetProvider { f: Arc::new(f) }
    }

    /// Relies on the host's closure to give an offset.
    #[verifier::external_body]
    pub fn call(&self) -> u64 {
        (self.f)()
    }
}

impl Clone for OffsetProvider {
    /// Relies on `Arc::clone`: the copy points to the same closure, so it is the same value.
    #[verifier::external_body]
    fn clone(&self) -> (r: Self)
        ensures
            r == *self,
    {
        OffsetProvider { f: Arc::clone(&self.f) }
    }
}

/// Change notification: receives the engine and whether a scroll is in progress.
#[verifier::external_body]
pub struct OnChangeCallback {
    f: Arc<dyn Fn(&Virtualizer, bool) + Send + Sync>,
}

impl OnChangeCallback {
    /// Relies on `Arc::new` to share the closure.
    #[verifier::external_body]
    pub fn new(f: impl Fn(&Virtualizer, bool) + Send + Sync + 'static) -> Self {
        OnChangeCallback { f: Arc::new(f) }
    }

    /// Relies on the host's closure; it sees the engine read-only.
    #[verifier::external_body]
    pub fn call(&self, v: &Virtualizer, is_scrolling: bool) {
        (self.f)(v, is_scrolling)
    }
}

impl Clone for OnChangeCallback {
    /// Relies on `Arc::clone`: the copy points to the same closure, so it is the same value.
    #[verifier::external_body]
    fn clone(&self) -> (r: Self)
        ensures
            r == *self,
    {
        OnChangeCallback { f: Arc::clone(&self.f) }
    }
}

/// Policy deciding whether a resize of an item moves the scroll offset by the size change.
#[verifier::external_body]
pub struct AdjustScrollCallback {
    f: Arc<dyn Fn(&Virtualizer, VirtualItem, i64) -> bool + Send + Sync>,
}

impl AdjustScrollCallback {
    /// Relies on `Arc::new` to share the closure.
    #[verifier::external_body]
    pub fn new(f: impl Fn(&Virtualizer, VirtualItem, i64) -> bool + Send + Sync + 'static) -> Self {
        AdjustScrollCallback { f: Arc::new(f) }
    }

    /// Relies on the host's closure to decide, from the engine, the item before the
    /// resize and the signed size change.
    #[verifier::external_body]
    pub fn call(&self, v: &Virtualizer, item: VirtualItem, delta: i64) -> bool {
        (self.f)(v, item, delta)
    }
}

impl Clone for AdjustScrollCallback {
    /// Relies on `Arc::clone`: the copy points to the same closure, so it is the same value.
    #[verifier::external_body]
    fn clone(&self) -> (r: Self)
        ensures
            r == *self,
    {
        AdjustScrollCallback { f: Arc::clone(&self.f) }
    }
}

/// Range-selection policy: the indexes to render for a range, meant in ascending order.
#[verifier::external_body]
pub struct RangeExtractor {
    f: Arc<dyn Fn(Range) -> Vec<usize> + Send + Sync>,
}

impl RangeExtractor {
    /// Relies on `Arc::new` to share the closure.
    #[verifier::external_body]
    pub fn new(f: impl Fn(Range) -> Vec<usize> + Send + Sync + 'static) -> Self {
        RangeExtractor { f: Arc::new(f) }
    }

    /// Relies on the host's closure to choose indexes for `range`.
    #[verifier::external_body]
    pub fn call(&self, range: Range) -> Vec<usize> {
        (self.f)(range)
    }
}

impl Clone for RangeExtractor {
    /// Relies on `Arc::clone`: the copy points to the same closure, so it is the same value.
    #[verifier::external_body]
    fn clone(&self) -> (r: Self)
        ensures
            r == *self,
    {
        RangeExtractor { f: Arc::clone(&self.f) }
    }
}

} // verus!
