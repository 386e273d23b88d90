//! Timing of a scroll animation. The eased position itself is computed by the host in
//! floating point; the library keeps the timing in integers.
use vstd::prelude::*;
use crate::engine::Virtualizer;

verus! {

/// Easing curve of a scroll animation.
#[derive(Clone, Copy, Debug, PartialEq, Eq, Structural)]
pub enum Easing {
    Linear,
    SmoothStep,
    EaseInOutCubic,
}

/// An animation of the scroll offset from `from` to `to`, starting at `start_ms` and
/// lasting `duration_ms` (at least one millisecond).
#[derive(Clone, Copy, Debug, PartialEq, Eq, Structural)]
pub struct Tween {
    pub from: u64,
    pub to: u64,
    pub start_ms: u64,
    pub duration_ms: u64,
    pub easing: Easing,
}

impl Tween {
    pub fn new(from: u64, to: u64, start_ms: u64, duration_ms: u64, easing: Easing) -> (r: Tween)
        ensures
            r == (Tween {
                from,
                to,
                start_ms,
                duration_ms: if duration_ms > 1 { duration_ms } else { 1 },
                easing,
            }),
    {
        Tween { from, to, start_ms, duration_ms: if duration_ms > 1 { duration_ms } else { 1 }, easing }
    }

    /// Whether the animation has run its full duration at `now_ms`.
    pub fn is_done(&self, now_ms: u64) -> (r: bool)
        ensures
            r == ((if now_ms > self.start_ms { now_ms - self.start_ms } else { 0 }) >= self.duration_ms),
    {
        now_ms.saturating_sub(self.start_ms) >= self.duration_ms
    }
}

/// One step of an animation at `now_ms`, with `sampled` the eased offset the host computed:
/// applies it as a clamped scroll event, and ends scrolling once the animation is done.
/// Returns whether it is done.
pub fn advance_tween(v: &mut Virtualizer, tween: &Tween, sampled: u64, now_ms: u64) -> (done: bool)
    requires
        old(v).wf(),
    ensures
        final(v).wf(),
        done == ((if now_ms > tween.start_ms { now_ms - tween.start_ms } else { 0 }) >= tween.duration_ms),
        old(v)@.options.enabled ==> final(v)@.scroll_offset == (if sampled < old(v)@.max_scroll() {
            sampled as int
        } else {
            old(v)@.max_scroll()
        }),
        old(v)@.options.enabled ==> final(v)@.is_scrolling == !done,
        final(v)@.options == old(v)@.options,
        final(v)@.sizes == old(v)@.sizes,
{
    v.apply_scroll_offset_event_clamped(sampled, now_ms);
    if tween.is_done(now_ms) {
        v.set_is_scrolling(false);
        true
    } else {
        false
    }
}

} // verus!
