//! Scroll anchoring: remember an item by key and its distance from the viewport start,
//! then restore that distance after the data set changed.
use vstd::prelude::*;
use crate::engine::{Virtualizer, VirtualizerModel};
use crate::laws::lemma_visible_within_virtual;
use crate::sums::lemma_sum_eff_nonneg;
use crate::types::ItemKey;

verus! {

/// An item's key and how far the viewport start lies past the item's start.
#[derive(Clone, Copy, Debug, PartialEq, Eq, Structural)]
pub struct ScrollAnchor {
    pub key: ItemKey,
    pub offset_in_viewport: u64,
}

/// The anchor that `capture_first_visible_anchor` takes on a state `m`.
pub open spec fn first_visible_anchor(m: VirtualizerModel) -> Option<ScrollAnchor> {
    let (s, e) = m.visible_for(m.scroll_offset as int, m.viewport_size as int);
    if s >= e {
        None
    } else {
        let start = m.item_start(s);
        Some(ScrollAnchor {
            key: m.keys[s],
            offset_in_viewport: (if m.scroll_offset > start { m.scroll_offset - start } else { 0 }) as u64,
        })
    }
}

/// Anchors to the first visible item; `None` when nothing is visible.
pub fn capture_first_visible_anchor(v: &Virtualizer) -> (r: Option<ScrollAnchor>)
    requires
        v.wf(),
    ensures
        r == first_visible_anchor(v@),
{
    let visible = v.visible_range();
    if visible.start_index >= visible.end_index {
        return None;
    }
    let index = visible.start_index;
    proof {
        lemma_visible_within_virtual(v@, v@.scroll_offset as int, v@.viewport_size as int);
        lemma_sum_eff_nonneg(v@.sizes, v@.options.gap, index as int);
    }
    let start = match v.item_start(index) {
        Some(s) => s,
        None => {
            return None;
        },
    };
    let key = v.key_for(index);
    let offset_in_viewport = v.scroll_offset().saturating_sub(start);
    Some(ScrollAnchor { key, offset_in_viewport })
}

/// What applying `anchor` at `index` does to a state `a`, giving `b` and the result `r`:
/// it succeeds exactly for an index of an enabled list, and then scrolls (clamped) so that
/// the viewport start lies `offset_in_viewport` past that item's start; otherwise nothing
/// changes.
pub open spec fn anchor_applied(a: VirtualizerModel, b: VirtualizerModel, anchor: ScrollAnchor, index: Option<usize>, r: bool) -> bool {
    &&& r == (index is Some && a.options.enabled && index->Some_0 < a.count())
    &&& r ==> {
        let t = crate::types::sat(a.item_start(index->Some_0 as int) + anchor.offset_in_viewport);
        &&& a.clamp_of(t, b.scroll_offset as int)
        &&& a.scrolled_to(b, b.scroll_offset as int)
    }
    &&& !r ==> b == a
}

/// Applies `anchor` with the item found again at `index`.
pub fn apply_anchor_at(v: &mut Virtualizer, anchor: &ScrollAnchor, index: Option<usize>) -> (r: bool)
    requires
        old(v).wf(),
    ensures
        final(v).wf(),
        anchor_applied(old(v)@, final(v)@, *anchor, index, r),
{
    let index = match index {
        Some(i) => i,
        None => {
            return false;
        },
    };
    let start = match v.item_start(index) {
        Some(s) => s,
        None => {
            return false;
        },
    };
    let target = start.saturating_add(anchor.offset_in_viewport);
    let ghost before = v@;
    proof {
        lemma_sum_eff_nonneg(before.sizes, before.options.gap, index as int);
        assert(before.item_start(index as int) == start);
    }
    v.set_scroll_offset_clamped(target);
    proof {
        let c = choose|c: u64| #[trigger] before.clamp_of(target as int, c as int) && before.scrolled_to(v@, c as int);
        if before.scroll_offset != c {
            assert(v@.scroll_offset == c);
        }
    }
    true
}

/// Scrolls so that the anchored item, found again through `key_to_index`, sits at the same
/// distance from the viewport start as when captured (clamped to the scrollable range).
/// Returns whether the key was found at an index of the list.
pub fn apply_anchor(
    v: &mut Virtualizer,
    anchor: &ScrollAnchor,
    mut key_to_index: impl FnMut(&ItemKey) -> Option<usize>,
) -> (r: bool)
    requires
        old(v).wf(),
        forall|k: &ItemKey| #[trigger] key_to_index.requires((k,)),
    ensures
        final(v).wf(),
        exists|index: Option<usize>| #[trigger] anchor_applied(old(v)@, final(v)@, *anchor, index, r),
{
    let index = key_to_index(&anchor.key);
    apply_anchor_at(v, anchor, index)
}

/// Anchors to the item under `offset_in_viewport` past the viewport start: its key, and how
/// far the viewport start lies past the item's start.
pub fn capture_anchor_at_offset_in_viewport(v: &Virtualizer, offset_in_viewport: u64) -> (r: Option<ScrollAnchor>)
    requires
        v.wf(),
    ensures
        !(v@.options.enabled && v@.count() > 0) ==> r is None,
        v@.options.enabled && v@.count() > 0 ==> {
            let i = v@.index_at(crate::types::sat(v@.scroll_offset + offset_in_viewport));
            let start = v@.item_start(i);
            r == Some(ScrollAnchor {
                key: v@.keys[i],
                offset_in_viewport: (if v@.scroll_offset > start { v@.scroll_offset - start } else { 0 }) as u64,
            })
        },
{
    let abs = v.scroll_offset().saturating_add(offset_in_viewport);
    let item = match v.virtual_item_keyed_for_offset(abs) {
        Some(it) => it,
        None => {
            return None;
        },
    };
    proof {
        let i = v@.index_at(abs as int);
        lemma_sum_eff_nonneg(v@.sizes, v@.options.gap, i);
    }
    let offset_in_viewport = v.scroll_offset().saturating_sub(item.start);
    Some(ScrollAnchor { key: item.key, offset_in_viewport })
}

} // verus!
