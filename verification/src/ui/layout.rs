//! Where popups sit: each popup takes its measured height (or a fallback)
//! followed by a fixed gap, from the top of the stack down.

use vstd::prelude::*;

use super::State;

verus! {

/// Vertical gap between stacked notifications.
pub const STACK_GAP: i32 = 10;

/// Height used for a popup that has not been measured yet.
pub const FALLBACK_HEIGHT: i32 = 90;

/// The height a popup takes in the stack: its measured height, or
/// `FALLBACK_HEIGHT` while it has none.
pub open spec fn effective_height(measured: i32) -> int {
    if measured > 0 {
        measured as int
    } else {
        FALLBACK_HEIGHT as int
    }
}

/// The vertical extent of a stack of popups with the given measured heights,
/// each followed by `STACK_GAP`.
pub open spec fn stack_extent(heights: Seq<i32>) -> int
    decreases heights.len(),
{
    if heights.len() == 0 {
        0
    } else {
        stack_extent(heights.drop_last()) + effective_height(heights.last()) + STACK_GAP
    }
}

/// Extent of two stacks one above the other.
pub(crate) proof fn lemma_extent_concat(a: Seq<i32>, b: Seq<i32>)
    ensures
        stack_extent(a + b) == stack_extent(a) + stack_extent(b),
    decreases b.len(),
{
    if b.len() == 0 {
        assert(a + b =~= a);
    } else {
        lemma_extent_concat(a, b.drop_last());
        assert((a + b).drop_last() =~= a + b.drop_last());
    }
}

pub(crate) proof fn lemma_extent_nonneg(s: Seq<i32>)
    ensures
        stack_extent(s) >= 0,
    decreases s.len(),
{
    if s.len() > 0 {
        lemma_extent_nonneg(s.drop_last());
    }
}

/// A prefix of a stack is no taller than the stack.
pub(crate) proof fn lemma_extent_prefix(s: Seq<i32>, i: int)
    requires
        0 <= i <= s.len(),
    ensures
        0 <= stack_extent(s.take(i)) <= stack_extent(s),
{
    lemma_extent_concat(s.take(i), s.skip(i));
    assert(s.take(i) + s.skip(i) =~= s);
    lemma_extent_nonneg(s.take(i));
    lemma_extent_nonneg(s.skip(i));
}

/// The prefix of length `i + 1` extends the prefix of length `i` by one popup.
pub(crate) proof fn lemma_extent_step(s: Seq<i32>, i: int)
    requires
        0 <= i < s.len(),
    ensures
        stack_extent(s.take(i + 1)) == stack_extent(s.take(i)) + effective_height(s[i]) + STACK_GAP,
{
    assert(s.take(i + 1).drop_last() =~= s.take(i));
}

/// Removing a popup shortens the stack by its height and gap.
pub(crate) proof fn lemma_extent_remove(s: Seq<i32>, k: int)
    requires
        0 <= k < s.len(),
    ensures
        stack_extent(s.remove(k)) + effective_height(s[k]) + STACK_GAP == stack_extent(s),
        stack_extent(s.remove(k)) >= 0,
{
    let a = s.take(k);
    let b = s.skip(k + 1);
    lemma_extent_concat(a, b);
    lemma_extent_concat(a.push(s[k]), b);
    assert(s.remove(k) =~= a + b);
    assert(s =~= a.push(s[k]) + b);
    assert(a.push(s[k]).drop_last() =~= a);
    lemma_extent_nonneg(s.remove(k));
}

/// Popups are laid out from the top of the stack down without overlapping:
/// the first starts at offset 0 and each starts `STACK_GAP` pixels below the
/// end of the one above it; a new popup goes below all of them.
pub proof fn law_stack_layout(heights: Seq<i32>, i: int, next: i32)
    requires
        0 <= i < heights.len(),
    ensures
        stack_extent(heights.take(0)) == 0,
        effective_height(heights[i]) > 0,
        stack_extent(heights.take(i + 1)) == stack_extent(heights.take(i)) + effective_height(
            heights[i],
        ) + STACK_GAP,
        stack_extent(heights.take(i)) + effective_height(heights[i]) < stack_extent(
            heights.take(i + 1),
        ),
        stack_extent(heights.push(next).take(heights.len() as int)) == stack_extent(heights),
{
    lemma_extent_step(heights, i);
    assert(heights.take(0) =~= Seq::<i32>::empty());
    assert(heights.push(next).take(heights.len() as int) =~= heights);
}

impl State {
    /// The height a popup with measured height `measured` takes in the stack.
    pub fn height_for_window(measured: i32) -> (h: i32)
        ensures
            h == effective_height(measured),
    {
        if measured > 0 {
            measured
        } else {
            FALLBACK_HEIGHT
        }
    }

    /// The offset below the last popup of a stack with the given measured
    /// heights: where the next popup goes.
    pub fn next_top_offset(heights: &Vec<i32>) -> (offset: i32)
        requires
            stack_extent(heights@) <= i32::MAX,
        ensures
            offset == stack_extent(heights@),
    {
        let mut offset: i32 = 0;
        let mut i: usize = 0;
        while i < heights.len()
            invariant
                i <= heights@.len(),
                offset == stack_extent(heights@.take(i as int)),
                stack_extent(heights@) <= i32::MAX,
            decreases heights.len() - i,
        {
            proof {
                lemma_extent_step(heights@, i as int);
                lemma_extent_prefix(heights@, i + 1);
                lemma_extent_prefix(heights@, i as int);
            }
            let h = Self::height_for_window(heights[i]);
            offset = offset + h + STACK_GAP;
            i = i + 1;
        }
        assert(heights@.take(i as int) =~= heights@);
        offset
    }

    /// Whether a stack with the given measured heights fits in `i32`, the
    /// condition under which its offsets can be computed.
    pub fn stack_fits(heights: &Vec<i32>) -> (fits: bool)
        ensures
            fits == (stack_extent(heights@) <= i32::MAX),
    {
        let mut total: u64 = 0;
        let mut i: usize = 0;
        while i < heights.len()
            invariant
                i <= heights@.len(),
                total == stack_extent(heights@.take(i as int)),
                total <= i32::MAX,
            decreases heights.len() - i,
        {
            proof {
                lemma_extent_step(heights@, i as int);
                lemma_extent_prefix(heights@, i as int);
            }
            let h = Self::height_for_window(heights[i]);
            total = total + h as u64 + STACK_GAP as u64;
            i = i + 1;
            if total > i32::MAX as u64 {
                proof {
                    lemma_extent_prefix(heights@, i as int);
                }
                return false;
            }
        }
        assert(heights@.take(i as int) =~= heights@);
        true
    }

    /// The top offsets of the popups of a stack with the given measured
    /// heights: each popup sits below the ones above it, `STACK_GAP` apart.
    pub fn restack_offsets(heights: &Vec<i32>) -> (offsets: Vec<i32>)
        requires
            stack_extent(heights@) <= i32::MAX,
        ensures
            offsets@.len() == heights@.len(),
            forall|i: int|
                0 <= i < heights@.len() ==> #[trigger] offsets@[i] == stack_extent(
                    heights@.take(i),
                ),
    {
        let mut offsets: Vec<i32> = Vec::new();
        let mut offset: i32 = 0;
        let mut i: usize = 0;
        while i < heights.len()
            invariant
                i <= heights@.len(),
                offsets@.len() == i,
                offset == stack_extent(heights@.take(i as int)),
                stack_extent(heights@) <= i32::MAX,
                forall|j: int| 0 <= j < i ==> #[trigger] offsets@[j] == stack_extent(heights@.take(j)),
            decreases heights.len() - i,
        {
            proof {
                lemma_extent_step(heights@, i as int);
                lemma_extent_prefix(heights@, i + 1);
                lemma_extent_prefix(heights@, i as int);
            }
            offsets.push(offset);
            let h = Self::height_for_window(heights[i]);
            offset = offset + h + STACK_GAP;
            i = i + 1;
        }
        offsets
    }
}

} // verus!
