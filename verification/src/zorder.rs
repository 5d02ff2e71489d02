//! The shared stacking-index allocator for overlay surfaces.
//!
//! One monotonically increasing counter hands out stacking indices; it resets
//! to 1 when it would pass its ceiling, so wraparound correctness is
//! best-effort while the everyday guarantee is strict: among overlays opened
//! while the counter has not wrapped, assignment order equals open order.

use vstd::prelude::*;

verus! {

/// Largest stacking index the allocator hands out.
pub const Z_CEILING: i32 = 1_000_000;

/// An overlay whose animation progress has decayed to this fixed-point level
/// or below releases its index.
pub const Z_RELEASE_EPSILON: i64 = 10_000;

pub struct UiZIndexAllocator {
    pub next_z_index: i32,
}

impl UiZIndexAllocator {
    pub open spec fn wf(self) -> bool {
        1 <= self.next_z_index <= Z_CEILING
    }

    /// The index the next call of `next` hands out.
    pub open spec fn upcoming(self) -> int {
        self.next_z_index as int
    }

    /// The allocator after one assignment.
    pub open spec fn next_spec(self) -> UiZIndexAllocator {
        UiZIndexAllocator {
            next_z_index: if self.next_z_index + 1 > Z_CEILING {
                1
            } else {
                (self.next_z_index + 1) as i32
            },
        }
    }

    /// Hands out the current index and advances the counter, resetting it to
    /// 1 past the ceiling.
    pub fn next(&mut self) -> (r: i32)
        requires
            old(self).wf(),
        ensures
            r == old(self).upcoming(),
            *final(self) == old(self).next_spec(),
            final(self).wf(),
    {
        let result = self.next_z_index;
        if self.next_z_index + 1 > Z_CEILING {
            self.next_z_index = 1;
        } else {
            self.next_z_index = self.next_z_index + 1;
        }
        result
    }
}

impl Default for UiZIndexAllocator {
    /// A fresh allocator starts at index 1.
    fn default() -> (r: UiZIndexAllocator)
        ensures
            r.upcoming() == 1,
            r.wf(),
    {
        UiZIndexAllocator { next_z_index: 1 }
    }
}

/// What the per-overlay stacking pass leaves in the overlay's index slot:
/// a fresh index the first tick its animation progress turns positive while
/// unassigned, zero once the progress has decayed, its old index otherwise.
pub open spec fn overlay_z_spec(z: UiZIndexAllocator, index: int, progress: int) -> (int, UiZIndexAllocator) {
    if progress > 0 && index == 0 {
        (z.upcoming(), z.next_spec())
    } else if progress <= Z_RELEASE_EPSILON && index > 0 {
        (0, z)
    } else {
        (index, z)
    }
}

/// Runs the stacking pass for one overlay surface.
pub fn overlay_z_pass(alloc: &mut UiZIndexAllocator, index: i32, progress: i64) -> (r: i32)
    requires
        old(alloc).wf(),
        index >= 0,
    ensures
        (r as int, *final(alloc)) == overlay_z_spec(*old(alloc), index as int, progress as int),
        final(alloc).wf(),
        r >= 0,
{
    if progress > 0 && index == 0 {
        alloc.next()
    } else if progress <= Z_RELEASE_EPSILON && index > 0 {
        0
    } else {
        index
    }
}

/// Stacking order equals open order: while the counter has not reached its
/// ceiling, each assignment is strictly greater than the one before, so an
/// overlay opened later stacks above one opened earlier, and an overlay
/// closed and reopened stacks above everything still open.
pub proof fn lemma_z_order_monotone(z: UiZIndexAllocator)
    requires
        z.wf(),
        z.upcoming() + 1 <= Z_CEILING,
    ensures
        z.next_spec().upcoming() > z.upcoming(),
        z.next_spec().wf(),
{
}

} // verus!
