//! Numbered slots that store band-weight presets.
//!
//! The control surface fills a slot with the current weights and recalls it
//! later; recalling a slot that was never filled, or an index outside the
//! slot range, yields the default weights.  Reading and writing the slots
//! file on disk is the surrounding shell's business.

use vstd::prelude::*;

use crate::SEGMENTS_WEIGHT_MAX;
use crate::WEIGHTS_NUM;
use crate::Weights;

verus! {

/// How many preset slots exist.
pub const SLOTS_NUM: usize = 10;

/// A bank of [`SLOTS_NUM`] stored weight presets.
#[derive(Debug)]
pub struct Slots {
    slots: Vec<Weights>,
}

impl Slots {
    /// The stored presets, one weight sequence per slot.
    pub closed spec fn view_slots(&self) -> Seq<Seq<u32>> {
        self.slots@.map_values(|w: Weights| w@)
    }

    /// A bank always holds exactly [`SLOTS_NUM`] presets.
    pub closed spec fn wf(&self) -> bool {
        self.slots@.len() == SLOTS_NUM
    }

    /// Stores `weights` in slot `idx`; an index outside the slot range
    /// changes nothing.
    pub fn save_slot(&mut self, idx: usize, weights: Weights)
        requires
            old(self).wf(),
        ensures
            final(self).wf(),
            idx < SLOTS_NUM ==> final(self).view_slots() == old(self).view_slots().update(
                idx as int,
                weights@,
            ),
            idx >= SLOTS_NUM ==> final(self).view_slots() == old(self).view_slots(),
    {
        if idx < self.slots.len() {
            self.slots.set(idx, weights);
            proof {
                assert(self.view_slots() =~= old(self).view_slots().update(idx as int, weights@));
            }
        } else {
            proof {
                assert(self.view_slots() =~= old(self).view_slots());
            }
        }
    }

    /// Recalls the weights of slot `idx`; an index outside the slot range
    /// yields the default weights.
    pub fn recall_slot(&self, idx: usize) -> (r: Weights)
        requires
            self.wf(),
        ensures
            idx < SLOTS_NUM ==> r@ == self.view_slots()[idx as int],
            idx >= SLOTS_NUM ==> (r@.len() == WEIGHTS_NUM && forall|i: int|
                0 <= i < WEIGHTS_NUM ==> r@[i] == SEGMENTS_WEIGHT_MAX),
    {
        if idx < self.slots.len() {
            self.slots[idx].clone()
        } else {
            Weights::default()
        }
    }
}

impl Default for Slots {
    /// A fresh bank holds the default weights in every slot.
    fn default() -> (r: Slots)
        ensures
            r.wf(),
            forall|s: int|
                0 <= s < SLOTS_NUM ==> {
                    &&& #[trigger] r.view_slots()[s].len() == WEIGHTS_NUM
                    &&& forall|i: int|
                        0 <= i < WEIGHTS_NUM ==> r.view_slots()[s][i] == SEGMENTS_WEIGHT_MAX
                },
    {
        let mut slots: Vec<Weights> = Vec::new();
        let mut s: usize = 0;
        while s < SLOTS_NUM
            invariant
                s <= SLOTS_NUM,
                slots@.len() == s,
                forall|j: int|
                    0 <= j < s ==> {
                        &&& #[trigger] slots@[j]@.len() == WEIGHTS_NUM
                        &&& forall|i: int|
                            0 <= i < WEIGHTS_NUM ==> slots@[j]@[i] == SEGMENTS_WEIGHT_MAX
                    },
            decreases SLOTS_NUM - s,
        {
            slots.push(Weights::default());
            s = s + 1;
        }
        Slots { slots }
    }
}

} // verus!
