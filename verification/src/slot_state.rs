//! Per-slot shared state for regions whose widgets own their state record.
//!
//! Some regions hand each widget its own small state record instead of
//! keeping one flag array; the record carries the slot's selected flag and
//! the widgets of one region share a growable list of them.  Folding a
//! frame's click reports over that list follows the same single-selection
//! rule as the flag-array regions: every record is cleared, then only the
//! last clicked slot's record is set.  A slot index with no record is
//! skipped rather than failed.

use vstd::prelude::*;

use crate::group::Interaction;
use crate::group::last_click_index;

verus! {

/// The state one widget shares with its region: whether its slot is
/// selected.
#[derive(Clone, Copy, Debug, PartialEq, Eq, Structural)]
pub struct SlotState {
    pub selected: bool,
}

/// Exactly the record at `index` carries the selected flag.
pub open spec fn states_one_hot(states: Seq<SlotState>, index: int) -> bool {
    &&& 0 <= index < states.len()
    &&& forall|j: int| 0 <= j < states.len() ==> (states[j].selected <==> j == index)
}

/// The record list in which only `index` is selected.
pub open spec fn select_only_states(len: nat, index: int) -> Seq<SlotState> {
    Seq::new(len, |j: int| SlotState { selected: j == index })
}

/// The record list after folding one frame's interactions: unchanged
/// without a click, otherwise exactly the last clicked slot is selected.
pub open spec fn states_frame_select(states: Seq<SlotState>, interactions: Seq<Interaction>) -> Seq<
    SlotState,
> {
    if last_click_index(interactions) >= 0 {
        select_only_states(states.len(), last_click_index(interactions))
    } else {
        states
    }
}

/// How many slots of a frame's report can reach a record: interactions
/// beyond the end of the record list are skipped.
pub open spec fn folded_prefix_len(interactions: Seq<Interaction>, states: Seq<SlotState>) -> int {
    if interactions.len() <= states.len() {
        interactions.len() as int
    } else {
        states.len() as int
    }
}

/// Clears every record, then sets only the one at `index`.
fn set_only_state(states: &mut Vec<SlotState>, index: usize)
    requires
        index < old(states)@.len(),
    ensures
        final(states)@ == select_only_states(old(states)@.len(), index as int),
{
    let count: usize = states.len();
    let mut j: usize = 0;
    while j < count
        invariant
            count == old(states)@.len(),
            index < count,
            j <= count,
            states@.len() == count,
            forall|k: int| 0 <= k < j ==> states@[k] == (SlotState { selected: k == index as int }),
            forall|k: int| j <= k < count ==> states@[k] == old(states)@[k],
        decreases count - j,
    {
        states.set(j, SlotState { selected: j == index });
        j = j + 1;
    }
    proof {
        assert(states@ =~= select_only_states(old(states)@.len(), index as int));
    }
}

/// Folds one frame's click reports into the record list: the selection
/// becomes exactly the last clicked slot that has a record, or stays as it
/// was when none was clicked.  Reports without a record are skipped.
pub fn fold_click_states(states: &mut Vec<SlotState>, interactions: &Vec<Interaction>)
    ensures
        final(states)@.len() == old(states)@.len(),
        final(states)@ == states_frame_select(
            old(states)@,
            interactions@.take(folded_prefix_len(interactions@, old(states)@)),
        ),
{
    let n: usize = interactions.len();
    let limit: usize = if states.len() < n {
        states.len()
    } else {
        n
    };
    let mut i: usize = 0;
    while i < n
        invariant
            n == interactions@.len(),
            i <= n,
            states@.len() == old(states)@.len(),
            limit == folded_prefix_len(interactions@, old(states)@),
            limit <= n,
            limit <= states@.len(),
            states@ == states_frame_select(
                old(states)@,
                interactions@.take(if i <= limit { i as int } else { limit as int }),
            ),
        decreases n - i,
    {
        if i < states.len() {
            proof {
                crate::group::lemma_last_click_take_step(interactions@, i as int);
                crate::group::lemma_last_click_bounds(interactions@.take(i as int));
            }
            if interactions[i].clicked {
                set_only_state(states, i);
            }
        }
        i = i + 1;
    }
}

} // verus!
