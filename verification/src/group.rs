//! Mutable state of one slot group and its per-frame folding.
//!
//! A group keeps one selected flag and one hovered flag per slot, plus a
//! running render-time benchmark.  Once per rendered frame the host reports,
//! for every slot, whether the widget was clicked and whether the pointer
//! was over it; folding that report clears and re-sets the selection (at
//! most one slot stays selected, the last clicked one wins) and overwrites
//! the hover flags.  The benchmark accumulates the elapsed time of each
//! frame's layout-and-draw pass.

use vstd::prelude::*;

verus! {

/// What the host observed for one slot in one frame.
#[derive(Clone, Copy, Debug, PartialEq, Eq, Structural)]
pub struct Interaction {
    pub clicked: bool,
    pub hovered: bool,
}

/// Running statistics over per-frame elapsed render time, in microseconds.
#[derive(Clone, Copy, Debug, PartialEq, Eq, Structural)]
pub struct Benchmark {
    pub count: u64,
    pub sum: u64,
    pub average: u64,
}

/// No slot carries the flag.
pub open spec fn all_false(s: Seq<bool>) -> bool {
    forall|j: int| 0 <= j < s.len() ==> !s[j]
}

/// Exactly the slot at `index` carries the flag.
pub open spec fn is_one_hot(s: Seq<bool>, index: int) -> bool {
    &&& 0 <= index < s.len()
    &&& forall|j: int| 0 <= j < s.len() ==> (s[j] <==> j == index)
}

/// The flag sequence in which only `index` is set.
pub open spec fn select_only(len: nat, index: int) -> Seq<bool> {
    Seq::new(len, |j: int| j == index)
}

/// Index of the last slot whose interaction reports a click, or -1 when no
/// slot was clicked.  The last click wins the frame's selection.
pub open spec fn last_click_index(interactions: Seq<Interaction>) -> int
    decreases interactions.len(),
{
    if interactions.len() == 0 {
        -1
    } else if interactions.last().clicked {
        interactions.len() - 1
    } else {
        last_click_index(interactions.drop_last())
    }
}

/// The selection after folding one frame's interactions: unchanged without
/// a click, otherwise exactly the last clicked slot.
pub open spec fn frame_select(sel: Seq<bool>, interactions: Seq<Interaction>) -> Seq<bool> {
    if last_click_index(interactions) >= 0 {
        select_only(sel.len(), last_click_index(interactions))
    } else {
        sel
    }
}

/// The hover flags after one frame: a plain copy of the frame's hit-test
/// results, never sticky.
pub open spec fn hover_flags(interactions: Seq<Interaction>) -> Seq<bool> {
    Seq::new(interactions.len(), |j: int| interactions[j].hovered)
}

/// A benchmark that has not seen any frame yet.
pub open spec fn bench_zero() -> Benchmark {
    Benchmark { count: 0, sum: 0, average: 0 }
}

/// Addition that stops at the largest representable value instead of
/// wrapping.
pub open spec fn sat_add(a: u64, b: u64) -> u64 {
    if a + b <= u64::MAX {
        (a + b) as u64
    } else {
        u64::MAX
    }
}

/// One frame's benchmark update: the frame counter grows by one, the sum by
/// the frame's elapsed microseconds, and the average is their quotient.
pub open spec fn bench_step(b: Benchmark, elapsed_micros: u64) -> Benchmark {
    Benchmark {
        count: sat_add(b.count, 1),
        sum: sat_add(b.sum, elapsed_micros),
        average: sat_add(b.sum, elapsed_micros) / sat_add(b.count, 1),
    }
}

/// The last click index stays inside the interaction list.
pub proof fn lemma_last_click_bounds(interactions: Seq<Interaction>)
    ensures
        -1 <= last_click_index(interactions) < interactions.len(),
    decreases interactions.len(),
{
    if interactions.len() > 0 && !interactions.last().clicked {
        lemma_last_click_bounds(interactions.drop_last());
    }
}

/// Extending the folded prefix by one slot either keeps the last click or
/// moves it to the new slot, depending on that slot's report.
pub(crate) proof fn lemma_last_click_take_step(interactions: Seq<Interaction>, i: int)
    requires
        0 <= i < interactions.len(),
    ensures
        last_click_index(interactions.take(i + 1)) == if interactions[i].clicked {
            i
        } else {
            last_click_index(interactions.take(i))
        },
{
    let t = interactions.take(i + 1);
    assert(t.drop_last() =~= interactions.take(i));
    assert(t.last() == interactions[i]);
}

/// State of one group of slots: per-slot selection and hover flags and the
/// group's render benchmark.
pub struct SlotGroup {
    selected: Vec<bool>,
    hovered: Vec<bool>,
    benchmark: Benchmark,
}

impl SlotGroup {
    /// Both flag arrays cover the same slots.
    pub closed spec fn wf(self) -> bool {
        self.hovered@.len() == self.selected@.len()
    }

    /// The per-slot selected flags.
    pub closed spec fn sel(self) -> Seq<bool> {
        self.selected@
    }

    /// The per-slot hovered flags.
    pub closed spec fn hov(self) -> Seq<bool> {
        self.hovered@
    }

    /// The render benchmark.
    pub closed spec fn bench(self) -> Benchmark {
        self.benchmark
    }

    /// Creates a group of `count` slots, none selected, none hovered, with
    /// a fresh benchmark.
    pub fn new(count: usize) -> (group: SlotGroup)
        ensures
            group.wf(),
            group.sel().len() == count,
            all_false(group.sel()),
            group.hov().len() == count,
            all_false(group.hov()),
            group.bench() == bench_zero(),
    {
        let mut selected: Vec<bool> = Vec::new();
        let mut hovered: Vec<bool> = Vec::new();
        let mut i: usize = 0;
        while i < count
            invariant
                i <= count,
                selected@.len() == i,
                hovered@.len() == i,
                all_false(selected@),
                all_false(hovered@),
            decreases count - i,
        {
            selected.push(false);
            hovered.push(false);
            i = i + 1;
        }
        SlotGroup { selected, hovered, benchmark: Benchmark { count: 0, sum: 0, average: 0 } }
    }

    /// Number of slots in the group.
    pub fn slot_count(&self) -> (count: usize)
        ensures
            count == self.sel().len(),
    {
        self.selected.len()
    }

    /// Whether the slot at `index` is selected.
    pub fn is_selected(&self, index: usize) -> (flag: bool)
        requires
            index < self.sel().len(),
        ensures
            flag == self.sel()[index as int],
    {
        self.selected[index]
    }

    /// Whether the pointer was over the slot at `index` in the last frame.
    pub fn is_hovered(&self, index: usize) -> (flag: bool)
        requires
            self.wf(),
            index < self.sel().len(),
        ensures
            flag == self.hov()[index as int],
    {
        self.hovered[index]
    }

    /// Marks the slot at `index` as selected, leaving the other flags as
    /// they are.  An index at or past the slot count changes nothing: this
    /// is startup configuration, where an out-of-range request is skipped
    /// rather than failed.
    pub fn set_selected(&mut self, index: usize)
        requires
            old(self).wf(),
        ensures
            final(self).wf(),
            index < old(self).sel().len() ==> final(self).sel() == old(self).sel().update(
                index as int,
                true,
            ),
            index >= old(self).sel().len() ==> final(self).sel() == old(self).sel(),
            final(self).hov() == old(self).hov(),
            final(self).bench() == old(self).bench(),
    {
        if index < self.selected.len() {
            self.selected.set(index, true);
        }
    }

    /// Folds one frame's interaction reports into the group: the selection
    /// becomes exactly the last clicked slot (or stays as it was when no
    /// slot was clicked), and the hover flags are overwritten with the
    /// frame's hit-test results.
    pub fn fold_interactions(&mut self, interactions: &Vec<Interaction>)
        requires
            old(self).wf(),
            interactions@.len() == old(self).sel().len(),
        ensures
            final(self).wf(),
            final(self).sel() == frame_select(old(self).sel(), interactions@),
            final(self).hov() == hover_flags(interactions@),
            final(self).bench() == old(self).bench(),
    {
        let count: usize = self.selected.len();
        let mut i: usize = 0;
        while i < count
            invariant
                self.wf(),
                old(self).wf(),
                count == old(self).sel().len(),
                old(self).hov().len() == count,
                interactions@.len() == count,
                i <= count,
                self.sel().len() == count,
                self.sel() == frame_select(old(self).sel(), interactions@.take(i as int)),
                forall|j: int| 0 <= j < i ==> self.hov()[j] == interactions@[j].hovered,
                forall|j: int| i <= j < count ==> self.hov()[j] == old(self).hov()[j],
                self.bench() == old(self).bench(),
            decreases count - i,
        {
            proof {
                lemma_last_click_take_step(interactions@, i as int);
                lemma_last_click_bounds(interactions@.take(i as int));
            }
            let report = interactions[i];
            if report.clicked {
                self.select_exactly(i);
            }
            let ghost pre_hov = self.hov();
            self.hovered.set(i, report.hovered);
            proof {
                assert forall|j: int| 0 <= j < i + 1 implies self.hov()[j]
                    == interactions@[j].hovered by {
                    if j < i {
                        assert(self.hov()[j] == pre_hov[j]);
                    }
                }
            }
            i = i + 1;
        }
        proof {
            assert(interactions@.take(count as int) =~= interactions@);
            assert(self.hov() =~= hover_flags(interactions@));
        }
    }

    /// Clears every selected flag, then sets only the one at `index`.
    fn select_exactly(&mut self, index: usize)
        requires
            old(self).wf(),
            index < old(self).sel().len(),
        ensures
            final(self).wf(),
            final(self).sel() == select_only(old(self).sel().len(), index as int),
            final(self).hov() == old(self).hov(),
            final(self).bench() == old(self).bench(),
    {
        let count: usize = self.selected.len();
        let mut j: usize = 0;
        while j < count
            invariant
                self.wf(),
                old(self).wf(),
                count == old(self).sel().len(),
                index < count,
                j <= count,
                self.sel().len() == count,
                forall|k: int| 0 <= k < j ==> self.sel()[k] == (k == index as int),
                forall|k: int| j <= k < count ==> self.sel()[k] == old(self).sel()[k],
                self.hov() == old(self).hov(),
                self.bench() == old(self).bench(),
            decreases count - j,
        {
            self.selected.set(j, j == index);
            j = j + 1;
        }
        proof {
            assert(self.sel() =~= select_only(old(self).sel().len(), index as int));
        }
    }

    /// Accumulates one frame's elapsed render time, saturating instead of
    /// wrapping, and refreshes the lifetime average.
    pub fn record_frame(&mut self, elapsed_micros: u64)
        requires
            old(self).wf(),
        ensures
            final(self).wf(),
            final(self).sel() == old(self).sel(),
            final(self).hov() == old(self).hov(),
            final(self).bench() == bench_step(old(self).bench(), elapsed_micros),
    {
        let count: u64 = if self.benchmark.count < u64::MAX {
            self.benchmark.count + 1
        } else {
            u64::MAX
        };
        let sum: u64 = if elapsed_micros <= u64::MAX - self.benchmark.sum {
            self.benchmark.sum + elapsed_micros
        } else {
            u64::MAX
        };
        let average: u64 = sum / count;
        self.benchmark = Benchmark { count, sum, average };
    }

    /// The benchmark gathered so far.
    pub fn benchmark(&self) -> (b: Benchmark)
        ensures
            b == self.bench(),
    {
        self.benchmark
    }
}

/// Whether every frame report in `frames` covers exactly `len` slots.
pub open spec fn frames_wf(frames: Seq<Seq<Interaction>>, len: nat) -> bool {
    forall|k: int| 0 <= k < frames.len() ==> #[trigger] frames[k].len() == len
}

/// The selection after folding a sequence of whole frames, oldest first.
pub open spec fn apply_frames(sel: Seq<bool>, frames: Seq<Seq<Interaction>>) -> Seq<bool>
    decreases frames.len(),
{
    if frames.len() == 0 {
        sel
    } else {
        frame_select(apply_frames(sel, frames.drop_last()), frames.last())
    }
}

/// Folding frames never changes how many slots there are.
pub proof fn lemma_apply_frames_len(sel: Seq<bool>, frames: Seq<Seq<Interaction>>)
    ensures
        apply_frames(sel, frames).len() == sel.len(),
    decreases frames.len(),
{
    if frames.len() > 0 {
        lemma_apply_frames_len(sel, frames.drop_last());
    }
}

/// Single-selection invariant: whatever the starting flags and whatever
/// frames came before, immediately after any frame that contains a click,
/// exactly one slot is selected — the most recently clicked one.
pub proof fn lemma_single_selection(sel: Seq<bool>, frames: Seq<Seq<Interaction>>)
    requires
        frames.len() > 0,
        frames_wf(frames, sel.len()),
        last_click_index(frames.last()) >= 0,
    ensures
        apply_frames(sel, frames) == select_only(sel.len(), last_click_index(frames.last())),
        is_one_hot(apply_frames(sel, frames), last_click_index(frames.last())),
{
    lemma_apply_frames_len(sel, frames.drop_last());
    lemma_last_click_bounds(frames.last());
    assert(frames[frames.len() - 1].len() == sel.len());
}

/// Selecting a slot of an all-unselected group yields exactly that slot:
/// the initial one-hot state every region starts from.
pub proof fn lemma_first_selection(sel: Seq<bool>, index: int)
    requires
        all_false(sel),
        0 <= index < sel.len(),
    ensures
        sel.update(index, true) == select_only(sel.len(), index),
        is_one_hot(sel.update(index, true), index),
{
    assert(sel.update(index, true) =~= select_only(sel.len(), index));
}

/// Sum of a sequence of per-frame durations, in microseconds.
pub open spec fn sum_micros(durations: Seq<u64>) -> int
    decreases durations.len(),
{
    if durations.len() == 0 {
        0
    } else {
        sum_micros(durations.drop_last()) + durations.last()
    }
}

/// The benchmark after recording a sequence of frame durations, oldest
/// first.
pub open spec fn apply_bench(b: Benchmark, durations: Seq<u64>) -> Benchmark
    decreases durations.len(),
{
    if durations.len() == 0 {
        b
    } else {
        bench_step(apply_bench(b, durations.drop_last()), durations.last())
    }
}

proof fn lemma_sum_micros_nonneg(durations: Seq<u64>)
    ensures
        0 <= sum_micros(durations),
    decreases durations.len(),
{
    if durations.len() > 0 {
        lemma_sum_micros_nonneg(durations.drop_last());
    }
}

/// Benchmark accumulation: after recording durations d1..dn from a fresh
/// benchmark, the count is n, the sum is d1+..+dn, and the average is their
/// quotient (saturation never occurs while the true sum fits the counter).
pub proof fn lemma_benchmark_accumulation(durations: Seq<u64>)
    requires
        durations.len() <= u64::MAX,
        sum_micros(durations) <= u64::MAX,
    ensures
        apply_bench(bench_zero(), durations).count == durations.len(),
        apply_bench(bench_zero(), durations).sum == sum_micros(durations),
        apply_bench(bench_zero(), durations).average == if durations.len() == 0 {
            0
        } else {
            sum_micros(durations) / (durations.len() as int)
        },
    decreases durations.len(),
{
    if durations.len() > 0 {
        lemma_sum_micros_nonneg(durations.drop_last());
        lemma_benchmark_accumulation(durations.drop_last());
    }
}

} // verus!
