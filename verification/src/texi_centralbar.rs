//! Central panel variant whose widgets own their per-slot state records.
//!
//! Five slots of 100 by 100 units, 30 units apart, laid out horizontally
//! and centered.  The region's selection lives in a shared list of
//! per-widget state records.

use vstd::prelude::*;

use crate::geometry::Axis;
use crate::geometry::Rect;
use crate::geometry::SlotGeometry;
use crate::geometry::layout_slots;
use crate::geometry::slot_rect_at;
use crate::group::Interaction;
use crate::slot_state::SlotState;
use crate::slot_state::fold_click_states;
use crate::slot_state::folded_prefix_len;
use crate::slot_state::states_frame_select;
use crate::slot_state::states_one_hot;
use crate::style::ImageId;

verus! {

/// Number of slots in this bar.
pub const NUM_TEXICONS: usize = 5;

pub const TEXI_WIDTH: i64 = 100;

pub const TEXI_HEIGHT: i64 = 100;

pub const TEXI_GAP: i64 = 30;

/// This bar's slot-group geometry.
pub open spec fn geometry_spec() -> SlotGeometry {
    SlotGeometry {
        axis: Axis::Horizontal,
        slot_width: TEXI_WIDTH,
        slot_height: TEXI_HEIGHT,
        gap: TEXI_GAP,
        count: NUM_TEXICONS,
    }
}

/// Builds this bar's slot-group geometry.
pub fn geometry() -> (geom: SlotGeometry)
    ensures
        geom == geometry_spec(),
        geom.wf(),
{
    SlotGeometry {
        axis: Axis::Horizontal,
        slot_width: TEXI_WIDTH,
        slot_height: TEXI_HEIGHT,
        gap: TEXI_GAP,
        count: NUM_TEXICONS,
    }
}

/// The image shown in the slot at `index`.
pub fn slot_image(index: usize) -> (image: ImageId)
    requires
        index < NUM_TEXICONS,
    ensures
        index == 0 ==> image == ImageId::TestTube,
        index == 1 ==> image == ImageId::Clock,
        index == 2 ==> image == ImageId::Waves,
        index == 3 ==> image == ImageId::Gear,
        index == 4 ==> image == ImageId::Article,
{
    if index == 0 {
        ImageId::TestTube
    } else if index == 1 {
        ImageId::Clock
    } else if index == 2 {
        ImageId::Waves
    } else if index == 3 {
        ImageId::Gear
    } else {
        ImageId::Article
    }
}

/// The label of the slot at `index`.
pub fn slot_label(index: usize) -> (label: &'static str)
    requires
        index < NUM_TEXICONS,
    ensures
        index == 0 ==> label@ == "Experiments"@,
        index == 1 ==> label@ == "Timing Stuff"@,
        index == 2 ==> label@ == "FILTERING"@,
        index == 3 ==> label@ == "Settings"@,
        index == 4 ==> label@ == "Documents (disabled)"@,
{
    if index == 0 {
        "Experiments"
    } else if index == 1 {
        "Timing Stuff"
    } else if index == 2 {
        "FILTERING"
    } else if index == 3 {
        "Settings"
    } else {
        "Documents (disabled)"
    }
}

/// The tooltip of the slot at `index`.
pub fn slot_tooltip(index: usize) -> (tooltip: &'static str)
    requires
        index < NUM_TEXICONS,
    ensures
        index == 0 ==> tooltip@
            == "No image and text provided. Mouseover senses text and icon, not frame."@,
        index == 1 ==> tooltip@ == "Image provided, text set to None."@,
        index == 2 ==> tooltip@ == "This is a tooltip for the waves icon."@,
        index == 3 ==> tooltip@ == "This is a tooltip for the gear icon."@,
        index == 4 ==> tooltip@ == "This is a tooltip for the ducuments icon."@,
{
    if index == 0 {
        "No image and text provided. Mouseover senses text and icon, not frame."
    } else if index == 1 {
        "Image provided, text set to None."
    } else if index == 2 {
        "This is a tooltip for the waves icon."
    } else if index == 3 {
        "This is a tooltip for the gear icon."
    } else {
        "This is a tooltip for the ducuments icon."
    }
}

/// Appends one fresh state record per slot, then marks the record at the
/// head of the list as selected.  On an empty list this leaves exactly
/// slot 0 selected.
pub fn init_texicons(texistates: &mut Vec<SlotState>)
    ensures
        final(texistates)@ == (old(texistates)@ + Seq::new(
            NUM_TEXICONS as nat,
            |j: int| SlotState { selected: false },
        )).update(0, SlotState { selected: true }),
        old(texistates)@.len() == 0 ==> states_one_hot(final(texistates)@, 0),
{
    let mut i: usize = 0;
    while i < NUM_TEXICONS
        invariant
            i <= NUM_TEXICONS,
            texistates@.len() == old(texistates)@.len() + i,
            forall|j: int|
                0 <= j < old(texistates)@.len() ==> texistates@[j] == old(texistates)@[j],
            forall|j: int|
                old(texistates)@.len() <= j < texistates@.len() ==> texistates@[j] == (SlotState {
                    selected: false,
                }),
        decreases NUM_TEXICONS - i,
    {
        texistates.push(SlotState { selected: false });
        i = i + 1;
    }
    texistates.set(0, SlotState { selected: true });
    proof {
        assert(texistates@ =~= (old(texistates)@ + Seq::new(
            NUM_TEXICONS as nat,
            |j: int| SlotState { selected: false },
        )).update(0, SlotState { selected: true }));
    }
}

/// One frame of this bar: computes the centered slot rectangles for
/// `region` and folds the frame's click reports into the state records
/// (the last clicked slot that has a record wins; reports without a record
/// are skipped).
pub fn draw_texicons(
    texistates: &mut Vec<SlotState>,
    region: &Rect,
    interactions: &Vec<Interaction>,
) -> (rects: Vec<Rect>)
    requires
        region.wf(),
        interactions@.len() == NUM_TEXICONS,
    ensures
        rects.len() == NUM_TEXICONS,
        forall|i: int|
            0 <= i < NUM_TEXICONS ==> rects[i] == slot_rect_at(*region, geometry_spec(), i),
        final(texistates)@.len() == old(texistates)@.len(),
        final(texistates)@ == states_frame_select(
            old(texistates)@,
            interactions@.take(folded_prefix_len(interactions@, old(texistates)@)),
        ),
{
    let geom = geometry();
    let rects = layout_slots(region, &geom);
    fold_click_states(texistates, interactions);
    rects
}

} // verus!
