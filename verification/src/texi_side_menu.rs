//! The side bar region: four fixed-size slots laid out vertically.
//!
//! All four slots share one styling rule.  The region keeps a selection,
//! per-frame hover flags and a render benchmark.

use vstd::prelude::*;

pub use crate::group::Benchmark;

use crate::geometry::Axis;
use crate::geometry::Rect;
use crate::geometry::SlotGeometry;
use crate::geometry::layout_slots;
use crate::geometry::slot_rect_at;
use crate::group::Interaction;
use crate::group::SlotGroup;
use crate::group::all_false;
use crate::group::bench_step;
use crate::group::bench_zero;
use crate::group::frame_select;
use crate::group::hover_flags;
use crate::style::ColorRole;
use crate::style::Extent;
use crate::style::ImageId;
use crate::style::SlotStyle;
use crate::style::StateColors;

verus! {

/// Number of slots in the side bar.
pub const NUM_TEXICONS: usize = 4;

pub const TEXI_WIDTH: i64 = 70;

pub const TEXI_HEIGHT: i64 = 80;

pub const TEXI_GAP: i64 = 30;

pub const IMG_SCALE_HOVER_PERCENT: u32 = 110;

pub const FRAME_WIDTH: u32 = 2;

pub const TOOLTIP_GAP: u32 = 20;

/// The side bar's slot-group geometry: vertical, slot size 70 by 80,
/// 30 units between slots.
pub open spec fn geometry_spec() -> SlotGeometry {
    SlotGeometry {
        axis: Axis::Vertical,
        slot_width: TEXI_WIDTH,
        slot_height: TEXI_HEIGHT,
        gap: TEXI_GAP,
        count: NUM_TEXICONS,
    }
}

/// Builds the side bar's slot-group geometry.
pub fn geometry() -> (geom: SlotGeometry)
    ensures
        geom == geometry_spec(),
        geom.wf(),
{
    SlotGeometry {
        axis: Axis::Vertical,
        slot_width: TEXI_WIDTH,
        slot_height: TEXI_HEIGHT,
        gap: TEXI_GAP,
        count: NUM_TEXICONS,
    }
}

/// The image shown in the slot at `index`.
pub open spec fn slot_image_spec(index: int) -> ImageId {
    if index == 0 {
        ImageId::TestTube
    } else if index == 1 {
        ImageId::Clock
    } else if index == 2 {
        ImageId::Waves
    } else {
        ImageId::GearLight
    }
}

/// The image of the slot at `index`.
pub fn slot_image(index: usize) -> (image: ImageId)
    requires
        index < NUM_TEXICONS,
    ensures
        image == slot_image_spec(index as int),
{
    if index == 0 {
        ImageId::TestTube
    } else if index == 1 {
        ImageId::Clock
    } else if index == 2 {
        ImageId::Waves
    } else {
        ImageId::GearLight
    }
}

/// The label of the slot at `index`.
pub fn slot_label(index: usize) -> (label: &'static str)
    requires
        index < NUM_TEXICONS,
    ensures
        index == 0 ==> label@ == "Experiments"@,
        index == 1 ==> label@ == "Timing Stuff"@,
        index == 2 ==> label@ == "Filtering"@,
        index == 3 ==> label@ == "Settings"@,
{
    if index == 0 {
        "Experiments"
    } else if index == 1 {
        "Timing Stuff"
    } else if index == 2 {
        "Filtering"
    } else {
        "Settings"
    }
}

/// The tooltip of the slot at `index`.
pub fn slot_tooltip(index: usize) -> (tooltip: &'static str)
    requires
        index < NUM_TEXICONS,
    ensures
        index == 0 ==> tooltip@ == "Text wrapping and centering for long words."@,
        index == 1 ==> tooltip@ == "Text wrapping and centering for multiple words."@,
        index == 2 ==> tooltip@ == "This is a tooltip for the waves Texicon."@,
        index == 3 ==> tooltip@ == "This is a tooltip for the gear Texicon."@,
{
    if index == 0 {
        "Text wrapping and centering for long words."
    } else if index == 1 {
        "Text wrapping and centering for multiple words."
    } else if index == 2 {
        "This is a tooltip for the waves Texicon."
    } else {
        "This is a tooltip for the gear Texicon."
    }
}

/// The one styling rule of the side bar, shared by every slot.
pub open spec fn slot_style_spec(index: int) -> SlotStyle {
    SlotStyle {
        enabled: true,
        img_size: None,
        img_scale_hover_percent: IMG_SCALE_HOVER_PERCENT,
        text_size: 0,
        img_text_gap: 0,
        background: StateColors {
            normal: ColorRole::Base,
            selected: ColorRole::Crust,
            hovered: ColorRole::Crust,
        },
        img_tint: StateColors {
            normal: ColorRole::TextDim,
            selected: ColorRole::Text,
            hovered: ColorRole::Mauve,
        },
        text_color: Some(
            StateColors {
                normal: ColorRole::TextDim,
                selected: ColorRole::Text,
                hovered: ColorRole::Mauve,
            },
        ),
        frame_color: StateColors {
            normal: ColorRole::Surface0,
            selected: ColorRole::Overlay0,
            hovered: ColorRole::Mauve,
        },
        frame_size: Extent { width: TEXI_WIDTH, height: TEXI_HEIGHT },
        frame_width: FRAME_WIDTH,
        corner_radius: None,
        sense: None,
        tooltip_gap: TOOLTIP_GAP,
        tooltip_placement: None,
    }
}

/// Builds the style of the slot at `index`.
pub fn slot_style(index: usize) -> (style: SlotStyle)
    requires
        index < NUM_TEXICONS,
    ensures
        style == slot_style_spec(index as int),
{
    SlotStyle {
        enabled: true,
        img_size: None,
        img_scale_hover_percent: IMG_SCALE_HOVER_PERCENT,
        text_size: 0,
        img_text_gap: 0,
        background: StateColors {
            normal: ColorRole::Base,
            selected: ColorRole::Crust,
            hovered: ColorRole::Crust,
        },
        img_tint: StateColors {
            normal: ColorRole::TextDim,
            selected: ColorRole::Text,
            hovered: ColorRole::Mauve,
        },
        text_color: Some(
            StateColors {
                normal: ColorRole::TextDim,
                selected: ColorRole::Text,
                hovered: ColorRole::Mauve,
            },
        ),
        frame_color: StateColors {
            normal: ColorRole::Surface0,
            selected: ColorRole::Overlay0,
            hovered: ColorRole::Mauve,
        },
        frame_size: Extent { width: TEXI_WIDTH, height: TEXI_HEIGHT },
        frame_width: FRAME_WIDTH,
        corner_radius: None,
        sense: None,
        tooltip_gap: TOOLTIP_GAP,
        tooltip_placement: None,
    }
}

/// Selection, hover and benchmark state of the side bar.
pub struct TexiState {
    group: SlotGroup,
}

impl TexiState {
    pub closed spec fn wf(self) -> bool {
        &&& self.group.wf()
        &&& self.group.sel().len() == NUM_TEXICONS
    }

    /// The per-slot selected flags.
    pub closed spec fn sel(self) -> Seq<bool> {
        self.group.sel()
    }

    /// The per-slot hovered flags.
    pub closed spec fn hov(self) -> Seq<bool> {
        self.group.hov()
    }

    /// The render benchmark.
    pub closed spec fn bench(self) -> Benchmark {
        self.group.bench()
    }

    /// Creates the region state: no slot selected or hovered, benchmark
    /// fresh.
    pub fn new() -> (state: TexiState)
        ensures
            state.wf(),
            state.sel().len() == NUM_TEXICONS,
            all_false(state.sel()),
            state.hov().len() == NUM_TEXICONS,
            all_false(state.hov()),
            state.bench() == bench_zero(),
    {
        TexiState { group: SlotGroup::new(NUM_TEXICONS) }
    }

    /// Marks the slot at `index` as selected (startup configuration).  An
    /// index at or past the slot count changes nothing.
    pub fn set_selected_texicon(&mut self, index: usize)
        requires
            old(self).wf(),
        ensures
            final(self).wf(),
            index < NUM_TEXICONS ==> final(self).sel() == old(self).sel().update(
                index as int,
                true,
            ),
            index >= NUM_TEXICONS ==> final(self).sel() == old(self).sel(),
            final(self).hov() == old(self).hov(),
            final(self).bench() == old(self).bench(),
    {
        self.group.set_selected(index)
    }

    /// The rectangles the slots occupy when the region is given `region`,
    /// in slot order: the group centered on both axes.
    pub fn slot_rects(&self, region: &Rect) -> (rects: Vec<Rect>)
        requires
            region.wf(),
        ensures
            rects.len() == NUM_TEXICONS,
            forall|i: int|
                0 <= i < NUM_TEXICONS ==> rects[i] == slot_rect_at(*region, geometry_spec(), i),
    {
        let geom = geometry();
        layout_slots(region, &geom)
    }

    /// One frame of the region: computes the slot rectangles for `region`,
    /// folds the frame's interaction reports into selection and hover
    /// state, and accumulates the frame's elapsed render time.
    pub fn draw_texicons(&mut self, region: &Rect, interactions: &Vec<Interaction>, elapsed_micros: u64) -> (rects: Vec<Rect>)
        requires
            old(self).wf(),
            region.wf(),
            interactions@.len() == NUM_TEXICONS,
        ensures
            final(self).wf(),
            rects.len() == NUM_TEXICONS,
            forall|i: int|
                0 <= i < NUM_TEXICONS ==> rects[i] == slot_rect_at(*region, geometry_spec(), i),
            final(self).sel() == frame_select(old(self).sel(), interactions@),
            final(self).hov() == hover_flags(interactions@),
            final(self).bench() == bench_step(old(self).bench(), elapsed_micros),
    {
        let geom = geometry();
        let rects = layout_slots(region, &geom);
        self.group.fold_interactions(interactions);
        self.group.record_frame(elapsed_micros);
        rects
    }

    /// Whether the slot at `index` is selected.
    pub fn is_selected(&self, index: usize) -> (flag: bool)
        requires
            self.wf(),
            index < NUM_TEXICONS,
        ensures
            flag == self.sel()[index as int],
    {
        self.group.is_selected(index)
    }

    /// Whether the pointer was over the slot at `index` in the last frame.
    pub fn is_hovered(&self, index: usize) -> (flag: bool)
        requires
            self.wf(),
            index < NUM_TEXICONS,
        ensures
            flag == self.hov()[index as int],
    {
        self.group.is_hovered(index)
    }

    /// The render benchmark gathered so far.
    pub fn get_benchmark(&self) -> (b: Benchmark)
        ensures
            b == self.bench(),
    {
        self.group.benchmark()
    }
}

} // verus!
