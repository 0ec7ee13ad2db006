//! The top bar region: four fixed-size slots laid out horizontally.
//!
//! The slots share one styling rule; only the label size and the gap
//! between image and label grow with the slot index.  The region keeps a
//! selection, per-frame hover flags and a render benchmark.

use vstd::prelude::*;

pub use crate::group::Benchmark;

use crate::geometry::Axis;
use crate::geometry::Rect;
use crate::geometry::SlotGeometry;
use crate::geometry::layout_slots;
use crate::geometry::slot_rect_at;
use crate::group::Interaction;
use crate::group::SlotGroup;
use crate::group::all_false;
use crate::group::bench_step;
use crate::group::bench_zero;
use crate::group::frame_select;
use crate::group::hover_flags;
use crate::style::ColorRole;
use crate::style::Extent;
use crate::style::ImageId;
use crate::style::SlotStyle;
use crate::style::StateColors;
use crate::style::TooltipPlacement;

verus! {

/// Number of slots in the top bar.
pub const NUM_TEXICONS: usize = 4;

pub const TEXI_WIDTH: i64 = 140;

pub const TEXI_HEIGHT: i64 = 120;

pub const TEXI_GAP: i64 = 30;

pub const IMG_SIZE: i64 = 70;

pub const BASE_TEXT_SIZE: u32 = 11;

pub const TEXT_SIZE_INCREMENT: u32 = 2;

pub const BASE_IMG_TEXT_GAP: u32 = 5;

pub const IMG_TEXT_GAP_INCREMENT: u32 = 2;

pub const IMG_SCALE_HOVER_PERCENT: u32 = 105;

pub const FRAME_WIDTH: u32 = 2;

pub const CORNER_RADIUS: u8 = 4;

pub const TOOLTIP_GAP: u32 = 20;

/// The top bar's slot-group geometry: horizontal, slot size 140 by 120,
/// 30 units between slots.
pub open spec fn geometry_spec() -> SlotGeometry {
    SlotGeometry {
        axis: Axis::Horizontal,
        slot_width: TEXI_WIDTH,
        slot_height: TEXI_HEIGHT,
        gap: TEXI_GAP,
        count: NUM_TEXICONS,
    }
}

/// Builds the top bar's slot-group geometry.
pub fn geometry() -> (geom: SlotGeometry)
    ensures
        geom == geometry_spec(),
        geom.wf(),
{
    SlotGeometry {
        axis: Axis::Horizontal,
        slot_width: TEXI_WIDTH,
        slot_height: TEXI_HEIGHT,
        gap: TEXI_GAP,
        count: NUM_TEXICONS,
    }
}

/// The image shown in the slot at `index`.
pub open spec fn slot_image_spec(index: int) -> ImageId {
    if index == 0 {
        ImageId::TestTube
    } else if index == 1 {
        ImageId::Clock
    } else if index == 2 {
        ImageId::Waves
    } else {
        ImageId::GearLight
    }
}

/// The image of the slot at `index`.
pub fn slot_image(index: usize) -> (image: ImageId)
    requires
        index < NUM_TEXICONS,
    ensures
        image == slot_image_spec(index as int),
{
    if index == 0 {
        ImageId::TestTube
    } else if index == 1 {
        ImageId::Clock
    } else if index == 2 {
        ImageId::Waves
    } else {
        ImageId::GearLight
    }
}

/// The label of the slot at `index`.
pub fn slot_label(index: usize) -> (label: &'static str)
    requires
        index < NUM_TEXICONS,
    ensures
        index == 0 ==> label@ == "Undersized text"@,
        index == 1 ==> label@ == "Normal text"@,
        index == 2 ==> label@ == "Large text"@,
        index == 3 ==> label@ == "Extra large text"@,
{
    if index == 0 {
        "Undersized text"
    } else if index == 1 {
        "Normal text"
    } else if index == 2 {
        "Large text"
    } else {
        "Extra large text"
    }
}

/// The tooltip of the slot at `index`.
pub fn slot_tooltip(index: usize) -> (tooltip: &'static str)
    requires
        index < NUM_TEXICONS,
    ensures
        index == 0 ==> tooltip@
            == "This is a tooltip for the test tube icon. Note the small font size."@,
        index == 1 ==> tooltip@ == "This is a tooltip for the clock icon."@,
        index == 2 ==> tooltip@
            == "This is a tooltip for the waves icon. Note the large font size."@,
        index == 3 ==> tooltip@
            == "This is a tooltip for the gear icon. Note the extra large font size."@,
{
    if index == 0 {
        "This is a tooltip for the test tube icon. Note the small font size."
    } else if index == 1 {
        "This is a tooltip for the clock icon."
    } else if index == 2 {
        "This is a tooltip for the waves icon. Note the large font size."
    } else {
        "This is a tooltip for the gear icon. Note the extra large font size."
    }
}

/// The one styling rule of the top bar, at slot `index`: label size and
/// image-label gap grow by two units per slot, everything else is shared.
pub open spec fn slot_style_spec(index: int) -> SlotStyle {
    SlotStyle {
        enabled: true,
        img_size: Some(Extent { width: IMG_SIZE, height: IMG_SIZE }),
        img_scale_hover_percent: IMG_SCALE_HOVER_PERCENT,
        text_size: (BASE_TEXT_SIZE + TEXT_SIZE_INCREMENT * index) as u32,
        img_text_gap: (BASE_IMG_TEXT_GAP + IMG_TEXT_GAP_INCREMENT * index) as u32,
        background: StateColors {
            normal: ColorRole::Base,
            selected: ColorRole::Mantle,
            hovered: ColorRole::Crust,
        },
        img_tint: StateColors {
            normal: ColorRole::GreenDim,
            selected: ColorRole::Green,
            hovered: ColorRole::Green,
        },
        text_color: Some(
            StateColors {
                normal: ColorRole::GreenDim,
                selected: ColorRole::Green,
                hovered: ColorRole::Green,
            },
        ),
        frame_color: StateColors {
            normal: ColorRole::Base,
            selected: ColorRole::Base,
            hovered: ColorRole::Surface2,
        },
        frame_size: Extent { width: TEXI_WIDTH, height: TEXI_HEIGHT },
        frame_width: FRAME_WIDTH,
        corner_radius: Some(CORNER_RADIUS),
        sense: None,
        tooltip_gap: TOOLTIP_GAP,
        tooltip_placement: Some(TooltipPlacement::Bottom),
    }
}

/// Builds the style of the slot at `index`.
pub fn slot_style(index: usize) -> (style: SlotStyle)
    requires
        index < NUM_TEXICONS,
    ensures
        style == slot_style_spec(index as int),
{
    let step: u32 = index as u32;
    SlotStyle {
        enabled: true,
        img_size: Some(Extent { width: IMG_SIZE, height: IMG_SIZE }),
        img_scale_hover_percent: IMG_SCALE_HOVER_PERCENT,
        text_size: BASE_TEXT_SIZE + TEXT_SIZE_INCREMENT * step,
        img_text_gap: BASE_IMG_TEXT_GAP + IMG_TEXT_GAP_INCREMENT * step,
        background: StateColors {
            normal: ColorRole::Base,
            selected: ColorRole::Mantle,
            hovered: ColorRole::Crust,
        },
        img_tint: StateColors {
            normal: ColorRole::GreenDim,
            selected: ColorRole::Green,
            hovered: ColorRole::Green,
        },
        text_color: Some(
            StateColors {
                normal: ColorRole::GreenDim,
                selected: ColorRole::Green,
                hovered: ColorRole::Green,
            },
        ),
        frame_color: StateColors {
            normal: ColorRole::Base,
            selected: ColorRole::Base,
            hovered: ColorRole::Surface2,
        },
        frame_size: Extent { width: TEXI_WIDTH, height: TEXI_HEIGHT },
        frame_width: FRAME_WIDTH,
        corner_radius: Some(CORNER_RADIUS),
        sense: None,
        tooltip_gap: TOOLTIP_GAP,
        tooltip_placement: Some(TooltipPlacement::Bottom),
    }
}

/// Selection, hover and benchmark state of the top bar.
pub struct TexiState {
    group: SlotGroup,
}

impl TexiState {
    pub closed spec fn wf(self) -> bool {
        &&& self.group.wf()
        &&& self.group.sel().len() == NUM_TEXICONS
    }

    /// The per-slot selected flags.
    pub closed spec fn sel(self) -> Seq<bool> {
        self.group.sel()
    }

    /// The per-slot hovered flags.
    pub closed spec fn hov(self) -> Seq<bool> {
        self.group.hov()
    }

    /// The render benchmark.
    pub closed spec fn bench(self) -> Benchmark {
        self.group.bench()
    }

    /// Creates the region state: no slot selected or hovered, benchmark
    /// fresh.
    pub fn new() -> (state: TexiState)
        ensures
            state.wf(),
            state.sel().len() == NUM_TEXICONS,
            all_false(state.sel()),
            state.hov().len() == NUM_TEXICONS,
            all_false(state.hov()),
            state.bench() == bench_zero(),
    {
        TexiState { group: SlotGroup::new(NUM_TEXICONS) }
    }

    /// Marks the slot at `index` as selected (startup configuration).  An
    /// index at or past the slot count changes nothing.
    pub fn set_selected_texicon(&mut self, index: usize)
        requires
            old(self).wf(),
        ensures
            final(self).wf(),
            index < NUM_TEXICONS ==> final(self).sel() == old(self).sel().update(
                index as int,
                true,
            ),
            index >= NUM_TEXICONS ==> final(self).sel() == old(self).sel(),
            final(self).hov() == old(self).hov(),
            final(self).bench() == old(self).bench(),
    {
        self.group.set_selected(index)
    }

    /// The rectangles the slots occupy when the region is given `region`,
    /// in slot order: the group centered on both axes.
    pub fn slot_rects(&self, region: &Rect) -> (rects: Vec<Rect>)
        requires
            region.wf(),
        ensures
            rects.len() == NUM_TEXICONS,
            forall|i: int|
                0 <= i < NUM_TEXICONS ==> rects[i] == slot_rect_at(*region, geometry_spec(), i),
    {
        let geom = geometry();
        layout_slots(region, &geom)
    }

    /// One frame of the region: computes the slot rectangles for `region`,
    /// folds the frame's interaction reports into selection and hover
    /// state, and accumulates the frame's elapsed render time.
    pub fn draw_texicons(&mut self, region: &Rect, interactions: &Vec<Interaction>, elapsed_micros: u64) -> (rects: Vec<Rect>)
        requires
            old(self).wf(),
            region.wf(),
            interactions@.len() == NUM_TEXICONS,
        ensures
            final(self).wf(),
            rects.len() == NUM_TEXICONS,
            forall|i: int|
                0 <= i < NUM_TEXICONS ==> rects[i] == slot_rect_at(*region, geometry_spec(), i),
            final(self).sel() == frame_select(old(self).sel(), interactions@),
            final(self).hov() == hover_flags(interactions@),
            final(self).bench() == bench_step(old(self).bench(), elapsed_micros),
    {
        let geom = geometry();
        let rects = layout_slots(region, &geom);
        self.group.fold_interactions(interactions);
        self.group.record_frame(elapsed_micros);
        rects
    }

    /// Whether the slot at `index` is selected.
    pub fn is_selected(&self, index: usize) -> (flag: bool)
        requires
            self.wf(),
            index < NUM_TEXICONS,
        ensures
            flag == self.sel()[index as int],
    {
        self.group.is_selected(index)
    }

    /// Whether the pointer was over the slot at `index` in the last frame.
    pub fn is_hovered(&self, index: usize) -> (flag: bool)
        requires
            self.wf(),
            index < NUM_TEXICONS,
        ensures
            flag == self.hov()[index as int],
    {
        self.group.is_hovered(index)
    }

    /// The render benchmark gathered so far.
    pub fn get_benchmark(&self) -> (b: Benchmark)
        ensures
            b == self.bench(),
    {
        self.group.benchmark()
    }
}

} // verus!
