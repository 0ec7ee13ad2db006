//! The central panel region: five fixed-size slots laid out horizontally.
//!
//! This is the most elaborate region: every slot carries its own visual
//! configuration — image scaling, palette roles, sensing mode, frame
//! metrics — and the last slot is disabled.  The region keeps a selection,
//! per-frame hover flags and a render benchmark.

use vstd::prelude::*;

pub use crate::group::Benchmark;

use crate::geometry::Axis;
use crate::geometry::Rect;
use crate::geometry::SlotGeometry;
use crate::geometry::layout_slots;
use crate::geometry::slot_rect_at;
use crate::group::Interaction;
use crate::group::SlotGroup;
use crate::group::all_false;
use crate::group::bench_step;
use crate::group::bench_zero;
use crate::group::frame_select;
use crate::group::hover_flags;
use crate::style::ColorRole;
use crate::style::Extent;
use crate::style::ImageId;
use crate::style::SenseMode;
use crate::style::SlotStyle;
use crate::style::StateColors;
use crate::style::TooltipPlacement;

verus! {

/// Number of slots in the central panel.
pub const NUM_TEXICONS: usize = 5;

pub const TEXI_WIDTH: i64 = 100;

pub const TEXI_HEIGHT: i64 = 100;

pub const TEXI_GAP: i64 = 30;

/// The central panel's slot-group geometry: horizontal, slot size 100 by
/// 100, 30 units between slots.
pub open spec fn geometry_spec() -> SlotGeometry {
    SlotGeometry {
        axis: Axis::Horizontal,
        slot_width: TEXI_WIDTH,
        slot_height: TEXI_HEIGHT,
        gap: TEXI_GAP,
        count: NUM_TEXICONS,
    }
}

/// Builds the central panel's slot-group geometry.
pub fn geometry() -> (geom: SlotGeometry)
    ensures
        geom == geometry_spec(),
        geom.wf(),
{
    SlotGeometry {
        axis: Axis::Horizontal,
        slot_width: TEXI_WIDTH,
        slot_height: TEXI_HEIGHT,
        gap: TEXI_GAP,
        count: NUM_TEXICONS,
    }
}

/// The image shown in the slot at `index`.
pub open spec fn slot_image_spec(index: int) -> ImageId {
    if index == 0 {
        ImageId::TestTube
    } else if index == 1 {
        ImageId::Clock
    } else if index == 2 {
        ImageId::Waves
    } else if index == 3 {
        ImageId::Gear
    } else {
        ImageId::Article
    }
}

/// The image of the slot at `index`.
pub fn slot_image(index: usize) -> (image: ImageId)
    requires
        index < NUM_TEXICONS,
    ensures
        image == slot_image_spec(index as int),
{
    if index == 0 {
        ImageId::TestTube
    } else if index == 1 {
        ImageId::Clock
    } else if index == 2 {
        ImageId::Waves
    } else if index == 3 {
        ImageId::Gear
    } else {
        ImageId::Article
    }
}

/// The label of the slot at `index`; the first two slots draw no label.
pub fn slot_label(index: usize) -> (label: Option<&'static str>)
    requires
        index < NUM_TEXICONS,
    ensures
        index == 0 ==> label is None,
        index == 1 ==> label is None,
        index == 2 ==> (label matches Some(l) && l@ == "FILTERING"@),
        index == 3 ==> (label matches Some(l) && l@ == "Settings"@),
        index == 4 ==> (label matches Some(l) && l@ == "Documents (disabled)"@),
{
    if index == 0 {
        None
    } else if index == 1 {
        None
    } else if index == 2 {
        Some("FILTERING")
    } else if index == 3 {
        Some("Settings")
    } else {
        Some("Documents (disabled)")
    }
}

/// The tooltip of the slot at `index`.
pub fn slot_tooltip(index: usize) -> (tooltip: &'static str)
    requires
        index < NUM_TEXICONS,
    ensures
        index == 0 ==> tooltip@
            == "No image and text provided. Mouseover senses text and icon, not frame."@,
        index == 1 ==> tooltip@ == "Image provided, text set to None."@,
        index == 2 ==> tooltip@ == "This is a tooltip for the waves icon."@,
        index == 3 ==> tooltip@ == "This is a tooltip for the gear icon."@,
        index == 4 ==> tooltip@ == "This is a tooltip for the documents icon."@,
{
    if index == 0 {
        "No image and text provided. Mouseover senses text and icon, not frame."
    } else if index == 1 {
        "Image provided, text set to None."
    } else if index == 2 {
        "This is a tooltip for the waves icon."
    } else if index == 3 {
        "This is a tooltip for the gear icon."
    } else {
        "This is a tooltip for the documents icon."
    }
}

/// The per-slot styling table of the central panel.  Unlike the bars, no
/// two slots here share their configuration.
pub open spec fn slot_style_spec(index: int) -> SlotStyle {
    if index == 0 {
        SlotStyle {
            enabled: true,
            img_size: Some(Extent { width: 80, height: 80 }),
            img_scale_hover_percent: 110,
            text_size: 13,
            img_text_gap: 0,
            background: StateColors {
                normal: ColorRole::Red,
                selected: ColorRole::Mauve,
                hovered: ColorRole::Mauve,
            },
            img_tint: StateColors {
                normal: ColorRole::Base,
                selected: ColorRole::Base,
                hovered: ColorRole::Base,
            },
            text_color: Some(
                StateColors {
                    normal: ColorRole::Base,
                    selected: ColorRole::Base,
                    hovered: ColorRole::Base,
                },
            ),
            frame_color: StateColors {
                normal: ColorRole::Base,
                selected: ColorRole::Teal,
                hovered: ColorRole::Teal,
            },
            frame_size: Extent { width: 100, height: 150 },
            frame_width: 4,
            corner_radius: None,
            sense: Some(SenseMode::ImageAndText),
            tooltip_gap: 40,
            tooltip_placement: Some(TooltipPlacement::Bottom),
        }
    } else if index == 1 {
        SlotStyle {
            enabled: true,
            img_size: Some(Extent { width: 48, height: 48 }),
            img_scale_hover_percent: 130,
            text_size: 0,
            img_text_gap: 0,
            background: StateColors {
                normal: ColorRole::RedFaint,
                selected: ColorRole::RedSoft,
                hovered: ColorRole::RedStrong,
            },
            img_tint: StateColors {
                normal: ColorRole::Text,
                selected: ColorRole::Text,
                hovered: ColorRole::Text,
            },
            text_color: None,
            frame_color: StateColors {
                normal: ColorRole::Crust,
                selected: ColorRole::Text,
                hovered: ColorRole::Text,
            },
            frame_size: Extent { width: TEXI_WIDTH, height: TEXI_HEIGHT },
            frame_width: 2,
            corner_radius: Some(0),
            sense: Some(SenseMode::Frame),
            tooltip_gap: 20,
            tooltip_placement: Some(TooltipPlacement::Bottom),
        }
    } else if index == 2 {
        SlotStyle {
            enabled: true,
            img_size: Some(Extent { width: 40, height: 40 }),
            img_scale_hover_percent: 115,
            text_size: 15,
            img_text_gap: 10,
            background: StateColors {
                normal: ColorRole::Base,
                selected: ColorRole::Mantle,
                hovered: ColorRole::Crust,
            },
            img_tint: StateColors {
                normal: ColorRole::Blue,
                selected: ColorRole::Blue,
                hovered: ColorRole::Blue,
            },
            text_color: Some(
                StateColors {
                    normal: ColorRole::Teal,
                    selected: ColorRole::Teal,
                    hovered: ColorRole::Teal,
                },
            ),
            frame_color: StateColors {
                normal: ColorRole::Crust,
                selected: ColorRole::Subtext0,
                hovered: ColorRole::Subtext0,
            },
            frame_size: Extent { width: TEXI_WIDTH, height: TEXI_HEIGHT },
            frame_width: 2,
            corner_radius: Some(20),
            sense: None,
            tooltip_gap: 20,
            tooltip_placement: Some(TooltipPlacement::Bottom),
        }
    } else if index == 3 {
        SlotStyle {
            enabled: true,
            img_size: Some(Extent { width: 50, height: 50 }),
            img_scale_hover_percent: 110,
            text_size: 17,
            img_text_gap: 6,
            background: StateColors {
                normal: ColorRole::Base,
                selected: ColorRole::Mantle,
                hovered: ColorRole::Crust,
            },
            img_tint: StateColors {
                normal: ColorRole::Green,
                selected: ColorRole::Yellow,
                hovered: ColorRole::Yellow,
            },
            text_color: Some(
                StateColors {
                    normal: ColorRole::Yellow,
                    selected: ColorRole::Green,
                    hovered: ColorRole::Green,
                },
            ),
            frame_color: StateColors {
                normal: ColorRole::Crust,
                selected: ColorRole::Subtext0,
                hovered: ColorRole::Subtext0,
            },
            frame_size: Extent { width: 120, height: 100 },
            frame_width: 4,
            corner_radius: None,
            sense: None,
            tooltip_gap: 20,
            tooltip_placement: Some(TooltipPlacement::Bottom),
        }
    } else {
        SlotStyle {
            enabled: false,
            img_size: Some(Extent { width: 50, height: 50 }),
            img_scale_hover_percent: 100,
            text_size: 17,
            img_text_gap: 0,
            background: StateColors {
                normal: ColorRole::Base,
                selected: ColorRole::Mantle,
                hovered: ColorRole::Crust,
            },
            img_tint: StateColors {
                normal: ColorRole::Green,
                selected: ColorRole::Yellow,
                hovered: ColorRole::Yellow,
            },
            text_color: Some(
                StateColors {
                    normal: ColorRole::Yellow,
                    selected: ColorRole::Green,
                    hovered: ColorRole::Green,
                },
            ),
            frame_color: StateColors {
                normal: ColorRole::Crust,
                selected: ColorRole::Crust,
                hovered: ColorRole::Crust,
            },
            frame_size: Extent { width: TEXI_WIDTH, height: TEXI_HEIGHT },
            frame_width: 4,
            corner_radius: None,
            sense: None,
            tooltip_gap: 20,
            tooltip_placement: Some(TooltipPlacement::Bottom),
        }
    }
}

/// Builds the style of the slot at `index`.
pub fn slot_style(index: usize) -> (style: SlotStyle)
    requires
        index < NUM_TEXICONS,
    ensures
        style == slot_style_spec(index as int),
{
    if index == 0 {
        SlotStyle {
            enabled: true,
            img_size: Some(Extent { width: 80, height: 80 }),
            img_scale_hover_percent: 110,
            text_size: 13,
            img_text_gap: 0,
            background: StateColors {
                normal: ColorRole::Red,
                selected: ColorRole::Mauve,
                hovered: ColorRole::Mauve,
            },
            img_tint: StateColors {
                normal: ColorRole::Base,
                selected: ColorRole::Base,
                hovered: ColorRole::Base,
            },
            text_color: Some(
                StateColors {
                    normal: ColorRole::Base,
                    selected: ColorRole::Base,
                    hovered: ColorRole::Base,
                },
            ),
            frame_color: StateColors {
                normal: ColorRole::Base,
                selected: ColorRole::Teal,
                hovered: ColorRole::Teal,
            },
            frame_size: Extent { width: 100, height: 150 },
            frame_width: 4,
            corner_radius: None,
            sense: Some(SenseMode::ImageAndText),
            tooltip_gap: 40,
            tooltip_placement: Some(TooltipPlacement::Bottom),
        }
    } else if index == 1 {
        SlotStyle {
            enabled: true,
            img_size: Some(Extent { width: 48, height: 48 }),
            img_scale_hover_percent: 130,
            text_size: 0,
            img_text_gap: 0,
            background: StateColors {
                normal: ColorRole::RedFaint,
                selected: ColorRole::RedSoft,
                hovered: ColorRole::RedStrong,
            },
            img_tint: StateColors {
                normal: ColorRole::Text,
                selected: ColorRole::Text,
                hovered: ColorRole::Text,
            },
            text_color: None,
            frame_color: StateColors {
                normal: ColorRole::Crust,
                selected: ColorRole::Text,
                hovered: ColorRole::Text,
            },
            frame_size: Extent { width: TEXI_WIDTH, height: TEXI_HEIGHT },
            frame_width: 2,
            corner_radius: Some(0),
            sense: Some(SenseMode::Frame),
            tooltip_gap: 20,
            tooltip_placement: Some(TooltipPlacement::Bottom),
        }
    } else if index == 2 {
        SlotStyle {
            enabled: true,
            img_size: Some(Extent { width: 40, height: 40 }),
            img_scale_hover_percent: 115,
            text_size: 15,
            img_text_gap: 10,
            background: StateColors {
                normal: ColorRole::Base,
                selected: ColorRole::Mantle,
                hovered: ColorRole::Crust,
            },
            img_tint: StateColors {
                normal: ColorRole::Blue,
                selected: ColorRole::Blue,
                hovered: ColorRole::Blue,
            },
            text_color: Some(
                StateColors {
                    normal: ColorRole::Teal,
                    selected: ColorRole::Teal,
                    hovered: ColorRole::Teal,
                },
            ),
            frame_color: StateColors {
                normal: ColorRole::Crust,
                selected: ColorRole::Subtext0,
                hovered: ColorRole::Subtext0,
            },
            frame_size: Extent { width: TEXI_WIDTH, height: TEXI_HEIGHT },
            frame_width: 2,
            corner_radius: Some(20),
            sense: None,
            tooltip_gap: 20,
            tooltip_placement: Some(TooltipPlacement::Bottom),
        }
    } else if index == 3 {
        SlotStyle {
            enabled: true,
            img_size: Some(Extent { width: 50, height: 50 }),
            img_scale_hover_percent: 110,
            text_size: 17,
            img_text_gap: 6,
            background: StateColors {
                normal: ColorRole::Base,
                selected: ColorRole::Mantle,
                hovered: ColorRole::Crust,
            },
            img_tint: StateColors {
                normal: ColorRole::Green,
                selected: ColorRole::Yellow,
                hovered: ColorRole::Yellow,
            },
            text_color: Some(
                StateColors {
                    normal: ColorRole::Yellow,
                    selected: ColorRole::Green,
                    hovered: ColorRole::Green,
                },
            ),
            frame_color: StateColors {
                normal: ColorRole::Crust,
                selected: ColorRole::Subtext0,
                hovered: ColorRole::Subtext0,
            },
            frame_size: Extent { width: 120, height: 100 },
            frame_width: 4,
            corner_radius: None,
            sense: None,
            tooltip_gap: 20,
            tooltip_placement: Some(TooltipPlacement::Bottom),
        }
    } else {
        SlotStyle {
            enabled: false,
            img_size: Some(Extent { width: 50, height: 50 }),
            img_scale_hover_percent: 100,
            text_size: 17,
            img_text_gap: 0,
            background: StateColors {
                normal: ColorRole::Base,
                selected: ColorRole::Mantle,
                hovered: ColorRole::Crust,
            },
            img_tint: StateColors {
                normal: ColorRole::Green,
                selected: ColorRole::Yellow,
                hovered: ColorRole::Yellow,
            },
            text_color: Some(
                StateColors {
                    normal: ColorRole::Yellow,
                    selected: ColorRole::Green,
                    hovered: ColorRole::Green,
                },
            ),
            frame_color: StateColors {
                normal: ColorRole::Crust,
                selected: ColorRole::Crust,
                hovered: ColorRole::Crust,
            },
            frame_size: Extent { width: TEXI_WIDTH, height: TEXI_HEIGHT },
            frame_width: 4,
            corner_radius: None,
            sense: None,
            tooltip_gap: 20,
            tooltip_placement: Some(TooltipPlacement::Bottom),
        }
    }
}

/// Selection, hover and benchmark state of the central panel.
pub struct TexiState {
    group: SlotGroup,
}

impl TexiState {
    pub closed spec fn wf(self) -> bool {
        &&& self.group.wf()
        &&& self.group.sel().len() == NUM_TEXICONS
    }

    /// The per-slot selected flags.
    pub closed spec fn sel(self) -> Seq<bool> {
        self.group.sel()
    }

    /// The per-slot hovered flags.
    pub closed spec fn hov(self) -> Seq<bool> {
        self.group.hov()
    }

    /// The render benchmark.
    pub closed spec fn bench(self) -> Benchmark {
        self.group.bench()
    }

    /// Creates the region state: no slot selected or hovered, benchmark
    /// fresh.
    pub fn new() -> (state: TexiState)
        ensures
            state.wf(),
            state.sel().len() == NUM_TEXICONS,
            all_false(state.sel()),
            state.hov().len() == NUM_TEXICONS,
            all_false(state.hov()),
            state.bench() == bench_zero(),
    {
        TexiState { group: SlotGroup::new(NUM_TEXICONS) }
    }

    /// Marks the slot at `index` as selected (startup configuration).  An
    /// index at or past the slot count changes nothing.
    pub fn set_selected_texicon(&mut self, index: usize)
        requires
            old(self).wf(),
        ensures
            final(self).wf(),
            index < NUM_TEXICONS ==> final(self).sel() == old(self).sel().update(
                index as int,
                true,
            ),
            index >= NUM_TEXICONS ==> final(self).sel() == old(self).sel(),
            final(self).hov() == old(self).hov(),
            final(self).bench() == old(self).bench(),
    {
        self.group.set_selected(index)
    }

    /// The rectangles the slots occupy when the region is given `region`,
    /// in slot order: the group centered on both axes.
    pub fn slot_rects(&self, region: &Rect) -> (rects: Vec<Rect>)
        requires
            region.wf(),
        ensures
            rects.len() == NUM_TEXICONS,
            forall|i: int|
                0 <= i < NUM_TEXICONS ==> rects[i] == slot_rect_at(*region, geometry_spec(), i),
    {
        let geom = geometry();
        layout_slots(region, &geom)
    }

    /// One frame of the region: computes the slot rectangles for `region`,
    /// folds the frame's interaction reports into selection and hover
    /// state, and accumulates the frame's elapsed render time.
    pub fn draw_texicons(&mut self, region: &Rect, interactions: &Vec<Interaction>, elapsed_micros: u64) -> (rects: Vec<Rect>)
        requires
            old(self).wf(),
            region.wf(),
            interactions@.len() == NUM_TEXICONS,
        ensures
            final(self).wf(),
            rects.len() == NUM_TEXICONS,
            forall|i: int|
                0 <= i < NUM_TEXICONS ==> rects[i] == slot_rect_at(*region, geometry_spec(), i),
            final(self).sel() == frame_select(old(self).sel(), interactions@),
            final(self).hov() == hover_flags(interactions@),
            final(self).bench() == bench_step(old(self).bench(), elapsed_micros),
    {
        let geom = geometry();
        let rects = layout_slots(region, &geom);
        self.group.fold_interactions(interactions);
        self.group.record_frame(elapsed_micros);
        rects
    }

    /// Whether the slot at `index` is selected.
    pub fn is_selected(&self, index: usize) -> (flag: bool)
        requires
            self.wf(),
            index < NUM_TEXICONS,
        ensures
            flag == self.sel()[index as int],
    {
        self.group.is_selected(index)
    }

    /// Whether the pointer was over the slot at `index` in the last frame.
    pub fn is_hovered(&self, index: usize) -> (flag: bool)
        requires
            self.wf(),
            index < NUM_TEXICONS,
        ensures
            flag == self.hov()[index as int],
    {
        self.group.is_hovered(index)
    }

    /// The render benchmark gathered so far.
    pub fn get_benchmark(&self) -> (b: Benchmark)
        ensures
            b == self.bench(),
    {
        self.group.benchmark()
    }
}

} // verus!
