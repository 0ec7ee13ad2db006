//! Rectangle layout for an ordered group of fixed-size slots.
//!
//! A group of `count` slots, each `slot_width` by `slot_height` units, is
//! laid out along one axis with `gap` units between consecutive slots.  The
//! whole group is centered in an available region on the layout axis, and
//! every slot is centered individually on the cross axis.  Coordinates are
//! whole units; the host turns them into its own screen coordinates.

use vstd::prelude::*;

verus! {

/// Largest magnitude a region coordinate or region extent may have.
pub const COORD_LIMIT: i64 = 1_000_000_000;

/// Largest size a single slot or inter-slot gap may have.
pub const SPAN_LIMIT: i64 = 1_000_000;

/// Largest number of slots a group may have.
pub const COUNT_LIMIT: usize = 1_000;

/// The axis along which a slot group is laid out.
#[derive(Clone, Copy, Debug, PartialEq, Eq, Structural)]
pub enum Axis {
    Horizontal,
    Vertical,
}

/// An axis-aligned rectangle: minimum corner plus extent.
#[derive(Clone, Copy, Debug, PartialEq, Eq, Structural)]
pub struct Rect {
    pub min_x: i64,
    pub min_y: i64,
    pub width: i64,
    pub height: i64,
}

impl Rect {
    /// Bounds that keep all layout arithmetic far away from overflow.
    pub open spec fn wf(self) -> bool {
        &&& -COORD_LIMIT <= self.min_x <= COORD_LIMIT
        &&& -COORD_LIMIT <= self.min_y <= COORD_LIMIT
        &&& 0 <= self.width <= COORD_LIMIT
        &&& 0 <= self.height <= COORD_LIMIT
    }

    pub open spec fn center_x(self) -> int {
        self.min_x + self.width / 2
    }

    pub open spec fn center_y(self) -> int {
        self.min_y + self.height / 2
    }

    /// The region's center coordinate on the given layout axis.
    pub open spec fn axis_center(self, axis: Axis) -> int {
        match axis {
            Axis::Horizontal => self.center_x(),
            Axis::Vertical => self.center_y(),
        }
    }

    /// The region's center coordinate on the axis perpendicular to `axis`.
    pub open spec fn cross_center(self, axis: Axis) -> int {
        match axis {
            Axis::Horizontal => self.center_y(),
            Axis::Vertical => self.center_x(),
        }
    }
}

/// Geometry parameters of one slot group: per-slot size, inter-slot gap,
/// slot count and layout axis.
#[derive(Clone, Copy, Debug, PartialEq, Eq, Structural)]
pub struct SlotGeometry {
    pub axis: Axis,
    pub slot_width: i64,
    pub slot_height: i64,
    pub gap: i64,
    pub count: usize,
}

impl SlotGeometry {
    pub open spec fn wf(self) -> bool {
        &&& 0 < self.count <= COUNT_LIMIT
        &&& 0 <= self.slot_width <= SPAN_LIMIT
        &&& 0 <= self.slot_height <= SPAN_LIMIT
        &&& 0 <= self.gap <= SPAN_LIMIT
    }

    /// The slot extent on the layout axis.
    pub open spec fn on_axis(self) -> int {
        match self.axis {
            Axis::Horizontal => self.slot_width as int,
            Axis::Vertical => self.slot_height as int,
        }
    }

    /// The slot extent on the cross axis.
    pub open spec fn cross(self) -> int {
        match self.axis {
            Axis::Horizontal => self.slot_height as int,
            Axis::Vertical => self.slot_width as int,
        }
    }

    /// Total extent of the group on the layout axis: all slots plus the
    /// gaps between consecutive slots.
    pub open spec fn extent(self) -> int {
        self.on_axis() * self.count + self.gap * (self.count - 1)
    }
}

/// Starting coordinate of the group on the layout axis: the region center
/// pulled back by half the total extent, so the group sits centered.
pub open spec fn group_start(region: Rect, geom: SlotGeometry) -> int {
    region.axis_center(geom.axis) - geom.extent() / 2
}

/// Coordinate of slot `index` on the layout axis.
pub open spec fn slot_start(region: Rect, geom: SlotGeometry, index: int) -> int {
    group_start(region, geom) + index * (geom.on_axis() + geom.gap)
}

/// Coordinate of every slot on the cross axis: perfect centering.
pub open spec fn cross_start(region: Rect, geom: SlotGeometry) -> int {
    region.cross_center(geom.axis) - geom.cross() / 2
}

/// The on-screen rectangle of slot `index`.
pub open spec fn slot_rect_at(region: Rect, geom: SlotGeometry, index: int) -> Rect {
    match geom.axis {
        Axis::Horizontal => Rect {
            min_x: slot_start(region, geom, index) as i64,
            min_y: cross_start(region, geom) as i64,
            width: geom.slot_width,
            height: geom.slot_height,
        },
        Axis::Vertical => Rect {
            min_x: cross_start(region, geom) as i64,
            min_y: slot_start(region, geom, index) as i64,
            width: geom.slot_width,
            height: geom.slot_height,
        },
    }
}

proof fn lemma_mul_le(a: int, b: int, a_max: int, b_max: int)
    requires
        0 <= a <= a_max,
        0 <= b <= b_max,
    ensures
        0 <= a * b <= a_max * b_max,
{
    assert(0 <= a * b <= a_max * b_max) by (nonlinear_arith)
        requires
            0 <= a <= a_max,
            0 <= b <= b_max,
    ;
}

/// The group extent is nonnegative and bounded, so all derived coordinates
/// stay well inside the `i64` range.
pub proof fn lemma_extent_bounds(geom: SlotGeometry)
    requires
        geom.wf(),
    ensures
        0 <= geom.on_axis() * geom.count <= 1_000_000_000,
        0 <= geom.gap * (geom.count - 1) <= 1_000_000_000,
        0 <= geom.extent() <= 2_000_000_000,
{
    lemma_mul_le(geom.on_axis(), geom.count as int, SPAN_LIMIT as int, COUNT_LIMIT as int);
    lemma_mul_le(geom.gap as int, geom.count - 1, SPAN_LIMIT as int, COUNT_LIMIT as int);
}

/// Slot coordinates are bounded for every index up to the count.
pub proof fn lemma_slot_start_bounds(region: Rect, geom: SlotGeometry, index: int)
    requires
        region.wf(),
        geom.wf(),
        0 <= index <= geom.count,
    ensures
        -4_000_000_000 <= slot_start(region, geom, index) <= 6_000_000_000,
{
    lemma_extent_bounds(geom);
    lemma_mul_le(index, geom.on_axis() + geom.gap, COUNT_LIMIT as int, 2 * SPAN_LIMIT as int);
}

/// Centering: the starting coordinate of the group plus half the total
/// extent lands exactly on the region's center coordinate of the layout
/// axis, whatever the region and the slot parameters are.
pub proof fn lemma_group_centered(region: Rect, geom: SlotGeometry)
    requires
        region.wf(),
        geom.wf(),
    ensures
        group_start(region, geom) + geom.extent() / 2 == region.axis_center(geom.axis),
{
}

/// Consecutive slots sit one slot extent plus one gap apart.
pub proof fn lemma_slot_spacing(region: Rect, geom: SlotGeometry, index: int)
    requires
        region.wf(),
        geom.wf(),
        0 <= index,
        index + 1 <= geom.count,
    ensures
        slot_start(region, geom, index + 1) == slot_start(region, geom, index) + geom.on_axis()
            + geom.gap,
{
    let step = geom.on_axis() + geom.gap;
    assert((index + 1) * step == index * step + step) by (nonlinear_arith);
}

/// Computes the total extent of the group on the layout axis.
pub fn total_extent(geom: &SlotGeometry) -> (extent: i64)
    requires
        geom.wf(),
    ensures
        extent == geom.extent(),
{
    proof {
        lemma_extent_bounds(*geom);
    }
    let on_axis: i64 = match geom.axis {
        Axis::Horizontal => geom.slot_width,
        Axis::Vertical => geom.slot_height,
    };
    let count: i64 = geom.count as i64;
    on_axis * count + geom.gap * (count - 1)
}

/// Computes the rectangle of slot `index`, centered as a member of its group.
pub fn slot_rect(region: &Rect, geom: &SlotGeometry, index: usize) -> (r: Rect)
    requires
        region.wf(),
        geom.wf(),
        index < geom.count,
    ensures
        r == slot_rect_at(*region, *geom, index as int),
{
    proof {
        lemma_extent_bounds(*geom);
        lemma_slot_start_bounds(*region, *geom, index as int);
    }
    let extent: i64 = total_extent(geom);
    let on_axis: i64 = match geom.axis {
        Axis::Horizontal => geom.slot_width,
        Axis::Vertical => geom.slot_height,
    };
    let cross: i64 = match geom.axis {
        Axis::Horizontal => geom.slot_height,
        Axis::Vertical => geom.slot_width,
    };
    let axis_center: i64 = match geom.axis {
        Axis::Horizontal => region.min_x + region.width / 2,
        Axis::Vertical => region.min_y + region.height / 2,
    };
    let cross_center: i64 = match geom.axis {
        Axis::Horizontal => region.min_y + region.height / 2,
        Axis::Vertical => region.min_x + region.width / 2,
    };
    let start: i64 = axis_center - extent / 2;
    proof {
        lemma_mul_le(index as int, geom.on_axis() + geom.gap, COUNT_LIMIT as int, 2 * SPAN_LIMIT as int);
    }
    let on_axis_min: i64 = start + (index as i64) * (on_axis + geom.gap);
    let cross_min: i64 = cross_center - cross / 2;
    match geom.axis {
        Axis::Horizontal => Rect {
            min_x: on_axis_min,
            min_y: cross_min,
            width: geom.slot_width,
            height: geom.slot_height,
        },
        Axis::Vertical => Rect {
            min_x: cross_min,
            min_y: on_axis_min,
            width: geom.slot_width,
            height: geom.slot_height,
        },
    }
}

/// Computes the rectangles of all slots of the group, in slot order.
pub fn layout_slots(region: &Rect, geom: &SlotGeometry) -> (rects: Vec<Rect>)
    requires
        region.wf(),
        geom.wf(),
    ensures
        rects.len() == geom.count,
        forall|i: int|
            0 <= i < geom.count ==> rects[i] == slot_rect_at(*region, *geom, i),
{
    let mut rects: Vec<Rect> = Vec::new();
    let mut index: usize = 0;
    while index < geom.count
        invariant
            region.wf(),
            geom.wf(),
            index <= geom.count,
            rects.len() == index,
            forall|i: int|
                0 <= i < index ==> rects[i] == slot_rect_at(*region, *geom, i),
        decreases geom.count - index,
    {
        let r = slot_rect(region, geom, index);
        rects.push(r);
        index = index + 1;
    }
    rects
}

} // verus!
