use texicon_demo::geometry::layout_slots;
use texicon_demo::geometry::slot_rect;
use texicon_demo::geometry::total_extent;
use texicon_demo::geometry::Axis;
use texicon_demo::geometry::Rect;
use texicon_demo::geometry::SlotGeometry;
use texicon_demo::texi_central_menu;
use texicon_demo::texi_side_menu;
use texicon_demo::texi_top_menu;

fn top_bar_geometry() -> SlotGeometry {
    SlotGeometry {
        axis: Axis::Horizontal,
        slot_width: 140,
        slot_height: 120,
        gap: 30,
        count: 4,
    }
}

#[test]
fn total_extent_top_bar() {
    // 4 slots of 140 units with three 30-unit gaps between them.
    assert_eq!(total_extent(&top_bar_geometry()), 4 * 140 + 3 * 30);
    assert_eq!(total_extent(&top_bar_geometry()), 650);
}

#[test]
fn scenario_top_bar_in_770_wide_region() {
    // A 770-unit wide region: the leftmost slot's left edge sits at
    // center - 650 / 2 = 385 - 325 = 60.
    let region = Rect { min_x: 0, min_y: 0, width: 770, height: 150 };
    let rects = layout_slots(&region, &top_bar_geometry());
    assert_eq!(rects.len(), 4);
    assert_eq!(rects[0].min_x, 60);
    assert_eq!(rects[1].min_x, 60 + 170);
    assert_eq!(rects[2].min_x, 60 + 2 * 170);
    assert_eq!(rects[3].min_x, 60 + 3 * 170);
    for r in &rects {
        assert_eq!(r.width, 140);
        assert_eq!(r.height, 120);
        // Cross-axis centering: 75 - 60.
        assert_eq!(r.min_y, 15);
    }
}

#[test]
fn centering_on_layout_axis() {
    // Leftmost coordinate plus half the total extent lands on the region
    // center, for several region widths and offsets.
    for &(min_x, width) in &[(0i64, 770i64), (100, 2000), (-35, 651), (7, 650)] {
        let region = Rect { min_x, min_y: 0, width, height: 200 };
        let geom = top_bar_geometry();
        let extent = total_extent(&geom);
        let first = slot_rect(&region, &geom, 0);
        let center = min_x + width / 2;
        assert_eq!(first.min_x + extent / 2, center);
    }
}

#[test]
fn vertical_layout_centers_on_both_axes() {
    let geom = SlotGeometry {
        axis: Axis::Vertical,
        slot_width: 70,
        slot_height: 80,
        gap: 30,
        count: 4,
    };
    // Total extent: 4 * 80 + 3 * 30 = 410.
    assert_eq!(total_extent(&geom), 410);
    let region = Rect { min_x: 0, min_y: 0, width: 150, height: 600 };
    let rects = layout_slots(&region, &geom);
    // Topmost slot: 300 - 205 = 95; slots advance by 110.
    assert_eq!(rects[0].min_y, 95);
    assert_eq!(rects[1].min_y, 205);
    assert_eq!(rects[2].min_y, 315);
    assert_eq!(rects[3].min_y, 425);
    // Cross axis: 75 - 35 = 40.
    for r in &rects {
        assert_eq!(r.min_x, 40);
    }
}

#[test]
fn layout_in_region_smaller_than_group() {
    // A region narrower than the group: the start coordinate goes negative
    // and centering still holds.
    let region = Rect { min_x: 0, min_y: 0, width: 300, height: 150 };
    let geom = top_bar_geometry();
    let rects = layout_slots(&region, &geom);
    assert_eq!(rects[0].min_x, 150 - 325);
    assert_eq!(rects[0].min_x + total_extent(&geom) / 2, 150);
}

#[test]
fn region_geometry_constants() {
    let top = texi_top_menu::geometry();
    assert_eq!(top.axis, Axis::Horizontal);
    assert_eq!(top.slot_width, 140);
    assert_eq!(top.slot_height, 120);
    assert_eq!(top.gap, 30);
    assert_eq!(top.count, 4);

    let side = texi_side_menu::geometry();
    assert_eq!(side.axis, Axis::Vertical);
    assert_eq!(side.slot_width, 70);
    assert_eq!(side.slot_height, 80);
    assert_eq!(side.gap, 30);
    assert_eq!(side.count, 4);

    let central = texi_central_menu::geometry();
    assert_eq!(central.axis, Axis::Horizontal);
    assert_eq!(central.slot_width, 100);
    assert_eq!(central.slot_height, 100);
    assert_eq!(central.gap, 30);
    assert_eq!(central.count, 5);
}

#[test]
fn central_menu_extent() {
    // 5 slots of 100 units with four 30-unit gaps: 620 units.
    assert_eq!(total_extent(&texi_central_menu::geometry()), 620);
}
