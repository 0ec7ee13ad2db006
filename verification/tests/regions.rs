use texicon_demo::geometry::Rect;
use texicon_demo::group::Interaction;
use texicon_demo::group::SlotGroup;
use texicon_demo::style::ColorRole;
use texicon_demo::style::ImageId;
use texicon_demo::style::SenseMode;
use texicon_demo::texi_central_menu;
use texicon_demo::texi_centralbar;
use texicon_demo::texi_side_menu;
use texicon_demo::texi_sidebar;
use texicon_demo::texi_top_menu;

fn quiet_frame(count: usize) -> Vec<Interaction> {
    vec![Interaction { clicked: false, hovered: false }; count]
}

#[test]
fn benchmark_accumulates_durations() {
    // After frames of 120, 80 and 100 microseconds: count 3, sum 300,
    // average 100.
    let durations: [u64; 3] = [120, 80, 100];
    let mut state = texi_top_menu::TexiState::new();
    let region = Rect { min_x: 0, min_y: 0, width: 770, height: 150 };
    for &d in &durations {
        state.draw_texicons(&region, &quiet_frame(4), d);
    }
    let bench = state.get_benchmark();
    assert_eq!(bench.count, 3);
    assert_eq!(bench.sum, 300);
    assert_eq!(bench.average, 100);
}

#[test]
fn benchmark_average_rounds_down() {
    let mut group = SlotGroup::new(1);
    group.record_frame(5);
    group.record_frame(4);
    let bench = group.benchmark();
    assert_eq!(bench.count, 2);
    assert_eq!(bench.sum, 9);
    assert_eq!(bench.average, 4);
}

#[test]
fn benchmark_saturates_instead_of_wrapping() {
    let mut group = SlotGroup::new(1);
    group.record_frame(u64::MAX - 10);
    group.record_frame(100);
    let bench = group.benchmark();
    assert_eq!(bench.count, 2);
    assert_eq!(bench.sum, u64::MAX);
}

#[test]
fn fresh_benchmark_is_zero() {
    let bench = texi_side_menu::TexiState::new().get_benchmark();
    assert_eq!(bench.count, 0);
    assert_eq!(bench.sum, 0);
    assert_eq!(bench.average, 0);
}

#[test]
fn top_menu_text_grows_with_slot_index() {
    // Label size 11 + 2 * index, image-label gap 5 + 2 * index.
    for i in 0..4 {
        let style = texi_top_menu::slot_style(i);
        assert_eq!(style.text_size, 11 + 2 * i as u32);
        assert_eq!(style.img_text_gap, 5 + 2 * i as u32);
        assert_eq!(style.img_scale_hover_percent, 105);
        assert_eq!(style.frame_width, 2);
        assert_eq!(style.corner_radius, Some(4));
        assert!(style.enabled);
    }
}

#[test]
fn side_menu_styling_is_uniform() {
    let first = texi_side_menu::slot_style(0);
    for i in 1..4 {
        assert_eq!(texi_side_menu::slot_style(i), first);
    }
    assert_eq!(first.img_scale_hover_percent, 110);
    assert_eq!(first.background.selected, ColorRole::Crust);
    assert_eq!(first.frame_color.normal, ColorRole::Surface0);
    assert_eq!(first.img_size, None);
}

#[test]
fn central_menu_styling_is_heterogeneous() {
    let s0 = texi_central_menu::slot_style(0);
    assert_eq!(s0.sense, Some(SenseMode::ImageAndText));
    assert_eq!(s0.background.normal, ColorRole::Red);
    assert_eq!(s0.frame_size.height, 150);
    assert_eq!(s0.tooltip_gap, 40);

    let s1 = texi_central_menu::slot_style(1);
    assert_eq!(s1.sense, Some(SenseMode::Frame));
    assert_eq!(s1.background.normal, ColorRole::RedFaint);
    assert_eq!(s1.text_color, None);
    assert_eq!(s1.img_scale_hover_percent, 130);
    assert_eq!(s1.corner_radius, Some(0));

    let s2 = texi_central_menu::slot_style(2);
    assert_eq!(s2.corner_radius, Some(20));
    assert_eq!(s2.img_tint.normal, ColorRole::Blue);

    let s3 = texi_central_menu::slot_style(3);
    assert_eq!(s3.frame_size.width, 120);
    assert_eq!(s3.img_tint.selected, ColorRole::Yellow);

    let s4 = texi_central_menu::slot_style(4);
    assert!(!s4.enabled);
    assert_eq!(s4.frame_color.hovered, ColorRole::Crust);
}

#[test]
fn region_slot_descriptors() {
    assert_eq!(texi_top_menu::slot_label(0), "Undersized text");
    assert_eq!(texi_top_menu::slot_label(3), "Extra large text");
    assert_eq!(texi_top_menu::slot_image(3), ImageId::GearLight);
    assert_eq!(
        texi_top_menu::slot_tooltip(1),
        "This is a tooltip for the clock icon."
    );

    assert_eq!(texi_side_menu::slot_label(1), "Timing Stuff");
    assert_eq!(texi_side_menu::slot_image(0), ImageId::TestTube);
    assert_eq!(
        texi_side_menu::slot_tooltip(0),
        "Text wrapping and centering for long words."
    );

    assert_eq!(texi_central_menu::slot_label(0), None);
    assert_eq!(texi_central_menu::slot_label(1), None);
    assert_eq!(texi_central_menu::slot_label(2), Some("FILTERING"));
    assert_eq!(texi_central_menu::slot_label(4), Some("Documents (disabled)"));
    assert_eq!(texi_central_menu::slot_image(4), ImageId::Article);

    assert_eq!(texi_sidebar::slot_label(2), "Filtering");
    assert_eq!(texi_sidebar::slot_image(3), ImageId::Gear);
    assert_eq!(texi_centralbar::slot_label(2), "FILTERING");
    assert_eq!(
        texi_centralbar::slot_tooltip(4),
        "This is a tooltip for the ducuments icon."
    );
}

#[test]
fn sidebar_vertical_rects() {
    let mut states = Vec::new();
    texi_sidebar::init_texicons(&mut states);
    let region = Rect { min_x: 0, min_y: 0, width: 150, height: 600 };
    let rects = texi_sidebar::draw_texicons(&mut states, &region, &quiet_frame(4));
    assert_eq!(rects.len(), 4);
    assert_eq!(rects[0].min_y, 95);
    assert_eq!(rects[3].min_y, 425);
    assert_eq!(rects[0].min_x, 40);
    // The quiet frame leaves the initial selection in place.
    assert!(states[0].selected);
}

#[test]
fn centralbar_five_slots() {
    let mut states = Vec::new();
    texi_centralbar::init_texicons(&mut states);
    assert_eq!(states.len(), 5);
    let region = Rect { min_x: 0, min_y: 0, width: 1000, height: 400 };
    let mut reports = quiet_frame(5);
    reports[4] = Interaction { clicked: true, hovered: true };
    let rects = texi_centralbar::draw_texicons(&mut states, &region, &reports);
    // Total extent 620: the first slot starts at 500 - 310 = 190.
    assert_eq!(rects[0].min_x, 190);
    assert_eq!(rects[4].min_x, 190 + 4 * 130);
    let flags: Vec<bool> = states.iter().map(|s| s.selected).collect();
    assert_eq!(flags, vec![false, false, false, false, true]);
}
