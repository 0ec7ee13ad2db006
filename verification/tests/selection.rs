use texicon_demo::geometry::Rect;
use texicon_demo::group::Interaction;
use texicon_demo::group::SlotGroup;
use texicon_demo::slot_state::fold_click_states;
use texicon_demo::slot_state::SlotState;
use texicon_demo::texi_top_menu::TexiState;
use texicon_demo::texi_topbar;
use texicon_demo::TexiconDemoApp;

fn frame(reports: &[(bool, bool)]) -> Vec<Interaction> {
    reports
        .iter()
        .map(|&(clicked, hovered)| Interaction { clicked, hovered })
        .collect()
}

fn no_clicks(count: usize) -> Vec<Interaction> {
    frame(&vec![(false, false); count])
}

fn click_at(count: usize, index: usize) -> Vec<Interaction> {
    let mut reports = vec![(false, false); count];
    reports[index] = (true, false);
    frame(&reports)
}

fn selected_flags(group: &SlotGroup) -> Vec<bool> {
    (0..group.slot_count()).map(|i| group.is_selected(i)).collect()
}

#[test]
fn initial_state_app() {
    // Immediately after initialization slot 0 is selected and all other
    // slots are unselected, in every region.
    let app = TexiconDemoApp::new();
    for i in 0..4 {
        assert_eq!(app.top_menu.is_selected(i), i == 0);
        assert_eq!(app.side_menu.is_selected(i), i == 0);
        assert!(!app.top_menu.is_hovered(i));
        assert!(!app.side_menu.is_hovered(i));
    }
    for i in 0..5 {
        assert_eq!(app.central_menu.is_selected(i), i == 0);
        assert!(!app.central_menu.is_hovered(i));
    }
}

#[test]
fn initial_state_shared_records() {
    let mut states: Vec<SlotState> = Vec::new();
    texi_topbar::init_texicons(&mut states);
    assert_eq!(states.len(), 4);
    for (i, s) in states.iter().enumerate() {
        assert_eq!(s.selected, i == 0);
    }
}

#[test]
fn bounds_safe_setter_is_a_no_op() {
    // An initial-selection index at or past the slot count leaves all
    // selection state unchanged.
    let mut state = TexiState::new();
    state.set_selected_texicon(1);
    state.set_selected_texicon(4);
    state.set_selected_texicon(usize::MAX);
    for i in 0..4 {
        assert_eq!(state.is_selected(i), i == 1);
    }
}

#[test]
fn single_selection_after_each_click() {
    // Over a sequence of simulated clicks, exactly one slot ends each
    // frame selected: the most recently clicked one.
    let mut group = SlotGroup::new(4);
    group.set_selected(0);
    for &clicked in &[2usize, 0, 3, 3, 1] {
        group.fold_interactions(&click_at(4, clicked));
        let flags = selected_flags(&group);
        assert_eq!(flags.iter().filter(|&&f| f).count(), 1);
        assert!(flags[clicked]);
    }
}

#[test]
fn click_free_frame_keeps_selection() {
    let mut group = SlotGroup::new(4);
    group.set_selected(2);
    group.fold_interactions(&no_clicks(4));
    assert_eq!(selected_flags(&group), vec![false, false, true, false]);
}

#[test]
fn last_click_wins_within_one_frame() {
    // Two clicks in one frame are folded in slot order: the last
    // processed click wins.
    let mut group = SlotGroup::new(4);
    group.set_selected(0);
    let mut reports = vec![(false, false); 4];
    reports[1] = (true, false);
    reports[3] = (true, false);
    group.fold_interactions(&frame(&reports));
    assert_eq!(selected_flags(&group), vec![false, false, false, true]);
}

#[test]
fn scenario_click_slot_two() {
    // A top bar whose slot 0 starts selected: clicking slot index 2 gives
    // selected == [false, false, true, false].
    let region = Rect { min_x: 0, min_y: 0, width: 770, height: 150 };
    let mut state = TexiState::new();
    state.set_selected_texicon(0);
    let rects = state.draw_texicons(&region, &click_at(4, 2), 0);
    assert_eq!(rects[0].min_x, 60);
    let flags: Vec<bool> = (0..4).map(|i| state.is_selected(i)).collect();
    assert_eq!(flags, vec![false, false, true, false]);
}

#[test]
fn hover_is_overwritten_every_frame() {
    let mut state = TexiState::new();
    let region = Rect { min_x: 0, min_y: 0, width: 770, height: 150 };
    let hovered_frame = frame(&[(false, false), (false, true), (false, false), (false, true)]);
    state.draw_texicons(&region, &hovered_frame, 0);
    assert!(!state.is_hovered(0));
    assert!(state.is_hovered(1));
    assert!(state.is_hovered(3));
    // Hover is not sticky: a frame without pointer contact clears it.
    state.draw_texicons(&region, &no_clicks(4), 0);
    for i in 0..4 {
        assert!(!state.is_hovered(i));
    }
}

#[test]
fn shared_records_fold_clicks() {
    let mut states: Vec<SlotState> = Vec::new();
    texi_topbar::init_texicons(&mut states);
    let region = Rect { min_x: 0, min_y: 0, width: 770, height: 150 };
    let rects = texi_topbar::draw_texicons(&mut states, &region, &click_at(4, 2));
    assert_eq!(rects.len(), 4);
    assert_eq!(rects[2].min_x, 400);
    let flags: Vec<bool> = states.iter().map(|s| s.selected).collect();
    assert_eq!(flags, vec![false, false, true, false]);
}

#[test]
fn shared_records_skip_reports_without_record() {
    // A click report for a slot that has no state record is skipped: with
    // only two records, a click at index 3 changes nothing.
    let mut states = vec![SlotState { selected: true }, SlotState { selected: false }];
    fold_click_states(&mut states, &click_at(4, 3));
    assert_eq!(states[0].selected, true);
    assert_eq!(states[1].selected, false);
    // A click at index 1 still reaches its record.
    fold_click_states(&mut states, &click_at(4, 1));
    assert_eq!(states[0].selected, false);
    assert_eq!(states[1].selected, true);
}
