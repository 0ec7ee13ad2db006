//! The application object: one state instance per screen region.
//!
//! Construction performs the one-time initialization that the first frame
//! of the demo needs: every region gets its slot state populated and its
//! first slot selected.  Each frame the host hands every region its panel
//! rectangle and the frame's interaction reports, in a fixed order (top,
//! side, central), through the regions' own per-frame entry points.

use vstd::prelude::*;

use crate::group::all_false;
use crate::group::bench_zero;
use crate::group::is_one_hot;
use crate::group::lemma_first_selection;
use crate::group::select_only;
use crate::texi_central_menu;
use crate::texi_side_menu;
use crate::texi_top_menu;

verus! {

/// One state instance per region of the demo's window.
pub struct TexiconDemoApp {
    pub top_menu: texi_top_menu::TexiState,
    pub side_menu: texi_side_menu::TexiState,
    pub central_menu: texi_central_menu::TexiState,
}

impl TexiconDemoApp {
    /// Creates the application state: every region starts with exactly its
    /// slot 0 selected, nothing hovered, and a fresh benchmark.
    pub fn new() -> (app: TexiconDemoApp)
        ensures
            app.top_menu.wf(),
            app.top_menu.sel() == select_only(texi_top_menu::NUM_TEXICONS as nat, 0),
            is_one_hot(app.top_menu.sel(), 0),
            all_false(app.top_menu.hov()),
            app.top_menu.bench() == bench_zero(),
            app.side_menu.wf(),
            app.side_menu.sel() == select_only(texi_side_menu::NUM_TEXICONS as nat, 0),
            is_one_hot(app.side_menu.sel(), 0),
            all_false(app.side_menu.hov()),
            app.side_menu.bench() == bench_zero(),
            app.central_menu.wf(),
            app.central_menu.sel() == select_only(texi_central_menu::NUM_TEXICONS as nat, 0),
            is_one_hot(app.central_menu.sel(), 0),
            all_false(app.central_menu.hov()),
            app.central_menu.bench() == bench_zero(),
    {
        let mut app = TexiconDemoApp {
            top_menu: texi_top_menu::TexiState::new(),
            side_menu: texi_side_menu::TexiState::new(),
            central_menu: texi_central_menu::TexiState::new(),
        };
        proof {
            lemma_first_selection(app.top_menu.sel(), 0);
            lemma_first_selection(app.side_menu.sel(), 0);
            lemma_first_selection(app.central_menu.sel(), 0);
        }
        app.top_menu.set_selected_texicon(0);
        app.side_menu.set_selected_texicon(0);
        app.central_menu.set_selected_texicon(0);
        app
    }
}

} // verus!
