//! The side panel at the left of the window.

use vstd::prelude::*;

verus! {

/// The side panel and the widths, in logical units, between which the user
/// may drag it.
#[derive(Clone, Copy, Debug, PartialEq, Eq, Structural)]
pub struct LeftPanel {
    min_width: u32,
    max_width: u32,
    default_width: u32,
    resizable: bool,
}

impl LeftPanel {
    /// The widths of the panel are in order.
    pub closed spec fn wf(self) -> bool {
        self.min_width <= self.default_width <= self.max_width
    }

    pub closed spec fn spec_min_width(self) -> u32 {
        self.min_width
    }

    pub closed spec fn spec_max_width(self) -> u32 {
        self.max_width
    }

    pub closed spec fn spec_default_width(self) -> u32 {
        self.default_width
    }

    pub closed spec fn spec_resizable(self) -> bool {
        self.resizable
    }

    /// The panel every viewer starts with.
    pub closed spec fn new_spec() -> LeftPanel {
        LeftPanel { min_width: 200, max_width: 500, default_width: 260, resizable: true }
    }

    /// A resizable panel that starts 260 units wide and can be dragged to
    /// any width from 200 to 500 units.
    pub fn new() -> (panel: LeftPanel)
        ensures
            panel == Self::new_spec(),
            panel.wf(),
            panel.spec_min_width() == 200,
            panel.spec_max_width() == 500,
            panel.spec_default_width() == 260,
            panel.spec_resizable(),
    {
        LeftPanel { min_width: 200, max_width: 500, default_width: 260, resizable: true }
    }

    pub fn min_width(&self) -> (width: u32)
        ensures
            width == self.spec_min_width(),
    {
        self.min_width
    }

    pub fn max_width(&self) -> (width: u32)
        ensures
            width == self.spec_max_width(),
    {
        self.max_width
    }

    pub fn default_width(&self) -> (width: u32)
        ensures
            width == self.spec_default_width(),
    {
        self.default_width
    }

    pub fn resizable(&self) -> (resizable: bool)
        ensures
            resizable == self.spec_resizable(),
    {
        self.resizable
    }
}

} // verus!
