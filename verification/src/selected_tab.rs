use vstd::prelude::*;

verus! {

/// Which view of the display is selected: the live status list or the
/// per-site history chart.
#[derive(Copy, Clone, PartialEq, Eq, Structural, Debug)]
pub enum SelectedTab {
    Live,
    Chart,
}

/// The tab one step forward of `t`; saturates at `Chart`.
pub open spec fn spec_next_tab(t: SelectedTab) -> SelectedTab {
    match t {
        SelectedTab::Live => SelectedTab::Chart,
        SelectedTab::Chart => SelectedTab::Chart,
    }
}

/// The tab one step back of `t`; saturates at `Live`.
pub open spec fn spec_prev_tab(t: SelectedTab) -> SelectedTab {
    match t {
        SelectedTab::Live => SelectedTab::Live,
        SelectedTab::Chart => SelectedTab::Live,
    }
}

impl SelectedTab {
    /// The tab one step forward, staying at `Chart` once there.
    pub fn next(self) -> (r: SelectedTab)
        ensures
            r == spec_next_tab(self),
    {
        match self {
            SelectedTab::Live => SelectedTab::Chart,
            SelectedTab::Chart => SelectedTab::Chart,
        }
    }

    /// The tab one step back, staying at `Live` once there.
    pub fn prev(self) -> (r: SelectedTab)
        ensures
            r == spec_prev_tab(self),
    {
        match self {
            SelectedTab::Live => SelectedTab::Live,
            SelectedTab::Chart => SelectedTab::Live,
        }
    }

    /// The label under which the tab is shown.
    pub fn label(self) -> (r: String)
        ensures
            self == SelectedTab::Live ==> r@ == "Live"@,
            self == SelectedTab::Chart ==> r@ == "Chart"@,
    {
        match self {
            SelectedTab::Live => "Live".to_owned(),
            SelectedTab::Chart => "Chart".to_owned(),
        }
    }
}

} // verus!
