use crate::output_fmt::OutputFmt;
use crate::registry::SharedRegistry;
use crate::selected_tab::{spec_next_tab, spec_prev_tab, SelectedTab};
use std::sync::Arc;
use vstd::prelude::*;

verus! {

/// The chart-site index one step forward of `idx` among `n` sites;
/// saturates at the last site (and stays put when no further site exists).
pub open spec fn spec_next_site(idx: usize, n: nat) -> usize {
    if idx + 1 < n {
        (idx + 1) as usize
    } else {
        idx
    }
}

/// The chart-site index one step back of `idx`; saturates at 0.
pub open spec fn spec_prev_site(idx: usize) -> usize {
    if idx == 0 {
        0
    } else {
        (idx - 1) as usize
    }
}

/// The application state: the shared site registry, the output format
/// chosen at startup, the selected tab, the selected chart site and the
/// closing flag. Only the event loop mutates it, through the commands
/// below; the render path reads it every tick.
pub struct App {
    pub sites: Arc<SharedRegistry>,
    pub output_fmt: OutputFmt,
    pub selected_tab: SelectedTab,
    pub selected_chart_site_idx: usize,
    pub closing: bool,
}

impl App {
    /// How many sites the registry holds; fixed after startup.
    pub open spec fn num_sites(&self) -> nat {
        (*self.sites).ids().len()
    }

    /// The selected chart site is 0 when no site exists, otherwise a valid
    /// index into the registry.
    pub open spec fn wf(&self) -> bool {
        self.selected_chart_site_idx == 0 || (self.selected_chart_site_idx as nat)
            < self.num_sites()
    }

    /// The initial application state over `registry`: live tab selected,
    /// first chart site selected, not closing.
    pub fn new(registry: SharedRegistry, output_fmt: OutputFmt) -> (r: App)
        ensures
            (*r.sites).ids() == registry.ids(),
            r.output_fmt == output_fmt,
            r.selected_tab == SelectedTab::Live,
            r.selected_chart_site_idx == 0,
            !r.closing,
            r.wf(),
    {
        App {
            sites: Arc::new(registry),
            output_fmt,
            selected_tab: SelectedTab::Live,
            selected_chart_site_idx: 0,
            closing: false,
        }
    }

    /// Move the tab selection one step forward, saturating at `Chart`.
    pub fn next_tab(&mut self)
        ensures
            *final(self) == (App {
                selected_tab: spec_next_tab(old(self).selected_tab),
                ..*old(self)
            }),
    {
        self.selected_tab = self.selected_tab.next();
    }

    /// Move the tab selection one step back, saturating at `Live`.
    pub fn prev_tab(&mut self)
        ensures
            *final(self) == (App {
                selected_tab: spec_prev_tab(old(self).selected_tab),
                ..*old(self)
            }),
    {
        self.selected_tab = self.selected_tab.prev();
    }

    pub fn get_selected_chart_site_idx(&self) -> (r: usize)
        ensures
            r == self.selected_chart_site_idx,
    {
        self.selected_chart_site_idx
    }

    /// Select the next chart site, unless already at the last one.
    pub fn next_chart_site(&mut self)
        ensures
            *final(self) == (App {
                selected_chart_site_idx: spec_next_site(
                    old(self).selected_chart_site_idx,
                    old(self).num_sites(),
                ),
                ..*old(self)
            }),
            old(self).wf() ==> final(self).wf(),
    {
        let n = self.sites.len();
        if n > 0 && self.selected_chart_site_idx < n - 1 {
            self.selected_chart_site_idx += 1;
        }
    }

    /// Select the previous chart site, unless already at the first one.
    pub fn prev_chart_site(&mut self)
        ensures
            *final(self) == (App {
                selected_chart_site_idx: spec_prev_site(old(self).selected_chart_site_idx),
                ..*old(self)
            }),
            old(self).wf() ==> final(self).wf(),
    {
        if self.selected_chart_site_idx > 0 {
            self.selected_chart_site_idx -= 1;
        }
    }

    /// Begin shutting down; a one-way transition the event loop consumes.
    pub fn close(&mut self)
        ensures
            *final(self) == (App { closing: true, ..*old(self) }),
    {
        self.closing = true;
    }

    pub fn is_closing(&self) -> (r: bool)
        ensures
            r == self.closing,
    {
        self.closing
    }

    /// Dispatch one key press to the matching command: `q` quits, `l` and
    /// `h` move the tab selection, `j` and `k` move the chart-site
    /// selection while the chart tab is selected; every other key is
    /// ignored.
    pub fn handle_key(&mut self, key: char)
        ensures
            key == 'q' ==> *final(self) == (App { closing: true, ..*old(self) }),
            key == 'l' ==> *final(self) == (App {
                selected_tab: spec_next_tab(old(self).selected_tab),
                ..*old(self)
            }),
            key == 'h' ==> *final(self) == (App {
                selected_tab: spec_prev_tab(old(self).selected_tab),
                ..*old(self)
            }),
            key == 'j' ==> *final(self) == if old(self).selected_tab == SelectedTab::Chart {
                (App {
                    selected_chart_site_idx: spec_next_site(
                        old(self).selected_chart_site_idx,
                        old(self).num_sites(),
                    ),
                    ..*old(self)
                })
            } else {
                *old(self)
            },
            key == 'k' ==> *final(self) == if old(self).selected_tab == SelectedTab::Chart {
                (App {
                    selected_chart_site_idx: spec_prev_site(old(self).selected_chart_site_idx),
                    ..*old(self)
                })
            } else {
                *old(self)
            },
            !(key == 'q' || key == 'l' || key == 'h' || key == 'j' || key == 'k') ==> *final(self)
                == *old(self),
            old(self).wf() ==> final(self).wf(),
    {
        match key {
            'q' => self.close(),
            'l' => self.next_tab(),
            'h' => self.prev_tab(),
            'j' => {
                if self.selected_tab == SelectedTab::Chart {
                    self.next_chart_site();
                }
            },
            'k' => {
                if self.selected_tab == SelectedTab::Chart {
                    self.prev_chart_site();
                }
            },
            _ => {},
        }
    }
}

/// Law: navigation saturates at the boundaries: moving the tab forward at
/// `Chart` or back at `Live`, and moving the chart site forward at the
/// last site or back at the first, leave the selection unchanged, however
/// often they are repeated.
pub proof fn lemma_navigation_saturates(idx: usize, n: nat)
    ensures
        spec_next_tab(SelectedTab::Chart) == SelectedTab::Chart,
        spec_prev_tab(SelectedTab::Live) == SelectedTab::Live,
        idx + 1 >= n ==> spec_next_site(idx, n) == idx,
        spec_prev_site(0) == 0,
{
}

} // verus!
