use vstd::prelude::*;
use vstd::string::*;

verus! {

/// The tabs of the dashboard, in display order.
#[derive(Debug, Clone, Copy, PartialEq, Eq, Structural)]
pub enum SelectedTab {
    Overview,
    Exchanges,
    Queues,
}

impl Default for SelectedTab {
    fn default() -> (r: SelectedTab)
        ensures
            r == SelectedTab::Overview,
    {
        SelectedTab::Overview
    }
}

/// The tab one to the left, stopping at the first.
pub open spec fn tab_before(tab: SelectedTab) -> SelectedTab {
    match tab {
        SelectedTab::Overview => SelectedTab::Overview,
        SelectedTab::Exchanges => SelectedTab::Overview,
        SelectedTab::Queues => SelectedTab::Exchanges,
    }
}

/// The tab one to the right, stopping at the last.
pub open spec fn tab_after(tab: SelectedTab) -> SelectedTab {
    match tab {
        SelectedTab::Overview => SelectedTab::Exchanges,
        SelectedTab::Exchanges => SelectedTab::Queues,
        SelectedTab::Queues => SelectedTab::Queues,
    }
}

impl SelectedTab {
    /// Position of the tab in display order.
    pub open spec fn spec_index(self) -> nat {
        match self {
            SelectedTab::Overview => 0,
            SelectedTab::Exchanges => 1,
            SelectedTab::Queues => 2,
        }
    }

    /// The name shown for the tab.
    pub open spec fn spec_name(self) -> Seq<char> {
        match self {
            SelectedTab::Overview => "Overview"@,
            SelectedTab::Exchanges => "Exchanges"@,
            SelectedTab::Queues => "Queues"@,
        }
    }

    /// Position of the tab in display order.
    pub fn index(self) -> (r: usize)
        ensures
            r == self.spec_index(),
    {
        match self {
            SelectedTab::Overview => 0,
            SelectedTab::Exchanges => 1,
            SelectedTab::Queues => 2,
        }
    }

    /// The tab at a position; `None` past the last tab.
    pub fn from_repr(index: usize) -> (r: Option<SelectedTab>)
        ensures
            index < 3 ==> r.is_some() && r.unwrap().spec_index() == index,
            index >= 3 ==> r.is_none(),
    {
        if index == 0 {
            Some(SelectedTab::Overview)
        } else if index == 1 {
            Some(SelectedTab::Exchanges)
        } else if index == 2 {
            Some(SelectedTab::Queues)
        } else {
            None
        }
    }

    /// The tab before this one; the first tab is its own predecessor.
    pub fn previous(self) -> (r: SelectedTab)
        ensures
            r == tab_before(self),
            r.spec_index() == if self.spec_index() == 0 {
                0
            } else {
                self.spec_index() - 1
            },
    {
        let current_index: usize = self.index();
        let previous_index: usize = current_index.saturating_sub(1);
        match SelectedTab::from_repr(previous_index) {
            Some(tab) => tab,
            None => self,
        }
    }

    /// The tab after this one; the last tab is its own successor.
    pub fn next(self) -> (r: SelectedTab)
        ensures
            r == tab_after(self),
            r.spec_index() == if self.spec_index() == 2 {
                2
            } else {
                self.spec_index() + 1
            },
    {
        let current_index: usize = self.index();
        let next_index: usize = current_index.saturating_add(1);
        match SelectedTab::from_repr(next_index) {
            Some(tab) => tab,
            None => self,
        }
    }

    /// Every tab, in display order.
    pub fn all() -> (r: Vec<SelectedTab>)
        ensures
            r@.len() == 3,
            forall|i: int| 0 <= i < 3 ==> (#[trigger] r@[i]).spec_index() == i,
    {
        let mut r: Vec<SelectedTab> = Vec::new();
        r.push(SelectedTab::Overview);
        r.push(SelectedTab::Exchanges);
        r.push(SelectedTab::Queues);
        r
    }

    /// The name shown for the tab.
    pub fn name(self) -> (r: &'static str)
        ensures
            r@ == self.spec_name(),
    {
        match self {
            SelectedTab::Overview => "Overview",
            SelectedTab::Exchanges => "Exchanges",
            SelectedTab::Queues => "Queues",
        }
    }

    /// The name with two spaces on either side, as the tab bar shows it.
    pub fn title(self) -> (r: String)
        ensures
            r@ == "  "@ + self.spec_name() + "  "@,
    {
        let pad = String::from_str("  ");
        pad.concat(self.name()).concat("  ")
    }
}

} // verus!
