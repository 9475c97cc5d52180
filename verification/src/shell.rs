//! The three-column shell: which page is current, the per-page visibility flags
//! that gate background polling, lazy page construction, the collapsible columns,
//! and the public-IP slot captions of the sidebar card.

use vstd::prelude::*;
use crate::nav::{SecmPage, all_pages_spec, page_index_spec, PAGE_COUNT};
use crate::theme::{toggled_spec, Appearance};

verus! {

/// Navigation state: the current page, the visibility flag of each page (indexed as
/// `SecmPage::all()`), and which page views have been built.
pub struct ShellNav {
    current: SecmPage,
    flags: Vec<bool>,
    built: Vec<bool>,
}

impl ShellNav {
    pub closed spec fn current_spec(&self) -> SecmPage {
        self.current
    }

    pub closed spec fn flags_spec(&self) -> Seq<bool> {
        self.flags@
    }

    pub closed spec fn built_spec(&self) -> Seq<bool> {
        self.built@
    }

    /// Exactly the current page is flagged visible, and the current page is built.
    pub closed spec fn wf(&self) -> bool {
        &&& self.flags@.len() == PAGE_COUNT
        &&& self.built@.len() == PAGE_COUNT
        &&& forall|i: int| 0 <= i < PAGE_COUNT ==> #[trigger] self.flags@[i] == (all_pages_spec()[i]
            == self.current)
        &&& self.built@[page_index_spec(self.current) as int]
    }

    /// The shell at start-up: the dashboard is current, visible and built.
    pub fn new() -> (r: ShellNav)
        ensures
            r.wf(),
            r.current_spec() == SecmPage::Dashboard,
            forall|i: int| 0 <= i < PAGE_COUNT ==> #[trigger] r.built_spec()[i] == (i == 0),
    {
        let all = SecmPage::all();
        let mut flags: Vec<bool> = Vec::new();
        let mut built: Vec<bool> = Vec::new();
        let mut i: usize = 0;
        while i < all.len()
            invariant
                all@ == all_pages_spec(),
                i <= all@.len(),
                flags@.len() == i,
                built@.len() == i,
                forall|j: int| 0 <= j < i ==> #[trigger] flags@[j] == (all_pages_spec()[j]
                    == SecmPage::Dashboard),
                forall|j: int| 0 <= j < i ==> #[trigger] built@[j] == (j == 0),
            decreases all@.len() - i,
        {
            flags.push(all[i] == SecmPage::Dashboard);
            built.push(i == 0);
            i = i + 1;
        }
        ShellNav { current: SecmPage::Dashboard, flags, built }
    }

    /// The current page.
    pub fn current(&self) -> (p: SecmPage)
        ensures
            p == self.current_spec(),
    {
        self.current
    }

    /// Whether page `p` is flagged visible (its polling runs).
    pub fn is_active(&self, p: SecmPage) -> (b: bool)
        requires
            self.wf(),
        ensures
            b == (p == self.current_spec()),
    {
        self.flags[p.index()]
    }

    /// Whether the view of page `p` has been built.
    pub fn is_built(&self, p: SecmPage) -> (b: bool)
        requires
            self.wf(),
        ensures
            b == self.built_spec()[page_index_spec(p) as int],
    {
        self.built[p.index()]
    }

    /// Switches to page `p`: the old page stops polling, the new one starts, and its
    /// view is built on first visit. Returns whether anything changed (the view must
    /// be built by the caller when it was not yet).
    pub fn navigate_to(&mut self, p: SecmPage) -> (changed: bool)
        requires
            old(self).wf(),
        ensures
            final(self).wf(),
            changed == (p != old(self).current_spec()),
            final(self).current_spec() == p,
            forall|i: int| 0 <= i < PAGE_COUNT ==> #[trigger] final(self).built_spec()[i] == (old(
                self,
            ).built_spec()[i] || i == page_index_spec(p)),
    {
        if p == self.current {
            return false;
        }
        let old_i = self.current.index();
        let new_i = p.index();
        self.flags.set(old_i, false);
        self.flags.set(new_i, true);
        self.built.set(new_i, true);
        self.current = p;
        proof {
            assert forall|i: int| 0 <= i < PAGE_COUNT implies #[trigger] self.flags@[i] == (
            all_pages_spec()[i] == self.current) by {
                crate::nav::lemma_all_pages_index(p, i);
                crate::nav::lemma_all_pages_index(old(self).current, i);
            }
        }
        true
    }
}

/// The current page's view is always built (the navigation invariant as callers
/// see it), and its visibility flag is set.
pub proof fn lemma_current_built(nav: ShellNav)
    requires
        nav.wf(),
    ensures
        nav.built_spec()[page_index_spec(nav.current_spec()) as int],
        nav.flags_spec()[page_index_spec(nav.current_spec()) as int],
{
    crate::nav::lemma_all_pages_index(nav.current_spec(), page_index_spec(nav.current_spec()) as int);
}

/// Whatever page sequence is visited, exactly one page is flagged visible: the one
/// navigated to last.
pub proof fn lemma_single_active_page(nav: ShellNav, p: SecmPage, q: SecmPage)
    requires
        nav.wf(),
        nav.current_spec() == p,
    ensures
        nav.flags_spec()[page_index_spec(q) as int] <==> q == p,
{
    crate::nav::lemma_all_pages_index(q, page_index_spec(q) as int);
}

/// Open/closed state of the two side columns and the appearance.
pub struct ShellChrome {
    pub appearance: Appearance,
    pub sidebar_open: bool,
    pub right_open: bool,
}

impl ShellChrome {
    /// Dark appearance with both columns open.
    pub fn new() -> (r: ShellChrome)
        ensures
            r.appearance == Appearance::Dark,
            r.sidebar_open,
            r.right_open,
    {
        ShellChrome { appearance: Appearance::Dark, sidebar_open: true, right_open: true }
    }

    /// The theme button.
    pub fn toggle_theme(&mut self)
        ensures
            final(self).appearance == toggled_spec(old(self).appearance),
            final(self).sidebar_open == old(self).sidebar_open,
            final(self).right_open == old(self).right_open,
    {
        self.appearance = self.appearance.toggled();
    }

    /// The sidebar collapse button.
    pub fn toggle_sidebar(&mut self)
        ensures
            final(self).sidebar_open == !old(self).sidebar_open,
            final(self).appearance == old(self).appearance,
            final(self).right_open == old(self).right_open,
    {
        self.sidebar_open = !self.sidebar_open;
    }

    /// The log panel button.
    pub fn toggle_right(&mut self)
        ensures
            final(self).right_open == !old(self).right_open,
            final(self).appearance == old(self).appearance,
            final(self).sidebar_open == old(self).sidebar_open,
    {
        self.right_open = !self.right_open;
    }
}

/// A public IP slot of the network card: the address (empty when unknown) and the
/// diagnosis of a failed lookup (empty on success).
#[derive(Debug)]
pub struct PublicIpEntry {
    pub ip: String,
    pub diag: String,
}

/// Address caption of a slot: the address, or `—` when unknown.
pub fn label_ip(e: &PublicIpEntry) -> (r: String)
    ensures
        r@ == (if e.ip@.len() == 0 { "—"@ } else { e.ip@ }),
{
    if e.ip.as_str().is_empty() {
        String::from_str("—")
    } else {
        e.ip.clone()
    }
}

/// Failure mark of a slot: `失败` when the lookup failed, else empty.
pub fn fail_of(e: &PublicIpEntry) -> (r: String)
    ensures
        r@ == (if e.diag@.len() > 0 { "失败"@ } else { Seq::<char>::empty() }),
{
    if !e.diag.as_str().is_empty() {
        String::from_str("失败")
    } else {
        String::new()
    }
}

/// What a click on a disk row of the hardware page does.
#[derive(Debug, Clone, Copy, PartialEq, Eq, Structural)]
pub enum DetailAction {
    /// The details are shown: hide them.
    Collapse,
    /// Read the S.M.A.R.T. details.
    Load,
    /// Another read is in progress: ignore the click.
    Ignore,
}

/// Detail toggle of a disk row: collapse when expanded, else read (one read at a time).
pub fn detail_action(expanded: bool, reading: bool) -> (r: DetailAction)
    ensures
        r == (if expanded {
            DetailAction::Collapse
        } else if reading {
            DetailAction::Ignore
        } else {
            DetailAction::Load
        }),
{
    if expanded {
        DetailAction::Collapse
    } else if reading {
        DetailAction::Ignore
    } else {
        DetailAction::Load
    }
}

} // verus!
