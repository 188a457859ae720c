//! The admin shell's navigation: the page on show, the page whose data is
//! loading, the open menu groups and the mobile drawer.
//!
//! The pages are numbered: 0 local sources, 1 remote sources, 2 combined
//! subscriptions, 3 the Clash template, 4 (and any larger number) settings.
//! The shell switches to a page only once all the data it needs is there;
//! until then the old page stays and the menu entry spins.
use vstd::prelude::*;

verus! {

/// What the main area shows.
#[derive(Debug, Clone, Copy, PartialEq, Eq, Structural)]
pub enum Page {
    /// A full-page spinner: the page on show has no data yet.
    Loading,
    LocalSources,
    RemoteSources,
    Combineds,
    ClashConfig,
    Config,
}

/// A collapsible menu group: `Subs` holds all subscription pages, `Single`
/// (inside it) the two source pages.
#[derive(Debug, Clone, Copy, PartialEq, Eq, Structural)]
pub enum NavGroup {
    Subs,
    Single,
}

/// The navigation state of the shell.
#[derive(Debug, Clone, Copy, PartialEq, Eq, Structural)]
pub struct NavState {
    /// The page on show.
    pub tab: usize,
    /// The page whose data is loading before it shows.
    pub pending: Option<usize>,
    pub subs_open: bool,
    pub single_open: bool,
    /// The mobile drawer.
    pub menu_open: bool,
}

/// The groups that enclose page `i`: `Subs` for pages 0 to 2, `Single` for
/// pages 0 and 1.
pub open spec fn in_subs(i: usize) -> bool {
    i < 3
}

/// The state on mount: page 0, groups collapsed on a narrow screen and
/// expanded on a wide one.
pub open spec fn initial(mobile: bool) -> NavState {
    NavState { tab: 0, pending: None, subs_open: !mobile, single_open: !mobile, menu_open: false }
}

/// Crossing the narrow-screen breakpoint: narrow collapses both groups; wide
/// expands both and closes the drawer.
pub open spec fn breakpoint(s: NavState, mobile: bool) -> NavState {
    if mobile {
        NavState { subs_open: false, single_open: false, ..s }
    } else {
        NavState { subs_open: true, single_open: true, menu_open: false, ..s }
    }
}

/// A click on the entry of page `i`, where `ready` says whether all the data
/// of page `i` is loaded: the drawer closes; a click on the page on show or
/// on the page already loading changes nothing else; otherwise the groups
/// around the page open and the page shows at once where its data is ready,
/// else it starts loading. The second part is the page to load, if any.
pub open spec fn go(s: NavState, i: usize, ready: bool) -> (NavState, Option<usize>) {
    let closed = NavState { menu_open: false, ..s };
    if s.tab == i || s.pending == Some(i) {
        (closed, None)
    } else {
        let opened = NavState { subs_open: true, single_open: s.single_open || i < 2, ..closed };
        if ready {
            (NavState { tab: i, pending: None, ..opened }, None)
        } else {
            (NavState { pending: Some(i), ..opened }, Some(i))
        }
    }
}

/// On each render: where nothing is loading and some data of the page on
/// show was never requested (`idle`), that page starts loading.
pub open spec fn autoload(s: NavState, idle: bool) -> (NavState, Option<usize>) {
    if s.pending is None && idle {
        (NavState { pending: Some(s.tab), ..s }, Some(s.tab))
    } else {
        (s, None)
    }
}

/// Where the loading page's data has all arrived or failed (`finished`), that
/// page shows.
pub open spec fn settle(s: NavState, finished: bool) -> NavState {
    match s.pending {
        Some(p) => if finished {
            NavState { tab: p, pending: None, ..s }
        } else {
            s
        },
        None => s,
    }
}

/// Opens or closes one menu group.
pub open spec fn toggle(s: NavState, g: NavGroup) -> NavState {
    match g {
        NavGroup::Subs => NavState { subs_open: !s.subs_open, ..s },
        NavGroup::Single => NavState { single_open: !s.single_open, ..s },
    }
}

/// What the main area shows in state `s`.
pub open spec fn page_of(s: NavState) -> Page {
    if s.pending == Some(s.tab) {
        Page::Loading
    } else if s.tab == 0 {
        Page::LocalSources
    } else if s.tab == 1 {
        Page::RemoteSources
    } else if s.tab == 2 {
        Page::Combineds
    } else if s.tab == 3 {
        Page::ClashConfig
    } else {
        Page::Config
    }
}

impl NavState {
    /// The state on mount, on a narrow screen (`mobile`) or a wide one.
    pub fn new(mobile: bool) -> (r: NavState)
        ensures
            r == initial(mobile),
    {
        NavState { tab: 0, pending: None, subs_open: !mobile, single_open: !mobile, menu_open: false }
    }

    /// The screen crossed the narrow-screen breakpoint.
    pub fn on_breakpoint(&mut self, mobile: bool)
        ensures
            *final(self) == breakpoint(*old(self), mobile),
    {
        if mobile {
            self.subs_open = false;
            self.single_open = false;
        } else {
            self.subs_open = true;
            self.single_open = true;
            self.menu_open = false;
        }
    }

    /// A click on the entry of page `i`; `ready` says whether all its data
    /// is loaded. Returns the page whose data the caller must now load.
    pub fn go(&mut self, i: usize, ready: bool) -> (r: Option<usize>)
        ensures
            (*final(self), r) == go(*old(self), i, ready),
    {
        self.menu_open = false;
        if self.tab == i {
            return None;
        }
        if self.pending == Some(i) {
            return None;
        }
        self.subs_open = true;
        if i < 2 {
            self.single_open = true;
        }
        if ready {
            self.pending = None;
            self.tab = i;
            None
        } else {
            self.pending = Some(i);
            Some(i)
        }
    }

    /// On render: `idle` says whether some data of the page on show was
    /// never requested. Returns the page whose data the caller must load.
    pub fn autoload(&mut self, idle: bool) -> (r: Option<usize>)
        ensures
            (*final(self), r) == autoload(*old(self), idle),
    {
        if self.pending.is_none() && idle {
            self.pending = Some(self.tab);
            Some(self.tab)
        } else {
            None
        }
    }

    /// `finished` says whether all the data of the loading page has arrived
    /// or failed.
    pub fn settle(&mut self, finished: bool)
        ensures
            *final(self) == settle(*old(self), finished),
    {
        if let Some(p) = self.pending {
            if finished {
                self.tab = p;
                self.pending = None;
            }
        }
    }

    /// A click on a group's head.
    pub fn toggle_group(&mut self, g: NavGroup)
        ensures
            *final(self) == toggle(*old(self), g),
    {
        match g {
            NavGroup::Subs => self.subs_open = !self.subs_open,
            NavGroup::Single => self.single_open = !self.single_open,
        }
    }

    /// The Escape key: closes the drawer.
    pub fn escape(&mut self)
        ensures
            *final(self) == (NavState { menu_open: false, ..*old(self) }),
    {
        if self.menu_open {
            self.menu_open = false;
        }
    }

    /// What the main area shows.
    pub fn page(&self) -> (r: Page)
        ensures
            r == page_of(*self),
    {
        if self.pending == Some(self.tab) {
            Page::Loading
        } else if self.tab == 0 {
            Page::LocalSources
        } else if self.tab == 1 {
            Page::RemoteSources
        } else if self.tab == 2 {
            Page::Combineds
        } else if self.tab == 3 {
            Page::ClashConfig
        } else {
            Page::Config
        }
    }
}

/// The class of a menu entry.
pub fn nav_item_class(active: bool) -> (r: &'static str)
    ensures
        r@ == (if active {
            "nav-item active"@
        } else {
            "nav-item"@
        }),
{
    if active {
        "nav-item active"
    } else {
        "nav-item"
    }
}

/// The class of a group's chevron.
pub fn chevron_class(open: bool) -> (r: &'static str)
    ensures
        r@ == (if open {
            "nav-chevron open"@
        } else {
            "nav-chevron"@
        }),
{
    if open {
        "nav-chevron open"
    } else {
        "nav-chevron"
    }
}

/// The class of the sidebar.
pub fn sidebar_class(menu_open: bool) -> (r: &'static str)
    ensures
        r@ == (if menu_open {
            "sidebar open"@
        } else {
            "sidebar"@
        }),
{
    if menu_open {
        "sidebar open"
    } else {
        "sidebar"
    }
}

/// A click on a page's entry leaves the drawer closed, and leaves the page
/// on show or loading: never both unset.
pub proof fn lemma_go_closes_drawer(s: NavState, i: usize, ready: bool)
    ensures
        !go(s, i, ready).0.menu_open,
        go(s, i, ready).0.tab == i || go(s, i, ready).0.pending == Some(i),
{
}

/// The entry of a page that is shown or loading after a click sits in open
/// groups: each group that encloses the page is open.
pub proof fn lemma_go_reveals_entry(s: NavState, i: usize, ready: bool)
    requires
        s.tab != i,
        s.pending != Some(i),
    ensures
        in_subs(i) ==> go(s, i, ready).0.subs_open,
        i < 2 ==> go(s, i, ready).0.single_open,
{
}

/// A page whose data was not ready shows once that data has finished
/// loading: a click, then the settling of its load.
pub proof fn lemma_requested_page_shows(s: NavState, i: usize)
    requires
        s.tab != i,
        s.pending != Some(i),
    ensures
        go(s, i, false).1 == Some(i),
        go(s, i, false).0.tab == s.tab,
        settle(go(s, i, false).0, true).tab == i,
        settle(go(s, i, false).0, true).pending is None,
{
}

/// A page never shows early: while its load has not finished, the page on
/// show stays.
pub proof fn lemma_settle_waits(s: NavState)
    ensures
        settle(s, false) == s,
{
}

/// Opening and closing a group again restores the state.
pub proof fn lemma_toggle_twice(s: NavState, g: NavGroup)
    ensures
        toggle(toggle(s, g), g) == s,
{
}

/// The first render loads the first page's data, shows a full-page spinner
/// until it arrives, then shows the page.
pub proof fn lemma_first_page_loads(mobile: bool)
    ensures
        autoload(initial(mobile), true).1 == Some(0usize),
        page_of(autoload(initial(mobile), true).0) == Page::Loading,
        page_of(settle(autoload(initial(mobile), true).0, true)) == Page::LocalSources,
{
}

/// What the app shows: a spinner while the stored session is checked, the
/// shell with a session, the login page without one.
#[derive(Debug, Clone, Copy, PartialEq, Eq, Structural)]
pub enum AppView {
    Checking,
    Shell,
    Login,
}

/// What the app shows.
pub fn app_view(checking: bool, has_session: bool) -> (r: AppView)
    ensures
        r == (if checking {
            AppView::Checking
        } else if has_session {
            AppView::Shell
        } else {
            AppView::Login
        }),
{
    if checking {
        AppView::Checking
    } else if has_session {
        AppView::Shell
    } else {
        AppView::Login
    }
}

} // verus!
