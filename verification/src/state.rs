//! A flat browsing session: tabs that carry an identifier, a title and one location each, with
//! one of them active. Tabs are only ever added, so identifiers count up from one in opening
//! order.
use vstd::prelude::*;

verus! {

/// A tab of the session.
#[derive(Clone, Debug, PartialEq, Eq)]
pub struct Tab {
    pub id: usize,
    pub title: String,
    pub url: String,
}

/// What a tab of the session is, mathematically.
pub struct TabInfo {
    pub id: nat,
    pub title: Seq<char>,
    pub url: Seq<char>,
}

impl View for Tab {
    type V = TabInfo;

    open spec fn view(&self) -> TabInfo {
        TabInfo { id: self.id as nat, title: self.title@, url: self.url@ }
    }
}

/// What a session is, mathematically: its tabs in opening order and the position of the active
/// one.
pub struct SessionView {
    pub tabs: Seq<TabInfo>,
    pub active: int,
}

impl SessionView {
    /// There is a tab, the active position addresses one, and the tab at position `i` carries
    /// the identifier `i + 1`.
    pub open spec fn wf(self) -> bool {
        &&& 0 <= self.active < self.tabs.len()
        &&& forall|i: int| 0 <= i < self.tabs.len() ==> (#[trigger] self.tabs[i]).id == i + 1
    }

    /// The session as it starts: one tab titled "New Tab" at the home location.
    pub open spec fn initial(home_url: Seq<char>) -> SessionView {
        SessionView { tabs: seq![TabInfo { id: 1, title: "New Tab"@, url: home_url }], active: 0 }
    }

    pub open spec fn active_tab(self) -> TabInfo {
        self.tabs[self.active]
    }

    /// The identifier that the next tab gets: one more than that of the last tab.
    pub open spec fn next_id(self) -> nat {
        if self.tabs.len() > 0 {
            self.tabs.last().id + 1
        } else {
            1
        }
    }

    /// A new tab goes to the end under the next identifier and becomes active.
    pub open spec fn open(self, title: Seq<char>, url: Seq<char>) -> SessionView {
        SessionView {
            tabs: self.tabs.push(TabInfo { id: self.next_id(), title, url }),
            active: self.tabs.len() as int,
        }
    }

    /// Whether some tab carries the identifier `id`.
    pub open spec fn has_id(self, id: nat) -> bool {
        exists|i: int| 0 <= i < self.tabs.len() && (#[trigger] self.tabs[i]).id == id
    }

    /// The tab with the identifier `id` becomes active; an identifier that no tab carries
    /// changes nothing.
    pub open spec fn switch(self, id: nat) -> SessionView {
        if 1 <= id <= self.tabs.len() {
            SessionView { active: id - 1, ..self }
        } else {
            self
        }
    }

    /// The active tab moves to `url`, keeping its identifier and title.
    pub open spec fn navigate(self, url: Seq<char>) -> SessionView {
        if 0 <= self.active < self.tabs.len() {
            SessionView {
                tabs: self.tabs.update(self.active, TabInfo { url, ..self.tabs[self.active] }),
                ..self
            }
        } else {
            self
        }
    }
}

/// In a well-formed session the identifiers in use are exactly 1 up to the number of tabs, and
/// switching activates the one tab that carries the identifier asked for.
pub proof fn lemma_switch_finds_the_identifier(session: SessionView, id: nat)
    requires
        session.wf(),
    ensures
        session.has_id(id) <==> 1 <= id <= session.tabs.len(),
        session.switch(id).wf(),
        session.has_id(id) ==> session.switch(id).active_tab().id == id,
        !session.has_id(id) ==> session.switch(id) == session,
{
    if 1 <= id <= session.tabs.len() {
        assert(session.tabs[id - 1].id == id);
    }
}

/// Opening a tab and visiting a location keep a session well formed.
pub proof fn lemma_session_stays_well_formed(session: SessionView, title: Seq<char>, url: Seq<char>)
    requires
        session.wf(),
    ensures
        session.open(title, url).wf(),
        session.open(title, url).active_tab() == (TabInfo {
            id: session.tabs.len() + 1,
            title,
            url,
        }),
        session.navigate(url).wf(),
        session.navigate(url).active_tab().url == url,
{
    assert(session.tabs.last().id == session.tabs.len());
}

/// The tabs of a session and which of them is active.
pub struct BrowserState {
    tabs: Vec<Tab>,
    active_tab_index: usize,
}

/// The models of a run of tabs, in the same order.
pub open spec fn tab_infos(tabs: Seq<Tab>) -> Seq<TabInfo> {
    Seq::new(tabs.len(), |i: int| tabs[i]@)
}

impl View for BrowserState {
    type V = SessionView;

    open spec fn view(&self) -> SessionView {
        SessionView { tabs: tab_infos(self.spec_tabs()), active: self.spec_active() as int }
    }
}

impl BrowserState {
    /// The tabs themselves, in opening order.
    pub closed spec fn spec_tabs(&self) -> Seq<Tab> {
        self.tabs@
    }

    pub closed spec fn spec_active(&self) -> usize {
        self.active_tab_index
    }

    /// Every session that this module hands out is well formed, and its methods keep it so.
    pub open spec fn wf(&self) -> bool {
        self@.wf()
    }

    /// A session with one tab, titled "New Tab", at `home_url`.
    pub fn new(home_url: &str) -> (state: Self)
        ensures
            state.wf(),
            state@ == SessionView::initial(home_url@),
    {
        let initial_tab = Tab { id: 1, title: "New Tab".to_owned(), url: home_url.to_owned() };
        let mut tabs = Vec::new();
        tabs.push(initial_tab);
        let state = BrowserState { tabs, active_tab_index: 0 };
        assert(state@.tabs =~= SessionView::initial(home_url@).tabs);
        state
    }

    /// The tabs, in opening order.
    pub fn tabs(&self) -> (tabs: &[Tab])
        ensures
            tabs@ == self.spec_tabs(),
    {
        self.tabs.as_slice()
    }

    /// The active tab.
    pub fn active_tab(&self) -> (tab: &Tab)
        requires
            self.wf(),
        ensures
            *tab == self.spec_tabs()[self.spec_active() as int],
            tab@ == self@.active_tab(),
    {
        &self.tabs[self.active_tab_index]
    }

    /// Opens a tab under the next identifier, makes it active and returns it.
    pub fn open_tab(&mut self, title: &str, url: &str) -> (tab: &Tab)
        requires
            old(self).wf(),
            old(self)@.tabs.len() < usize::MAX,
        ensures
            final(self).wf(),
            final(self)@ == old(self)@.open(title@, url@),
            tab@ == final(self)@.active_tab(),
            tab@ == (TabInfo { id: old(self)@.tabs.len() + 1, title: title@, url: url@ }),
    {
        let count = self.tabs.len();
        assert(self@.tabs[count - 1].id == count);
        let id = if count > 0 {
            self.tabs[count - 1].id + 1
        } else {
            1
        };
        let tab = Tab { id, title: title.to_owned(), url: url.to_owned() };
        self.tabs.push(tab);
        self.active_tab_index = self.tabs.len() - 1;
        assert(self@.tabs =~= old(self)@.open(title@, url@).tabs);
        &self.tabs[self.active_tab_index]
    }

    /// Makes the tab with the identifier `tab_id` active. An identifier that no tab carries
    /// changes nothing.
    pub fn switch_tab(&mut self, tab_id: usize)
        requires
            old(self).wf(),
        ensures
            final(self).wf(),
            final(self)@ == old(self)@.switch(tab_id as nat),
            old(self)@.has_id(tab_id as nat) ==> final(self)@.active_tab().id == tab_id,
            !old(self)@.has_id(tab_id as nat) ==> final(self)@ == old(self)@,
    {
        proof {
            lemma_switch_finds_the_identifier(self@, tab_id as nat);
        }
        let mut index: usize = 0;
        while index < self.tabs.len()
            invariant
                *self == *old(self),
                self.wf(),
                index <= self.tabs.len(),
                forall|i: int| 0 <= i < index ==> (#[trigger] self@.tabs[i]).id != tab_id,
            decreases self.tabs.len() - index,
        {
            if self.tabs[index].id == tab_id {
                assert(self@.tabs[index as int].id == tab_id);
                self.active_tab_index = index;
                return ;
            }
            index += 1;
        }
        assert(!(1 <= tab_id <= self.tabs.len())) by {
            if 1 <= tab_id <= self.tabs.len() {
                assert(self@.tabs[tab_id - 1].id == tab_id);
            }
        }
    }

    /// Moves the active tab to `url`.
    pub fn navigate(&mut self, url: &str)
        requires
            old(self).wf(),
        ensures
            final(self).wf(),
            final(self)@ == old(self)@.navigate(url@),
            final(self)@.active_tab().url == url@,
    {
        if self.active_tab_index < self.tabs.len() {
            let index = self.active_tab_index;
            self.tabs[index].url = url.to_owned();
            assert(self@.tabs =~= old(self)@.navigate(url@).tabs);
        }
    }
}

} // verus!
