//! Tabs and their navigation history.
//!
//! A [`Tab`] records every location it has visited together with a cursor that marks the one on
//! display. A [`TabManager`] keeps the open tabs in order, remembers which one is active, and
//! never lets their number drop to zero.
use vstd::prelude::*;

verus! {

/// What a tab is, mathematically: a title, the recorded locations in visiting order, and the
/// position of the location on display.
pub struct TabView {
    pub title: Seq<char>,
    pub history: Seq<Seq<char>>,
    pub cursor: int,
}

impl TabView {
    /// The history is never empty and the cursor addresses one of its entries.
    pub open spec fn wf(self) -> bool {
        0 <= self.cursor < self.history.len()
    }

    /// A tab that has seen a single location.
    pub open spec fn fresh(title: Seq<char>, url: Seq<char>) -> TabView {
        TabView { title, history: seq![url], cursor: 0 }
    }

    /// The tab every collection falls back to.
    pub open spec fn blank() -> TabView {
        TabView::fresh("New Tab"@, "about:blank"@)
    }

    /// The location on display.
    pub open spec fn location(self) -> Seq<char> {
        self.history[self.cursor]
    }

    pub open spec fn can_go_back(self) -> bool {
        self.cursor > 0
    }

    pub open spec fn can_go_forward(self) -> bool {
        self.cursor < self.history.len() - 1
    }

    /// Visiting `url` drops whatever lay beyond the cursor, records `url` and displays it.
    pub open spec fn navigate(self, url: Seq<char>) -> TabView {
        TabView {
            title: self.title,
            history: self.history.take(self.cursor + 1).push(url),
            cursor: self.cursor + 1,
        }
    }

    /// One step towards the start of the history, where there is one.
    pub open spec fn back(self) -> TabView {
        if self.can_go_back() {
            TabView { cursor: self.cursor - 1, ..self }
        } else {
            self
        }
    }

    /// One step towards the end of the history, where there is one.
    pub open spec fn forward(self) -> TabView {
        if self.can_go_forward() {
            TabView { cursor: self.cursor + 1, ..self }
        } else {
            self
        }
    }

    /// The tab after visiting each of `urls` in turn.
    pub open spec fn navigate_all(self, urls: Seq<Seq<char>>) -> TabView
        decreases urls.len(),
    {
        if urls.len() == 0 {
            self
        } else {
            self.navigate_all(urls.drop_last()).navigate(urls.last())
        }
    }
}

/// Represents a single browser tab.
#[derive(Clone, Debug, PartialEq, Eq)]
pub struct Tab {
    pub title: String,
    history: Vec<String>,
    current_index: usize,
}

impl View for Tab {
    type V = TabView;

    closed spec fn view(&self) -> TabView {
        TabView {
            title: self.title@,
            history: Seq::new(self.history@.len(), |i: int| self.history@[i]@),
            cursor: self.current_index as int,
        }
    }
}

impl Tab {
    /// Every tab that this module hands out is well formed, and its methods keep it so.
    pub open spec fn wf(&self) -> bool {
        self@.wf()
    }

    /// A tab with the given title that has seen `url` and nothing else.
    pub fn new(title: &str, url: &str) -> (tab: Self)
        ensures
            tab.wf(),
            tab@ == TabView::fresh(title@, url@),
    {
        let mut history = Vec::new();
        history.push(url.to_owned());
        let tab = Tab { title: title.to_owned(), history, current_index: 0 };
        assert(tab@.history =~= seq![url@]);
        tab
    }

    /// The location on display.
    pub fn url(&self) -> (location: &str)
        requires
            self.wf(),
        ensures
            location@ == self@.location(),
    {
        self.history[self.current_index].as_str()
    }

    /// Visits `url`: whatever lay beyond the cursor is dropped, `url` is recorded and displayed.
    pub fn navigate(&mut self, url: &str)
        requires
            old(self).wf(),
        ensures
            final(self).wf(),
            final(self)@ == old(self)@.navigate(url@),
            final(self)@.location() == url@,
            !final(self)@.can_go_forward(),
    {
        if self.current_index < self.history.len() - 1 {
            self.history.truncate(self.current_index + 1);
        }
        self.history.push(url.to_owned());
        self.current_index = self.history.len() - 1;
        assert(self@.history =~= old(self)@.history.take(old(self)@.cursor + 1).push(url@));
    }

    /// Steps back in the history and says whether there was a step to take. At the first entry
    /// nothing changes.
    pub fn go_back(&mut self) -> (moved: bool)
        requires
            old(self).wf(),
        ensures
            final(self).wf(),
            moved == old(self)@.can_go_back(),
            final(self)@ == old(self)@.back(),
            !moved ==> final(self)@ == old(self)@,
            old(self)@.cursor == 0 ==> !moved && final(self)@.location() == old(self)@.location(),
    {
        if self.current_index > 0 {
            self.current_index -= 1;
            true
        } else {
            false
        }
    }

    /// Steps forward in the history and says whether there was a step to take. At the last entry
    /// nothing changes.
    pub fn go_forward(&mut self) -> (moved: bool)
        requires
            old(self).wf(),
        ensures
            final(self).wf(),
            moved == old(self)@.can_go_forward(),
            final(self)@ == old(self)@.forward(),
            !moved ==> final(self)@ == old(self)@,
            old(self)@.cursor == old(self)@.history.len() - 1 ==> !moved && final(self)@.location()
                == old(self)@.location(),
    {
        if self.current_index < self.history.len() - 1 {
            self.current_index += 1;
            true
        } else {
            false
        }
    }

    pub fn can_go_back(&self) -> (answer: bool)
        ensures
            answer == self@.can_go_back(),
    {
        self.current_index > 0
    }

    pub fn can_go_forward(&self) -> (answer: bool)
        requires
            self.wf(),
        ensures
            answer == self@.can_go_forward(),
    {
        self.current_index < self.history.len() - 1
    }

    /// The title, as the field `title` holds it.
    pub fn title(&self) -> (title: &str)
        ensures
            title@ == self@.title,
    {
        self.title.as_str()
    }

    /// Whether the two tabs agree in title, in every recorded location and in the cursor.
    pub fn same_as(&self, other: &Tab) -> (same: bool)
        ensures
            same == (self@ == other@),
    {
        if self.current_index != other.current_index || self.history.len() != other.history.len()
            || self.title != other.title {
            assert(self@ != other@) by {
                if self@ == other@ {
                    assert(self@.history.len() == other@.history.len());
                }
            }
            return false;
        }
        let mut index: usize = 0;
        while index < self.history.len()
            invariant
                index <= self.history.len(),
                self.history.len() == other.history.len(),
                forall|i: int| 0 <= i < index ==> (#[trigger] self@.history[i]) == other@.history[i],
            decreases self.history.len() - index,
        {
            if self.history[index] != other.history[index] {
                assert(self@.history[index as int] != other@.history[index as int]);
                return false;
            }
            index += 1;
        }
        assert(self@.history =~= other@.history);
        true
    }
}

/// A visit keeps a tab well formed, displays the location visited, and leaves nothing to go
/// forward to.
pub proof fn lemma_navigate(tab: TabView, url: Seq<char>)
    requires
        tab.wf(),
    ensures
        tab.navigate(url).wf(),
        tab.navigate(url).location() == url,
        !tab.navigate(url).can_go_forward(),
        tab.navigate(url).can_go_back(),
        tab.navigate(url).back() == (TabView { history: tab.navigate(url).history, ..tab }),
{
}

/// After any run of visits the tab is well formed, and after at least one it displays the
/// location visited last.
pub proof fn lemma_navigate_all(tab: TabView, urls: Seq<Seq<char>>)
    requires
        tab.wf(),
    ensures
        tab.navigate_all(urls).wf(),
        urls.len() > 0 ==> tab.navigate_all(urls).location() == urls.last(),
    decreases urls.len(),
{
    if urls.len() > 0 {
        lemma_navigate_all(tab, urls.drop_last());
        lemma_navigate(tab.navigate_all(urls.drop_last()), urls.last());
    }
}

/// In a run of visits, the location on display after the visit at position `i` is the
/// location handed to that visit.
pub proof fn lemma_each_visit_shows_its_location(tab: TabView, urls: Seq<Seq<char>>, i: int)
    requires
        tab.wf(),
        0 <= i < urls.len(),
    ensures
        tab.navigate_all(urls.take(i + 1)).location() == urls[i],
{
    lemma_navigate_all(tab, urls.take(i + 1));
}

/// Going back from the first entry does nothing: the answer is no, and the tab, with the
/// location it displays, stays as it was.
pub proof fn lemma_back_at_start(tab: TabView)
    requires
        tab.wf(),
        tab.cursor == 0,
    ensures
        !tab.can_go_back(),
        tab.back() == tab,
        tab.back().location() == tab.location(),
{
}

/// Going forward from the last entry does nothing: the answer is no, and the tab, with the
/// location it displays, stays as it was.
pub proof fn lemma_forward_at_end(tab: TabView)
    requires
        tab.wf(),
        tab.cursor == tab.history.len() - 1,
    ensures
        !tab.can_go_forward(),
        tab.forward() == tab,
        tab.forward().location() == tab.location(),
{
}

/// Stepping back or forward keeps a tab well formed and never touches what it has recorded;
/// a step that was taken can be undone by the opposite step.
pub proof fn lemma_steps(tab: TabView)
    requires
        tab.wf(),
    ensures
        tab.back().wf(),
        tab.forward().wf(),
        tab.back().history == tab.history,
        tab.forward().history == tab.history,
        tab.can_go_back() ==> tab.back().forward() == tab,
        tab.can_go_forward() ==> tab.forward().back() == tab,
{
}

/// Visiting two locations, stepping back twice and visiting a third leaves the third on display
/// with nothing to go forward to: the two abandoned entries are gone from the history.
pub proof fn lemma_branch_discards_forward_entries(
    tab: TabView,
    first: Seq<char>,
    second: Seq<char>,
    third: Seq<char>,
)
    requires
        tab.wf(),
    ensures
        tab.navigate(first).navigate(second).back().back().navigate(third).wf(),
        tab.navigate(first).navigate(second).back().back().navigate(third).location() == third,
        !tab.navigate(first).navigate(second).back().back().navigate(third).can_go_forward(),
        tab.navigate(first).navigate(second).back().back().navigate(third) == tab.navigate(third),
{
    let visited = tab.navigate(first).navigate(second);
    let returned = visited.back().back();
    assert(returned.cursor == tab.cursor);
    assert(returned.history.take(tab.cursor + 1) =~= tab.history.take(tab.cursor + 1));
}

/// What a tab collection is, mathematically: the open tabs in the order in which they were opened,
/// and the position of the active one.
pub struct TabsView {
    pub tabs: Seq<TabView>,
    pub active: int,
}

impl TabsView {
    /// At least one tab is open, the active position addresses a tab, and every tab is well
    /// formed.
    pub open spec fn wf(self) -> bool {
        &&& 0 <= self.active < self.tabs.len()
        &&& forall|i: int| 0 <= i < self.tabs.len() ==> (#[trigger] self.tabs[i]).wf()
    }

    /// The collection as it is created: one blank tab, which is active.
    pub open spec fn initial() -> TabsView {
        TabsView { tabs: seq![TabView::blank()], active: 0 }
    }

    /// The active tab, where the active position addresses one.
    pub open spec fn active_tab(self) -> Option<TabView> {
        if 0 <= self.active < self.tabs.len() {
            Some(self.tabs[self.active])
        } else {
            None
        }
    }

    /// A new tab goes to the end and becomes active.
    pub open spec fn open(self, title: Seq<char>, url: Seq<char>) -> TabsView {
        TabsView { tabs: self.tabs.push(TabView::fresh(title, url)), active: self.tabs.len() as int }
    }

    /// The active position once the tab at `index` has left a collection of more than one tab:
    /// it follows the tab it addressed, and where that very tab was closed it stays, or moves to
    /// the new last tab if it was the last.
    pub open spec fn active_after_close(self, index: int) -> int {
        if self.active > index {
            self.active - 1
        } else if self.active == index && self.active >= self.tabs.len() - 1 {
            self.tabs.len() - 2
        } else {
            self.active
        }
    }

    /// Closing a position that addresses no tab changes nothing; closing the only tab puts a
    /// blank tab in its place; otherwise the tab leaves and the active position is adjusted.
    pub open spec fn close(self, index: int) -> TabsView {
        if !(0 <= index < self.tabs.len()) {
            self
        } else if self.tabs.len() == 1 {
            TabsView::initial()
        } else {
            TabsView { tabs: self.tabs.remove(index), active: self.active_after_close(index) }
        }
    }

    pub open spec fn switch_to(self, index: int) -> TabsView {
        if 0 <= index < self.tabs.len() {
            TabsView { active: index, ..self }
        } else {
            self
        }
    }

    /// The active tab visits `url`; the others stay as they are.
    pub open spec fn navigate(self, url: Seq<char>) -> TabsView {
        if 0 <= self.active < self.tabs.len() {
            TabsView {
                tabs: self.tabs.update(self.active, self.tabs[self.active].navigate(url)),
                ..self
            }
        } else {
            self
        }
    }
}

/// Opening, closing, switching and visiting keep a collection well formed: in particular it
/// never runs out of tabs.
pub proof fn lemma_collection_stays_well_formed(
    tabs: TabsView,
    index: int,
    title: Seq<char>,
    url: Seq<char>,
)
    requires
        tabs.wf(),
    ensures
        TabsView::initial().wf(),
        tabs.open(title, url).wf(),
        tabs.close(index).wf(),
        tabs.switch_to(index).wf(),
        tabs.navigate(url).wf(),
{
    assert(TabView::blank().wf());
    assert(TabView::fresh(title, url).wf());
    lemma_navigate(tabs.tabs[tabs.active], url);
}

/// Closing the only tab leaves exactly one tab, the blank one, and it is active.
pub proof fn lemma_closing_the_only_tab(tabs: TabsView)
    requires
        tabs.wf(),
        tabs.tabs.len() == 1,
    ensures
        tabs.close(0) == TabsView::initial(),
        tabs.close(tabs.active) == TabsView::initial(),
        tabs.close(0).tabs.len() == 1,
        tabs.close(0).tabs[0] == TabView::fresh("New Tab"@, "about:blank"@),
        tabs.close(0).active == 0,
{
}

/// Closing any tab but the active one leaves the same tab active. Closing the active tab
/// activates the tab that followed it, or the new last tab if none did.
pub proof fn lemma_close_tracks_the_active_tab(tabs: TabsView, index: int)
    requires
        tabs.wf(),
        tabs.tabs.len() > 1,
        0 <= index < tabs.tabs.len(),
    ensures
        tabs.close(index).tabs.len() == tabs.tabs.len() - 1,
        index != tabs.active ==> tabs.close(index).active_tab() == tabs.active_tab(),
        index == tabs.active && index < tabs.tabs.len() - 1 ==> tabs.close(index).active_tab()
            == Some(tabs.tabs[index + 1]),
        index == tabs.active && index == tabs.tabs.len() - 1 ==> tabs.close(index).active_tab()
            == Some(tabs.tabs[index - 1]),
{
}

/// A new tab is opened at the end, becomes active, and leaves the other tabs as they were.
pub proof fn lemma_open_activates_the_new_tab(tabs: TabsView, title: Seq<char>, url: Seq<char>)
    requires
        tabs.wf(),
    ensures
        tabs.open(title, url).tabs.len() == tabs.tabs.len() + 1,
        tabs.open(title, url).active_tab() == Some(TabView::fresh(title, url)),
        forall|i: int| 0 <= i < tabs.tabs.len() ==> tabs.open(title, url).tabs[i] == tabs.tabs[i],
{
}

/// The models of a run of tabs, in the same order.
pub open spec fn tab_views(tabs: Seq<Tab>) -> Seq<TabView> {
    Seq::new(tabs.len(), |i: int| tabs[i]@)
}

/// Tracks tab order and active selection without depending on a backend.
#[derive(Clone, Debug)]
pub struct TabManager {
    tabs: Vec<Tab>,
    active_index: usize,
}

impl View for TabManager {
    type V = TabsView;

    open spec fn view(&self) -> TabsView {
        TabsView {
            tabs: tab_views(self.spec_tabs()),
            active: self.spec_active_index() as int,
        }
    }
}

impl Default for TabManager {
    fn default() -> (manager: Self)
        ensures
            manager.wf(),
            manager@ == TabsView::initial(),
    {
        let mut tabs = Vec::new();
        tabs.push(Tab::new("New Tab", "about:blank"));
        let manager = TabManager { tabs, active_index: 0 };
        assert(manager@.tabs =~= TabsView::initial().tabs);
        manager
    }
}

impl TabManager {
    /// The open tabs themselves, in order.
    pub closed spec fn spec_tabs(&self) -> Seq<Tab> {
        self.tabs@
    }

    pub closed spec fn spec_active_index(&self) -> usize {
        self.active_index
    }

    /// Every collection that this module hands out is well formed, and its methods keep it so.
    pub open spec fn wf(&self) -> bool {
        self@.wf()
    }

    /// A collection with one blank tab, which is active.
    pub fn new() -> (manager: Self)
        ensures
            manager.wf(),
            manager@ == TabsView::initial(),
    {
        let mut tabs = Vec::new();
        tabs.push(Tab::new("New Tab", "about:blank"));
        let manager = TabManager { tabs, active_index: 0 };
        assert(manager@.tabs =~= TabsView::initial().tabs);
        manager
    }

    /// Opens a tab at the end, makes it active and returns its position.
    pub fn open_tab(&mut self, title: &str, url: &str) -> (index: usize)
        requires
            old(self).wf(),
        ensures
            final(self).wf(),
            final(self)@ == old(self)@.open(title@, url@),
            index == old(self)@.tabs.len(),
            index == final(self)@.active,
    {
        let tab = Tab::new(title, url);
        self.tabs.push(tab);
        self.active_index = self.tabs.len() - 1;
        assert(self@.tabs =~= old(self)@.tabs.push(TabView::fresh(title@, url@)));
        self.active_index
    }

    /// Closes the tab at `index`, if there is one. Where the only tab is closed, a blank tab takes
    /// its place; otherwise the active position follows the tab it addressed.
    pub fn close_tab(&mut self, index: usize)
        requires
            old(self).wf(),
        ensures
            final(self).wf(),
            final(self)@ == old(self)@.close(index as int),
            index >= old(self)@.tabs.len() ==> final(self)@ == old(self)@,
            old(self)@.tabs.len() == 1 && index == 0 ==> final(self)@ == TabsView::initial(),
    {
        if index >= self.tabs.len() {
            return ;
        }
        self.tabs.remove(index);

        if self.tabs.is_empty() {
            self.tabs.push(Tab::new("New Tab", "about:blank"));
            self.active_index = 0;
            assert(self@.tabs =~= TabsView::initial().tabs);
            return ;
        }
        if self.active_index > index {
            self.active_index -= 1;
        } else if self.active_index == index && self.active_index >= self.tabs.len() {
            self.active_index = self.tabs.len() - 1;
        }
        assert(self@.tabs =~= old(self)@.tabs.remove(index as int));
    }

    /// Closes the tab that is active.
    pub fn close_active(&mut self)
        requires
            old(self).wf(),
        ensures
            final(self).wf(),
            final(self)@ == old(self)@.close(old(self)@.active),
    {
        let index = self.active_index;
        self.close_tab(index);
    }

    /// Makes the tab at `index` active and says whether there is such a tab.
    pub fn switch_to(&mut self, index: usize) -> (switched: bool)
        ensures
            switched == (index < old(self)@.tabs.len()),
            final(self)@ == old(self)@.switch_to(index as int),
            !switched ==> final(self)@ == old(self)@,
            old(self).wf() ==> final(self).wf(),
    {
        if index < self.tabs.len() {
            self.active_index = index;
            true
        } else {
            false
        }
    }

    /// The active tab. There is none only where the active position addresses no tab, which
    /// does not happen in a well-formed collection.
    pub fn active(&self) -> (tab: Option<&Tab>)
        ensures
            tab == if self.spec_active_index() < self.spec_tabs().len() {
                Some(&self.spec_tabs()[self.spec_active_index() as int])
            } else {
                None
            },
            self.wf() ==> tab is Some && tab.unwrap().wf() && Some(tab.unwrap()@)
                == self@.active_tab(),
    {
        if self.active_index < self.tabs.len() {
            Some(&self.tabs[self.active_index])
        } else {
            None
        }
    }

    /// The active tab, to be changed in place. The collection ends up with whatever the caller
    /// leaves in the tab, and stays well formed if the tab does.
    pub fn active_mut(&mut self) -> (tab: Option<&mut Tab>)
        ensures
            final(self).spec_active_index() == old(self).spec_active_index(),
            match tab {
                Some(tab) => {
                    &&& old(self).spec_active_index() < old(self).spec_tabs().len()
                    &&& *tab == old(self).spec_tabs()[old(self).spec_active_index() as int]
                    &&& final(self).spec_tabs() == old(self).spec_tabs().update(
                        old(self).spec_active_index() as int,
                        *final(tab),
                    )
                },
                None => {
                    &&& old(self).spec_active_index() >= old(self).spec_tabs().len()
                    &&& final(self).spec_tabs() == old(self).spec_tabs()
                },
            },
            old(self).wf() ==> tab is Some && tab.unwrap().wf(),
            old(self).wf() && tab is Some && final(tab.unwrap()).wf() ==> final(self).wf(),
    {
        if self.active_index < self.tabs.len() {
            let index = self.active_index;
            let tab = &mut self.tabs[index];
            proof {
                let before = old(self).spec_tabs();
                assert(old(self).wf() ==> tab_views(before)[index as int].wf());
                assert forall|t: Tab| old(self).wf() && t.wf() implies (TabsView {
                    tabs: tab_views(#[trigger] before.update(index as int, t)),
                    active: index as int,
                }).wf() by {
                    let after = before.update(index as int, t);
                    assert forall|i: int| 0 <= i < after.len() implies (#[trigger] tab_views(
                        after,
                    )[i]).wf() by {
                        if i != index {
                            assert(tab_views(before)[i].wf());
                        }
                    }
                }
            }
            Some(tab)
        } else {
            None
        }
    }

    /// The active tab visits `url`.
    pub fn navigate(&mut self, url: &str)
        requires
            old(self).wf(),
        ensures
            final(self).wf(),
            final(self)@ == old(self)@.navigate(url@),
            final(self)@.active_tab() == Some(old(self)@.active_tab().unwrap().navigate(url@)),
    {
        if self.active_index < self.tabs.len() {
            let index = self.active_index;
            self.tabs[index].navigate(url);
            assert(self@.tabs =~= old(self)@.tabs.update(
                old(self)@.active,
                old(self)@.tabs[old(self)@.active].navigate(url@),
            ));
        }
    }

    /// The open tabs, in the order in which they were opened.
    pub fn tabs(&self) -> (tabs: &[Tab])
        ensures
            tabs@ == self.spec_tabs(),
    {
        self.tabs.as_slice()
    }

    /// The position of the active tab.
    #[verifier::when_used_as_spec(spec_active_index)]
    pub fn active_index(&self) -> (index: usize)
        ensures
            index == self.spec_active_index(),
    {
        self.active_index
    }
}

} // verus!
