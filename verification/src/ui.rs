//! The browser window as far as it decides anything: what the tab strip, the toolbar and the
//! content area show, and what each user command does to the tabs. Drawing is left to whoever
//! owns the window.
use crate::engines::{EngineRegistry, RenderingEngine, ScriptEngine};
use crate::engines::{SharedRenderingEngine, SharedScriptEngine};
use crate::tabs::{TabManager, TabsView};
use vstd::prelude::*;

verus! {

/// What the address bar holds when the window opens.
pub const DEFAULT_ADDRESS: &'static str = "https://example.com";

/// What the address bar shows while it is empty.
pub const ADDRESS_PLACEHOLDER: &'static str = "Search or enter address";

/// What the content area shows in place of a page.
pub const CONTENT_NOTICE: &'static str =
    "Content would be rendered here once a backend is connected.";

#[derive(Clone, Copy, Debug, PartialEq, Eq)]
pub enum EngineKind {
    Rendering,
    Script,
}

/// The text that a built-in engine named `name` returns for `url`.
pub open spec fn builtin_rendering(name: Seq<char>, url: Seq<char>) -> Seq<char> {
    "["@ + name + "] rendering "@ + url
}

/// The text that a built-in engine named `name` returns for `script`: only an engine of the
/// script kind runs it.
pub open spec fn builtin_execution(name: Seq<char>, kind: EngineKind, script: Seq<char>) -> Seq<
    char,
> {
    match kind {
        EngineKind::Rendering => name + " cannot execute scripts"@,
        EngineKind::Script => "["@ + name + "] executed "@ + script,
    }
}

/// An engine that comes with the window. It only reports what it was asked to do.
#[derive(Clone)]
pub struct BuiltinEngine {
    name: String,
    kind: EngineKind,
}

impl BuiltinEngine {
    /// The name that the engine was made with.
    pub closed spec fn label(&self) -> Seq<char> {
        self.name@
    }

    /// The kind that the engine was made with.
    pub closed spec fn kind(&self) -> EngineKind {
        self.kind
    }

    pub fn new(name: &str, kind: EngineKind) -> (engine: Self)
        ensures
            engine.label() == name@,
            engine.kind() == kind,
    {
        BuiltinEngine { name: name.to_owned(), kind }
    }
}

impl RenderingEngine for BuiltinEngine {
    open spec fn named(&self, name: Seq<char>) -> bool {
        name == self.label()
    }

    open spec fn renders(&self, url: Seq<char>, text: Seq<char>) -> bool {
        text == builtin_rendering(self.label(), url)
    }

    fn name(&self) -> (name: &str) {
        self.name.as_str()
    }

    fn render(&self, url: &str) -> (text: String) {
        let mut text = "[".to_owned();
        text.append(self.name.as_str());
        text.append("] rendering ");
        text.append(url);
        text
    }
}

impl ScriptEngine for BuiltinEngine {
    open spec fn named(&self, name: Seq<char>) -> bool {
        name == self.label()
    }

    open spec fn executes(&self, script: Seq<char>, text: Seq<char>) -> bool {
        text == builtin_execution(self.label(), self.kind(), script)
    }

    fn name(&self) -> (name: &str) {
        self.name.as_str()
    }

    fn execute(&self, script: &str) -> (text: String) {
        match self.kind {
            EngineKind::Rendering => {
                let mut text = self.name.clone();
                text.append(" cannot execute scripts");
                text
            },
            EngineKind::Script => {
                let mut text = "[".to_owned();
                text.append(self.name.as_str());
                text.append("] executed ");
                text.append(script);
                text
            },
        }
    }
}

/// Whether `engine` renders as the built-in engine named `name` does.
pub open spec fn renders_as_builtin(engine: SharedRenderingEngine, name: Seq<char>) -> bool {
    forall|url: Seq<char>, text: Seq<char>| #[trigger]
        engine.renders(url, text) <==> text == builtin_rendering(name, url)
}

/// Whether `engine` executes as the built-in script engine named `name` does.
pub open spec fn executes_as_builtin(engine: SharedScriptEngine, name: Seq<char>) -> bool {
    forall|script: Seq<char>, text: Seq<char>| #[trigger]
        engine.executes(script, text) <==> text == builtin_execution(
            name,
            EngineKind::Script,
            script,
        )
}

/// What the user can ask of the window.
pub enum Command {
    /// The address bar was confirmed with this text.
    SubmitAddress(String),
    /// The close button of the tab at this position was pressed.
    CloseTab(usize),
    /// The tab at this position was clicked.
    SelectTab(usize),
    /// The button for a new tab was pressed.
    NewTab,
    Back,
    Forward,
}

/// A command with its text as a sequence of characters.
pub enum CommandView {
    SubmitAddress(Seq<char>),
    CloseTab(int),
    SelectTab(int),
    NewTab,
    Back,
    Forward,
}

impl View for Command {
    type V = CommandView;

    open spec fn view(&self) -> CommandView {
        match *self {
            Command::SubmitAddress(url) => CommandView::SubmitAddress(url@),
            Command::CloseTab(index) => CommandView::CloseTab(index as int),
            Command::SelectTab(index) => CommandView::SelectTab(index as int),
            Command::NewTab => CommandView::NewTab,
            Command::Back => CommandView::Back,
            Command::Forward => CommandView::Forward,
        }
    }
}

/// What the owner of the window has to do after a command.
pub struct Outcome {
    /// Whether the window has to be drawn again.
    pub redraw: bool,
    /// The text to put into the address bar, if it has to change.
    pub address: Option<String>,
}

/// The tabs after the active tab took a step back.
pub open spec fn tabs_after_back(tabs: TabsView) -> TabsView {
    TabsView { tabs: tabs.tabs.update(tabs.active, tabs.tabs[tabs.active].back()), ..tabs }
}

/// The tabs after the active tab took a step forward.
pub open spec fn tabs_after_forward(tabs: TabsView) -> TabsView {
    TabsView { tabs: tabs.tabs.update(tabs.active, tabs.tabs[tabs.active].forward()), ..tabs }
}

/// What a command does to the tabs.
pub open spec fn tabs_after(tabs: TabsView, command: CommandView) -> TabsView {
    match command {
        CommandView::SubmitAddress(url) => tabs.navigate(url),
        CommandView::CloseTab(index) => tabs.close(index),
        CommandView::SelectTab(index) => tabs.switch_to(index),
        CommandView::NewTab => tabs.open("New Tab"@, "about:blank"@),
        CommandView::Back => tabs_after_back(tabs),
        CommandView::Forward => tabs_after_forward(tabs),
    }
}

/// Whether the window has to be drawn again after a command: always, but for a step back or
/// forward that could not be taken.
pub open spec fn redraw_after(tabs: TabsView, command: CommandView) -> bool {
    match command {
        CommandView::Back => tabs.tabs[tabs.active].can_go_back(),
        CommandView::Forward => tabs.tabs[tabs.active].can_go_forward(),
        _ => true,
    }
}

/// The text that the address bar has to take after a command: the location that a step back
/// or forward arrived at. Every other command leaves the address bar alone.
pub open spec fn address_after(tabs: TabsView, command: CommandView) -> Option<Seq<char>> {
    match command {
        CommandView::Back => if tabs.tabs[tabs.active].can_go_back() {
            Some(tabs.tabs[tabs.active].back().location())
        } else {
            None
        },
        CommandView::Forward => if tabs.tabs[tabs.active].can_go_forward() {
            Some(tabs.tabs[tabs.active].forward().location())
        } else {
            None
        },
        _ => None,
    }
}

/// No command breaks the tabs: afterwards there is still a tab, and an active one.
pub proof fn lemma_commands_keep_tabs_well_formed(tabs: TabsView, command: CommandView)
    requires
        tabs.wf(),
    ensures
        tabs_after(tabs, command).wf(),
        !redraw_after(tabs, command) ==> tabs_after(tabs, command) == tabs,
        address_after(tabs, command) matches Some(address) ==> tabs_after(
            tabs,
            command,
        ).active_tab().unwrap().location() == address,
{
    crate::tabs::lemma_collection_stays_well_formed(tabs, 0, "New Tab"@, "about:blank"@);
    match command {
        CommandView::SubmitAddress(url) => {
            crate::tabs::lemma_collection_stays_well_formed(tabs, 0, "New Tab"@, url);
        },
        CommandView::CloseTab(index) => {
            crate::tabs::lemma_collection_stays_well_formed(tabs, index, "New Tab"@, "about:blank"@);
        },
        CommandView::SelectTab(index) => {
            crate::tabs::lemma_collection_stays_well_formed(tabs, index, "New Tab"@, "about:blank"@);
        },
        CommandView::NewTab => {},
        CommandView::Back => {
            crate::tabs::lemma_steps(tabs.tabs[tabs.active]);
            if !tabs.tabs[tabs.active].can_go_back() {
                assert(tabs_after_back(tabs).tabs =~= tabs.tabs);
            }
        },
        CommandView::Forward => {
            crate::tabs::lemma_steps(tabs.tabs[tabs.active]);
            if !tabs.tabs[tabs.active].can_go_forward() {
                assert(tabs_after_forward(tabs).tabs =~= tabs.tabs);
            }
        },
    }
}

/// One entry of the tab strip.
#[derive(Clone, Debug, PartialEq, Eq)]
pub struct TabLabel {
    pub title: String,
    /// Whether the entry is drawn as the active tab.
    pub active: bool,
}

/// The state of the two history buttons.
#[derive(Clone, Copy, Debug, PartialEq, Eq)]
pub struct Toolbar {
    pub can_go_back: bool,
    pub can_go_forward: bool,
}

/// The line of the content area that names the active rendering engine.
pub open spec fn rendering_line(active: Option<Seq<char>>) -> Seq<char> {
    "Active rendering engine: "@ + match active {
        Some(name) => name,
        None => "No rendering engine"@,
    }
}

/// The line of the content area that names the active script engine.
pub open spec fn script_line(active: Option<Seq<char>>) -> Seq<char> {
    "Active JavaScript engine: "@ + match active {
        Some(name) => name,
        None => "No script engine"@,
    }
}

/// The top-level view for the Chrome-inspired browser UI.
pub struct BrowserView {
    tabs: TabManager,
    engines: EngineRegistry,
}

impl BrowserView {
    /// The tabs of the window.
    pub closed spec fn spec_tabs(&self) -> TabManager {
        self.tabs
    }

    /// The engines of the window.
    pub closed spec fn spec_engines(&self) -> EngineRegistry {
        self.engines
    }

    /// Every window that this module hands out is well formed, and its methods keep it so.
    pub open spec fn wf(&self) -> bool {
        self.spec_tabs().wf() && self.spec_engines().wf()
    }

    /// A window with one blank tab and the built-in engines: "Blink" and "WebKit" to render,
    /// "V8" and "SpiderMonkey" to run scripts, the first of each kind active.
    pub fn new() -> (view: Self)
        ensures
            view.wf(),
            view.spec_tabs()@ == TabsView::initial(),
            view.spec_engines()@.rendering.names == seq!["Blink"@, "WebKit"@],
            view.spec_engines()@.rendering.active == Some("Blink"@),
            renders_as_builtin(view.spec_engines()@.rendering.items[0], "Blink"@),
            renders_as_builtin(view.spec_engines()@.rendering.items[1], "WebKit"@),
            view.spec_engines()@.scripting.names == seq!["V8"@, "SpiderMonkey"@],
            view.spec_engines()@.scripting.active == Some("V8"@),
            executes_as_builtin(view.spec_engines()@.scripting.items[0], "V8"@),
            executes_as_builtin(view.spec_engines()@.scripting.items[1], "SpiderMonkey"@),
    {
        proof {
            reveal_strlit("Blink");
            reveal_strlit("WebKit");
            reveal_strlit("V8");
            reveal_strlit("SpiderMonkey");
        }
        let mut engines = EngineRegistry::new();
        engines.register_rendering_engine(
            Box::new(BuiltinEngine::new("Blink", EngineKind::Rendering)),
        );
        assert(engines@.rendering.names =~= seq!["Blink"@]);
        assert("Blink"@.len() != "WebKit"@.len());
        assert(!engines@.rendering.names.contains("WebKit"@));
        engines.register_rendering_engine(
            Box::new(BuiltinEngine::new("WebKit", EngineKind::Rendering)),
        );
        assert(engines@.rendering.names =~= seq!["Blink"@, "WebKit"@]);
        engines.register_script_engine(Box::new(BuiltinEngine::new("V8", EngineKind::Script)));
        assert(engines@.scripting.names =~= seq!["V8"@]);
        assert("V8"@.len() != "SpiderMonkey"@.len());
        assert(!engines@.scripting.names.contains("SpiderMonkey"@));
        engines.register_script_engine(
            Box::new(BuiltinEngine::new("SpiderMonkey", EngineKind::Script)),
        );
        assert(engines@.scripting.names =~= seq!["V8"@, "SpiderMonkey"@]);
        BrowserView { tabs: TabManager::default(), engines }
    }

    pub fn tabs(&self) -> (tabs: &TabManager)
        ensures
            *tabs == self.spec_tabs(),
    {
        &self.tabs
    }

    pub fn engines(&self) -> (engines: &EngineRegistry)
        ensures
            *engines == self.spec_engines(),
    {
        &self.engines
    }

    /// The entries of the tab strip, one for each tab and in the same order. An entry is drawn
    /// as active where its tab agrees with the active tab in title, history and cursor.
    pub fn tab_strip(&self) -> (strip: Vec<TabLabel>)
        requires
            self.wf(),
        ensures
            strip@.len() == self.spec_tabs()@.tabs.len(),
            forall|i: int|
                0 <= i < strip@.len() ==> (#[trigger] strip@[i]).title@ == self.spec_tabs()@.tabs[i].title
                    && strip@[i].active == (self.spec_tabs()@.tabs[i]
                    == self.spec_tabs()@.tabs[self.spec_tabs()@.active]),
            strip@[self.spec_tabs()@.active].active,
    {
        let tabs = self.tabs.tabs();
        let active = self.tabs.active();
        let mut strip: Vec<TabLabel> = Vec::new();
        let mut index: usize = 0;
        while index < tabs.len()
            invariant
                self.wf(),
                tabs@ == self.spec_tabs().spec_tabs(),
                active == Some(&tabs@[self.spec_tabs()@.active]),
                index <= tabs.len(),
                strip@.len() == index,
                forall|i: int|
                    0 <= i < index ==> (#[trigger] strip@[i]).title@ == self.spec_tabs()@.tabs[i].title
                        && strip@[i].active == (self.spec_tabs()@.tabs[i]
                        == self.spec_tabs()@.tabs[self.spec_tabs()@.active]),
            decreases tabs.len() - index,
        {
            let tab = &tabs[index];
            let is_active = match active {
                Some(active) => tab.same_as(active),
                None => false,
            };
            assert(tab@ == self.spec_tabs()@.tabs[index as int]);
            strip.push(TabLabel { title: tab.title().to_owned(), active: is_active });
            index += 1;
        }
        strip
    }

    /// Which of the two history buttons can be pressed.
    pub fn toolbar(&self) -> (toolbar: Toolbar)
        requires
            self.wf(),
        ensures
            toolbar.can_go_back == self.spec_tabs()@.active_tab().unwrap().can_go_back(),
            toolbar.can_go_forward == self.spec_tabs()@.active_tab().unwrap().can_go_forward(),
    {
        match self.tabs.active() {
            Some(tab) => Toolbar {
                can_go_back: tab.can_go_back(),
                can_go_forward: tab.can_go_forward(),
            },
            None => Toolbar { can_go_back: false, can_go_forward: false },
        }
    }

    /// The three lines of the content area: the active rendering engine, the active script
    /// engine, and the notice that stands in for a page.
    pub fn content(&self) -> (lines: Vec<String>)
        ensures
            lines@.len() == 3,
            lines@[0]@ == rendering_line(self.spec_engines()@.rendering.active),
            lines@[1]@ == script_line(self.spec_engines()@.scripting.active),
            lines@[2]@ == CONTENT_NOTICE@,
    {
        let active_render = match self.engines.active_rendering_engine() {
            Some(name) => name,
            None => "No rendering engine",
        };
        let active_script = match self.engines.active_script_engine() {
            Some(name) => name,
            None => "No script engine",
        };
        let mut first = "Active rendering engine: ".to_owned();
        first.append(active_render);
        let mut second = "Active JavaScript engine: ".to_owned();
        second.append(active_script);
        let mut lines: Vec<String> = Vec::new();
        lines.push(first);
        lines.push(second);
        lines.push(CONTENT_NOTICE.to_owned());
        lines
    }

    /// Carries out a command on the tabs and says what the owner of the window has to do.
    pub fn handle(&mut self, command: Command) -> (outcome: Outcome)
        requires
            old(self).wf(),
        ensures
            final(self).wf(),
            final(self).spec_engines() == old(self).spec_engines(),
            final(self).spec_tabs()@ == tabs_after(old(self).spec_tabs()@, command@),
            outcome.redraw == redraw_after(old(self).spec_tabs()@, command@),
            match outcome.address {
                Some(address) => address_after(old(self).spec_tabs()@, command@) == Some(
                    address@,
                ),
                None => address_after(old(self).spec_tabs()@, command@) is None,
            },
    {
        proof {
            lemma_commands_keep_tabs_well_formed(self.tabs@, command@);
        }
        match command {
            Command::SubmitAddress(url) => {
                self.tabs.navigate(url.as_str());
                Outcome { redraw: true, address: None }
            },
            Command::CloseTab(index) => {
                self.tabs.close_tab(index);
                Outcome { redraw: true, address: None }
            },
            Command::SelectTab(index) => {
                self.tabs.switch_to(index);
                Outcome { redraw: true, address: None }
            },
            Command::NewTab => {
                self.tabs.open_tab("New Tab", "about:blank");
                Outcome { redraw: true, address: None }
            },
            Command::Back => {
                let mut address: Option<String> = None;
                if let Some(tab) = self.tabs.active_mut() {
                    if tab.go_back() {
                        address = Some(tab.url().to_owned());
                    }
                }
                assert(self.tabs@.tabs =~= tabs_after_back(old(self).spec_tabs()@).tabs);
                Outcome { redraw: address.is_some(), address }
            },
            Command::Forward => {
                let mut address: Option<String> = None;
                if let Some(tab) = self.tabs.active_mut() {
                    if tab.go_forward() {
                        address = Some(tab.url().to_owned());
                    }
                }
                assert(self.tabs@.tabs =~= tabs_after_forward(old(self).spec_tabs()@).tabs);
                Outcome { redraw: address.is_some(), address }
            },
        }
    }
}

} // verus!
