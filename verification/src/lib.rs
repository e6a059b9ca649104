//! The core of a browser shell: tabs with their navigation history, and registries of
//! rendering and script engines that can be exchanged by name while the shell runs.
//!
//! The crate root holds the registry whose engines answer with structured results, and a plain
//! model of the shell's tab strip. The modules hold the other parts.
use crate::catalog::{Catalog, CatalogView};
use crate::handle::share;
use std::sync::Arc;
use vstd::prelude::*;

pub mod catalog;
pub mod engine;
pub mod engines;
mod handle;
pub mod http_engine;
pub mod state;
pub mod tabs;
pub mod ui;

verus! {

/// The script that `render_demo` runs once the page is rendered.
pub const PAGE_READY_SCRIPT: &'static str = "console.log('page ready')";

/// A tiny placeholder for information a renderer would normally stream back to the compositor.
#[derive(Clone, Debug, PartialEq, Eq)]
pub struct RenderOutput {
    pub summary: String,
}

/// Describes the JavaScript work that was performed for a page.
#[derive(Clone, Debug, PartialEq, Eq)]
pub struct ScriptResult {
    pub description: String,
}

/// A rendering engine that can draw pages into the UI shell.
///
/// An implementation may say what it promises by defining `named` and `renders`; one that
/// does not promises nothing beyond returning.
pub trait RenderingEngine: Send + Sync {
    /// Whether `name` is a name that this engine may give itself.
    open spec fn named(&self, name: Seq<char>) -> bool {
        true
    }

    /// Whether `summary` is a summary that this engine may return for `url`.
    open spec fn renders(&self, url: Seq<char>, summary: Seq<char>) -> bool {
        true
    }

    /// Human readable name to display in the UI.
    fn name(&self) -> (name: &str)
        ensures
            self.named(name@),
    ;

    /// Render a URL and provide a small status summary.
    fn render(&self, url: &str) -> (output: RenderOutput)
        ensures
            self.renders(url@, output.summary@),
    ;
}

/// A script engine that can evaluate inline JavaScript for the currently loaded page.
///
/// An implementation may say what it promises by defining `named` and `executes`; one that
/// does not promises nothing beyond returning.
pub trait ScriptEngine: Send + Sync {
    /// Whether `name` is a name that this engine may give itself.
    open spec fn named(&self, name: Seq<char>) -> bool {
        true
    }

    /// Whether `description` is a description that this engine may return for `script`.
    open spec fn executes(&self, script: Seq<char>, description: Seq<char>) -> bool {
        true
    }

    /// Human readable name to display in the UI.
    fn name(&self) -> (name: &str)
        ensures
            self.named(name@),
    ;

    /// Execute a script and return the result description.
    fn execute(&self, script: &str) -> (result: ScriptResult)
        ensures
            self.executes(script@, result.description@),
    ;
}

/// A rendering engine as the registry keeps it and hands it out.
pub type SharedRenderingEngine = Arc<Box<dyn RenderingEngine>>;

/// A script engine as the registry keeps it and hands it out.
pub type SharedScriptEngine = Arc<Box<dyn ScriptEngine>>;

/// What a registry is, mathematically: one catalog for each kind of engine.
pub struct RegistryView {
    pub rendering: CatalogView<SharedRenderingEngine>,
    pub scripting: CatalogView<SharedScriptEngine>,
}

impl RegistryView {
    pub open spec fn wf(self) -> bool {
        self.rendering.wf() && self.scripting.wf()
    }

    pub open spec fn empty() -> RegistryView {
        RegistryView { rendering: CatalogView::empty(), scripting: CatalogView::empty() }
    }
}

/// Registry that keeps a set of pluggable engines and tracks which ones are active.
pub struct EngineRegistry {
    rendering_engines: Catalog<SharedRenderingEngine>,
    script_engines: Catalog<SharedScriptEngine>,
}

impl View for EngineRegistry {
    type V = RegistryView;

    closed spec fn view(&self) -> RegistryView {
        RegistryView { rendering: self.rendering_engines@, scripting: self.script_engines@ }
    }
}

impl Default for EngineRegistry {
    fn default() -> (registry: Self)
        ensures
            registry.wf(),
            registry@ == RegistryView::empty(),
    {
        EngineRegistry { rendering_engines: Catalog::new(), script_engines: Catalog::new() }
    }
}

impl EngineRegistry {
    /// Every registry that this crate hands out is well formed, and its methods keep it so.
    pub open spec fn wf(&self) -> bool {
        self@.wf()
    }

    /// Registers `engine` under the name it gives itself. An engine already registered under
    /// that name is replaced. The engine becomes active only if none of its kind was.
    pub fn register_rendering_engine(&mut self, engine: Box<dyn RenderingEngine>)
        requires
            old(self).wf(),
        ensures
            final(self).wf(),
            final(self)@.scripting == old(self)@.scripting,
            exists|name: Seq<char>, shared: SharedRenderingEngine|
                shared == engine && engine.named(name) && final(self)@.rendering == old(
                    self,
                )@.rendering.register(name, shared),
            old(self)@.rendering.active is Some ==> final(self)@.rendering.active == old(
                self,
            )@.rendering.active,
            final(self)@.rendering.active is Some,
    {
        let name = engine.name().to_owned();
        let shared = Arc::new(engine);
        self.rendering_engines.register(name, shared);
    }

    /// Registers `engine` under the name it gives itself. An engine already registered under
    /// that name is replaced. The engine becomes active only if none of its kind was.
    pub fn register_script_engine(&mut self, engine: Box<dyn ScriptEngine>)
        requires
            old(self).wf(),
        ensures
            final(self).wf(),
            final(self)@.rendering == old(self)@.rendering,
            exists|name: Seq<char>, shared: SharedScriptEngine|
                shared == engine && engine.named(name) && final(self)@.scripting == old(
                    self,
                )@.scripting.register(name, shared),
            old(self)@.scripting.active is Some ==> final(self)@.scripting.active == old(
                self,
            )@.scripting.active,
            final(self)@.scripting.active is Some,
    {
        let name = engine.name().to_owned();
        let shared = Arc::new(engine);
        self.script_engines.register(name, shared);
    }

    /// The names of the registered rendering engines, in the order of their first registration.
    pub fn available_rendering_engines(&self) -> (names: Vec<String>)
        ensures
            crate::catalog::texts(names@) == self@.rendering.names,
    {
        self.rendering_engines.owned_names()
    }

    /// The names of the registered script engines, in the order of their first registration.
    pub fn available_script_engines(&self) -> (names: Vec<String>)
        ensures
            crate::catalog::texts(names@) == self@.scripting.names,
    {
        self.script_engines.owned_names()
    }

    /// Makes the rendering engine registered under `name` the active one and says whether there
    /// is such an engine. An unknown name changes nothing.
    pub fn set_rendering_engine(&mut self, name: &str) -> (known: bool)
        requires
            old(self).wf(),
        ensures
            final(self).wf(),
            known == old(self)@.rendering.contains(name@),
            final(self)@.rendering == old(self)@.rendering.select(name@),
            final(self)@.scripting == old(self)@.scripting,
            !known ==> final(self)@ == old(self)@,
    {
        self.rendering_engines.select(name)
    }

    /// Makes the script engine registered under `name` the active one and says whether there is
    /// such an engine. An unknown name changes nothing.
    pub fn set_script_engine(&mut self, name: &str) -> (known: bool)
        requires
            old(self).wf(),
        ensures
            final(self).wf(),
            known == old(self)@.scripting.contains(name@),
            final(self)@.scripting == old(self)@.scripting.select(name@),
            final(self)@.rendering == old(self)@.rendering,
            !known ==> final(self)@ == old(self)@,
    {
        self.script_engines.select(name)
    }

    /// The active rendering engine, shared with the registry.
    pub fn active_rendering_engine(&self) -> (engine: Option<SharedRenderingEngine>)
        requires
            self.wf(),
        ensures
            engine == self@.rendering.active_item(),
    {
        match self.rendering_engines.active_item() {
            Some(engine) => Some(share(engine)),
            None => None,
        }
    }

    /// The active script engine, shared with the registry.
    pub fn active_script_engine(&self) -> (engine: Option<SharedScriptEngine>)
        requires
            self.wf(),
        ensures
            engine == self@.scripting.active_item(),
    {
        match self.script_engines.active_item() {
            Some(engine) => Some(share(engine)),
            None => None,
        }
    }

    /// Renders `url` with the active rendering engine and then runs `PAGE_READY_SCRIPT` with the
    /// active script engine. There is a result exactly when an engine of each kind is active.
    pub fn render_demo(&self, url: &str) -> (demo: Option<(RenderOutput, ScriptResult)>)
        requires
            self.wf(),
        ensures
            demo is Some <==> self@.rendering.active_item() is Some
                && self@.scripting.active_item() is Some,
            demo is Some <==> self@.rendering.names.len() > 0 && self@.scripting.names.len() > 0,
            demo is Some ==> self@.rendering.active_item().unwrap().renders(
                url@,
                demo.unwrap().0.summary@,
            ),
            demo is Some ==> self@.scripting.active_item().unwrap().executes(
                PAGE_READY_SCRIPT@,
                demo.unwrap().1.description@,
            ),
    {
        let renderer = match self.active_rendering_engine() {
            Some(renderer) => renderer,
            None => { return None; },
        };
        let script = match self.active_script_engine() {
            Some(script) => script,
            None => { return None; },
        };
        let render_output = renderer.render(url);
        let script_output = script.execute(PAGE_READY_SCRIPT);
        Some((render_output, script_output))
    }
}

/// The summary that the mock rendering engine returns for `url`.
pub open spec fn mock_summary(url: Seq<char>) -> Seq<char> {
    "Rendering "@ + url + " via GPU surfaces"@
}

/// The description that the mock script engine returns for `script`.
pub open spec fn mock_description(script: Seq<char>) -> Seq<char> {
    "Evaluated script: "@ + script
}

/// A lightweight rendering engine used for demo purposes.
pub struct MockRenderingEngine;

impl Default for MockRenderingEngine {
    fn default() -> (engine: Self) {
        MockRenderingEngine
    }
}

impl RenderingEngine for MockRenderingEngine {
    open spec fn named(&self, name: Seq<char>) -> bool {
        name == "Vector"@
    }

    open spec fn renders(&self, url: Seq<char>, summary: Seq<char>) -> bool {
        summary == mock_summary(url)
    }

    fn name(&self) -> (name: &str) {
        "Vector"
    }

    fn render(&self, url: &str) -> (output: RenderOutput) {
        let mut summary = "Rendering ".to_owned();
        summary.append(url);
        summary.append(" via GPU surfaces");
        RenderOutput { summary }
    }
}

/// A simple script engine that pretends to execute JavaScript.
pub struct MockScriptEngine;

impl Default for MockScriptEngine {
    fn default() -> (engine: Self) {
        MockScriptEngine
    }
}

impl ScriptEngine for MockScriptEngine {
    open spec fn named(&self, name: Seq<char>) -> bool {
        name == "Mercury JS"@
    }

    open spec fn executes(&self, script: Seq<char>, description: Seq<char>) -> bool {
        description == mock_description(script)
    }

    fn name(&self) -> (name: &str) {
        "Mercury JS"
    }

    fn execute(&self, script: &str) -> (result: ScriptResult) {
        let mut description = "Evaluated script: ".to_owned();
        description.append(script);
        ScriptResult { description }
    }
}

/// High level UI state shared across the UI and tests.
#[derive(Clone, Debug, PartialEq, Eq)]
pub struct BrowserTab {
    pub title: String,
    pub url: String,
}

/// What a tab of the model is, mathematically.
pub struct BrowserTabView {
    pub title: Seq<char>,
    pub url: Seq<char>,
}

impl View for BrowserTab {
    type V = BrowserTabView;

    open spec fn view(&self) -> BrowserTabView {
        BrowserTabView { title: self.title@, url: self.url@ }
    }
}

/// The tab strip of the shell with the status line of the active page.
#[derive(Clone, Debug, PartialEq, Eq)]
pub struct BrowserModel {
    pub tabs: Vec<BrowserTab>,
    pub active_tab: usize,
    pub render_status: Option<String>,
}

/// What the model is, mathematically.
pub struct BrowserModelView {
    pub tabs: Seq<BrowserTabView>,
    pub active_tab: int,
    pub render_status: Option<Seq<char>>,
}

impl BrowserModelView {
    /// The model as it starts: one tab at the start page, and no status yet.
    pub open spec fn initial() -> BrowserModelView {
        BrowserModelView {
            tabs: seq![BrowserTabView { title: "New Tab"@, url: "neodymium://start"@ }],
            active_tab: 0,
            render_status: None,
        }
    }

    pub open spec fn set_active_status(self, status: Seq<char>) -> BrowserModelView {
        BrowserModelView { render_status: Some(status), ..self }
    }

    /// A new tab goes to the end and becomes active.
    pub open spec fn add_tab(self, title: Seq<char>, url: Seq<char>) -> BrowserModelView {
        BrowserModelView {
            tabs: self.tabs.push(BrowserTabView { title, url }),
            active_tab: self.tabs.len() as int,
            ..self
        }
    }
}

impl View for BrowserModel {
    type V = BrowserModelView;

    open spec fn view(&self) -> BrowserModelView {
        BrowserModelView {
            tabs: Seq::new(self.tabs@.len(), |i: int| self.tabs@[i]@),
            active_tab: self.active_tab as int,
            render_status: match self.render_status {
                Some(status) => Some(status@),
                None => None,
            },
        }
    }
}

impl BrowserModel {
    /// A model with one tab at the start page.
    pub fn new() -> (model: Self)
        ensures
            model@ == BrowserModelView::initial(),
    {
        let mut tabs = Vec::new();
        tabs.push(BrowserTab { title: "New Tab".to_owned(), url: "neodymium://start".to_owned() });
        let model = BrowserModel { tabs, active_tab: 0, render_status: None };
        assert(model@.tabs =~= BrowserModelView::initial().tabs);
        model
    }

    /// Replaces the status line.
    pub fn set_active_status(&mut self, status: &str)
        ensures
            final(self)@ == old(self)@.set_active_status(status@),
    {
        self.render_status = Some(status.to_owned());
    }

    /// Adds a tab at the end and makes it active.
    pub fn add_tab(&mut self, title: &str, url: &str)
        ensures
            final(self)@ == old(self)@.add_tab(title@, url@),
            final(self)@.active_tab == final(self)@.tabs.len() - 1,
    {
        self.tabs.push(BrowserTab { title: title.to_owned(), url: url.to_owned() });
        self.active_tab = self.tabs.len() - 1;
        assert(self@.tabs =~= old(self)@.add_tab(title@, url@).tabs);
    }
}

} // verus!
