//! Engines that can be swapped at run time, and the registry that keeps them.
//!
//! A rendering engine turns a location into text, a script engine turns a script into text,
//! and each goes by a name. The registry holds any number of both, under their names, and
//! marks one of each kind as active.
use crate::catalog::{Catalog, CatalogView};
use crate::handle::share;
use std::sync::Arc;
use vstd::prelude::*;

verus! {

/// What `render_page` answers while no rendering engine is registered.
pub const NO_RENDERING_ENGINE: &'static str = "No rendering engine available";

/// What `evaluate_script` answers while no script engine is registered.
pub const NO_SCRIPT_ENGINE: &'static str = "No script engine available";

/// A pluggable rendering engine that can be swapped at runtime.
///
/// An implementation may say what it promises by defining `named` and `renders`; one that
/// does not promises nothing beyond returning.
pub trait RenderingEngine: Send + Sync {
    /// Whether `name` is a name that this engine may give itself.
    open spec fn named(&self, name: Seq<char>) -> bool {
        true
    }

    /// Whether `text` is something that this engine may return for `url`.
    open spec fn renders(&self, url: Seq<char>, text: Seq<char>) -> bool {
        true
    }

    fn name(&self) -> (name: &str)
        ensures
            self.named(name@),
    ;

    fn render(&self, url: &str) -> (text: String)
        ensures
            self.renders(url@, text@),
    ;
}

/// A pluggable JavaScript engine that can be swapped at runtime.
///
/// An implementation may say what it promises by defining `named` and `executes`; one that
/// does not promises nothing beyond returning.
pub trait ScriptEngine: Send + Sync {
    /// Whether `name` is a name that this engine may give itself.
    open spec fn named(&self, name: Seq<char>) -> bool {
        true
    }

    /// Whether `text` is something that this engine may return for `script`.
    open spec fn executes(&self, script: Seq<char>, text: Seq<char>) -> bool {
        true
    }

    fn name(&self) -> (name: &str)
        ensures
            self.named(name@),
    ;

    fn execute(&self, script: &str) -> (text: String)
        ensures
            self.executes(script@, text@),
    ;
}

/// A rendering engine as the registry keeps it and hands it out.
pub type SharedRenderingEngine = Arc<Box<dyn RenderingEngine>>;

/// A script engine as the registry keeps it and hands it out.
pub type SharedScriptEngine = Arc<Box<dyn ScriptEngine>>;

/// What a registry is, mathematically: one catalog for each kind of engine.
pub struct RegistryView {
    pub rendering: CatalogView<SharedRenderingEngine>,
    pub scripting: CatalogView<SharedScriptEngine>,
}

impl RegistryView {
    pub open spec fn wf(self) -> bool {
        self.rendering.wf() && self.scripting.wf()
    }

    pub open spec fn empty() -> RegistryView {
        RegistryView { rendering: CatalogView::empty(), scripting: CatalogView::empty() }
    }
}

/// Tracks available rendering and script engines to keep the UI decoupled from the backend.
pub struct EngineRegistry {
    rendering_engines: Catalog<SharedRenderingEngine>,
    script_engines: Catalog<SharedScriptEngine>,
}

impl View for EngineRegistry {
    type V = RegistryView;

    closed spec fn view(&self) -> RegistryView {
        RegistryView { rendering: self.rendering_engines@, scripting: self.script_engines@ }
    }
}

impl Default for EngineRegistry {
    fn default() -> (registry: Self)
        ensures
            registry.wf(),
            registry@ == RegistryView::empty(),
    {
        EngineRegistry { rendering_engines: Catalog::new(), script_engines: Catalog::new() }
    }
}

impl EngineRegistry {
    /// Every registry that this module hands out is well formed, and its methods keep it so.
    pub open spec fn wf(&self) -> bool {
        self@.wf()
    }

    /// A registry without engines.
    pub fn new() -> (registry: Self)
        ensures
            registry.wf(),
            registry@ == RegistryView::empty(),
    {
        EngineRegistry { rendering_engines: Catalog::new(), script_engines: Catalog::new() }
    }

    /// Registers `engine` under the name it gives itself. An engine already registered under
    /// that name is replaced. The engine becomes active only if none of its kind was.
    pub fn register_rendering_engine(&mut self, engine: Box<dyn RenderingEngine>)
        requires
            old(self).wf(),
        ensures
            final(self).wf(),
            final(self)@.scripting == old(self)@.scripting,
            exists|name: Seq<char>, shared: SharedRenderingEngine|
                shared == engine && engine.named(name) && final(self)@.rendering == old(
                    self,
                )@.rendering.register(name, shared),
            old(self)@.rendering.active is Some ==> final(self)@.rendering.active == old(
                self,
            )@.rendering.active,
            final(self)@.rendering.active is Some,
    {
        let name = engine.name().to_owned();
        let shared = Arc::new(engine);
        self.rendering_engines.register(name, shared);
    }

    /// Registers `engine` under the name it gives itself. An engine already registered under
    /// that name is replaced. The engine becomes active only if none of its kind was.
    pub fn register_script_engine(&mut self, engine: Box<dyn ScriptEngine>)
        requires
            old(self).wf(),
        ensures
            final(self).wf(),
            final(self)@.rendering == old(self)@.rendering,
            exists|name: Seq<char>, shared: SharedScriptEngine|
                shared == engine && engine.named(name) && final(self)@.scripting == old(
                    self,
                )@.scripting.register(name, shared),
            old(self)@.scripting.active is Some ==> final(self)@.scripting.active == old(
                self,
            )@.scripting.active,
            final(self)@.scripting.active is Some,
    {
        let name = engine.name().to_owned();
        let shared = Arc::new(engine);
        self.script_engines.register(name, shared);
    }

    /// Makes the rendering engine registered under `name` the active one and says whether there
    /// is such an engine. An unknown name changes nothing.
    pub fn set_active_rendering_engine(&mut self, name: &str) -> (known: bool)
        requires
            old(self).wf(),
        ensures
            final(self).wf(),
            known == old(self)@.rendering.contains(name@),
            final(self)@.rendering == old(self)@.rendering.select(name@),
            final(self)@.scripting == old(self)@.scripting,
            !known ==> final(self)@ == old(self)@,
    {
        self.rendering_engines.select(name)
    }

    /// Makes the script engine registered under `name` the active one and says whether there is
    /// such an engine. An unknown name changes nothing.
    pub fn set_active_script_engine(&mut self, name: &str) -> (known: bool)
        requires
            old(self).wf(),
        ensures
            final(self).wf(),
            known == old(self)@.scripting.contains(name@),
            final(self)@.scripting == old(self)@.scripting.select(name@),
            final(self)@.rendering == old(self)@.rendering,
            !known ==> final(self)@ == old(self)@,
    {
        self.script_engines.select(name)
    }

    /// The name of the active rendering engine.
    pub fn active_rendering_engine(&self) -> (name: Option<&str>)
        ensures
            match name {
                Some(name) => self@.rendering.active == Some(name@),
                None => self@.rendering.active is None,
            },
    {
        self.rendering_engines.active_name()
    }

    /// The name of the active script engine.
    pub fn active_script_engine(&self) -> (name: Option<&str>)
        ensures
            match name {
                Some(name) => self@.scripting.active == Some(name@),
                None => self@.scripting.active is None,
            },
    {
        self.script_engines.active_name()
    }

    /// The active rendering engine itself, shared with the registry.
    pub fn active_rendering_implementation(&self) -> (engine: Option<SharedRenderingEngine>)
        requires
            self.wf(),
        ensures
            engine == self@.rendering.active_item(),
    {
        match self.rendering_engines.active_item() {
            Some(engine) => Some(share(engine)),
            None => None,
        }
    }

    /// The active script engine itself, shared with the registry.
    pub fn active_script_implementation(&self) -> (engine: Option<SharedScriptEngine>)
        requires
            self.wf(),
        ensures
            engine == self@.scripting.active_item(),
    {
        match self.script_engines.active_item() {
            Some(engine) => Some(share(engine)),
            None => None,
        }
    }

    /// The names of the registered rendering engines, in the order of their first registration.
    pub fn rendering_engines(&self) -> (names: Vec<&str>)
        ensures
            names@.len() == self@.rendering.names.len(),
            forall|i: int|
                0 <= i < names@.len() ==> (#[trigger] names@[i])@ == self@.rendering.names[i],
    {
        self.rendering_engines.names()
    }

    /// The names of the registered script engines, in the order of their first registration.
    pub fn script_engines(&self) -> (names: Vec<&str>)
        ensures
            names@.len() == self@.scripting.names.len(),
            forall|i: int|
                0 <= i < names@.len() ==> (#[trigger] names@[i])@ == self@.scripting.names[i],
    {
        self.script_engines.names()
    }

    /// What the active rendering engine makes of `url`, or `NO_RENDERING_ENGINE` while none is
    /// registered.
    pub fn render_page(&self, url: &str) -> (text: String)
        requires
            self.wf(),
        ensures
            match self@.rendering.active_item() {
                Some(engine) => engine.renders(url@, text@),
                None => text@ == NO_RENDERING_ENGINE@,
            },
            self@.rendering.names.len() == 0 ==> text@ == NO_RENDERING_ENGINE@,
    {
        match self.rendering_engines.active_item() {
            Some(engine) => engine.render(url),
            None => NO_RENDERING_ENGINE.to_owned(),
        }
    }

    /// What the active script engine makes of `script`, or `NO_SCRIPT_ENGINE` while none is
    /// registered.
    pub fn evaluate_script(&self, script: &str) -> (text: String)
        requires
            self.wf(),
        ensures
            match self@.scripting.active_item() {
                Some(engine) => engine.executes(script@, text@),
                None => text@ == NO_SCRIPT_ENGINE@,
            },
            self@.scripting.names.len() == 0 ==> text@ == NO_SCRIPT_ENGINE@,
    {
        match self.script_engines.active_item() {
            Some(engine) => engine.execute(script),
            None => NO_SCRIPT_ENGINE.to_owned(),
        }
    }
}

} // verus!
