//! A registry that always has exactly one rendering engine and one JavaScript engine plugged
//! in, each of which can be exchanged for another at any time.
use vstd::prelude::*;

verus! {

/// An engine that turns a location into text.
///
/// An implementation may say what it promises by defining `named` and `renders`; one that
/// does not promises nothing beyond returning.
pub trait RenderingEngine: Send + Sync {
    /// Whether `name` is a name that this engine may give itself.
    open spec fn named(&self, name: Seq<char>) -> bool {
        true
    }

    /// Whether `text` is something that this engine may return for `url`.
    open spec fn renders(&self, url: Seq<char>, text: Seq<char>) -> bool {
        true
    }

    fn name(&self) -> (name: &str)
        ensures
            self.named(name@),
    ;

    fn render(&self, url: &str) -> (text: String)
        ensures
            self.renders(url@, text@),
    ;
}

/// An engine that turns a script into text.
///
/// An implementation may say what it promises by defining `named` and `evaluates`; one that
/// does not promises nothing beyond returning.
pub trait JavaScriptEngine: Send + Sync {
    /// Whether `name` is a name that this engine may give itself.
    open spec fn named(&self, name: Seq<char>) -> bool {
        true
    }

    /// Whether `text` is something that this engine may return for `script`.
    open spec fn evaluates(&self, script: Seq<char>, text: Seq<char>) -> bool {
        true
    }

    fn name(&self) -> (name: &str)
        ensures
            self.named(name@),
    ;

    fn evaluate(&self, script: &str) -> (text: String)
        ensures
            self.evaluates(script@, text@),
    ;
}

/// A place for one value. An engine is moved into its place as it is, so the place holds the
/// very engine that was handed in.
struct Socket<T> {
    plugged: T,
}

/// Holds the rendering engine and the JavaScript engine that are in use.
pub struct EngineRegistry {
    rendering_engine: Socket<Box<dyn RenderingEngine>>,
    javascript_engine: Socket<Box<dyn JavaScriptEngine>>,
}

impl EngineRegistry {
    /// The rendering engine that is plugged in.
    pub closed spec fn rendering(&self) -> &Box<dyn RenderingEngine> {
        &self.rendering_engine.plugged
    }

    /// The JavaScript engine that is plugged in.
    pub closed spec fn javascript(&self) -> &Box<dyn JavaScriptEngine> {
        &self.javascript_engine.plugged
    }

    /// A registry with the two engines plugged in.
    pub fn new(
        rendering_engine: Box<dyn RenderingEngine>,
        javascript_engine: Box<dyn JavaScriptEngine>,
    ) -> (registry: Self)
        ensures
            registry.rendering() == rendering_engine,
            registry.javascript() == javascript_engine,
    {
        let rendering = Socket { plugged: rendering_engine };
        let javascript = Socket { plugged: javascript_engine };
        EngineRegistry { rendering_engine: rendering, javascript_engine: javascript }
    }

    /// The name that the rendering engine gives itself.
    pub fn rendering_engine_name(&self) -> (name: &str)
        ensures
            self.rendering().named(name@),
    {
        self.rendering_engine.plugged.name()
    }

    /// The name that the JavaScript engine gives itself.
    pub fn javascript_engine_name(&self) -> (name: &str)
        ensures
            self.javascript().named(name@),
    {
        self.javascript_engine.plugged.name()
    }

    /// Exchanges the rendering engine for another.
    pub fn set_rendering_engine(&mut self, rendering_engine: Box<dyn RenderingEngine>)
        ensures
            final(self).rendering() == rendering_engine,
            final(self).javascript() == old(self).javascript(),
    {
        let rendering = Socket { plugged: rendering_engine };
        self.rendering_engine = rendering;
    }

    /// Exchanges the JavaScript engine for another.
    pub fn set_javascript_engine(&mut self, javascript_engine: Box<dyn JavaScriptEngine>)
        ensures
            final(self).javascript() == javascript_engine,
            final(self).rendering() == old(self).rendering(),
    {
        let javascript = Socket { plugged: javascript_engine };
        self.javascript_engine = javascript;
    }

    /// What the rendering engine makes of `url`.
    pub fn render_page(&self, url: &str) -> (text: String)
        ensures
            self.rendering().renders(url@, text@),
    {
        self.rendering_engine.plugged.render(url)
    }

    /// What the JavaScript engine makes of `script`.
    pub fn evaluate_script(&self, script: &str) -> (text: String)
        ensures
            self.javascript().evaluates(script@, text@),
    {
        self.javascript_engine.plugged.evaluate(script)
    }
}

/// The text that a mock rendering engine named `name` returns for `url`.
pub open spec fn mock_rendering(name: Seq<char>, url: Seq<char>) -> Seq<char> {
    "["@ + name + "] rendering "@ + url
}

/// The text that a mock JavaScript engine named `name` returns for `script`.
pub open spec fn mock_evaluation(name: Seq<char>, script: Seq<char>) -> Seq<char> {
    "["@ + name + "] eval "@ + script
}

/// A rendering engine that only reports its name and the location it was given.
#[derive(Clone)]
pub struct MockRenderingEngine {
    name: String,
}

impl MockRenderingEngine {
    /// The name that the engine was made with.
    pub closed spec fn label(&self) -> Seq<char> {
        self.name@
    }

    pub fn new(name: &str) -> (engine: Self)
        ensures
            engine.label() == name@,
    {
        Self { name: name.to_owned() }
    }
}

impl RenderingEngine for MockRenderingEngine {
    open spec fn named(&self, name: Seq<char>) -> bool {
        name == self.label()
    }

    open spec fn renders(&self, url: Seq<char>, text: Seq<char>) -> bool {
        text == mock_rendering(self.label(), url)
    }

    fn name(&self) -> (name: &str) {
        self.name.as_str()
    }

    fn render(&self, url: &str) -> (text: String) {
        let mut text = "[".to_owned();
        text.append(self.name.as_str());
        text.append("] rendering ");
        text.append(url);
        text
    }
}

/// A JavaScript engine that only reports its name and the script it was given.
#[derive(Clone)]
pub struct MockJavaScriptEngine {
    name: String,
}

impl MockJavaScriptEngine {
    /// The name that the engine was made with.
    pub closed spec fn label(&self) -> Seq<char> {
        self.name@
    }

    pub fn new(name: &str) -> (engine: Self)
        ensures
            engine.label() == name@,
    {
        Self { name: name.to_owned() }
    }
}

impl JavaScriptEngine for MockJavaScriptEngine {
    open spec fn named(&self, name: Seq<char>) -> bool {
        name == self.label()
    }

    open spec fn evaluates(&self, script: Seq<char>, text: Seq<char>) -> bool {
        text == mock_evaluation(self.label(), script)
    }

    fn name(&self) -> (name: &str) {
        self.name.as_str()
    }

    fn evaluate(&self, script: &str) -> (text: String) {
        let mut text = "[".to_owned();
        text.append(self.name.as_str());
        text.append("] eval ");
        text.append(script);
        text
    }
}

} // verus!
