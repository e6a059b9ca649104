use neodymium::{
    BrowserModel, BrowserTab, EngineRegistry, MockRenderingEngine, MockScriptEngine, RenderOutput,
    RenderingEngine, ScriptEngine, ScriptResult, PAGE_READY_SCRIPT,
};

struct EchoRenderer;
impl RenderingEngine for EchoRenderer {
    fn name(&self) -> &str {
        "Echo"
    }

    fn render(&self, url: &str) -> RenderOutput {
        RenderOutput {
            summary: format!("echo:{url}"),
        }
    }
}

struct CountingScript;
impl ScriptEngine for CountingScript {
    fn name(&self) -> &str {
        "Counter"
    }

    fn execute(&self, script: &str) -> ScriptResult {
        ScriptResult {
            description: format!("{} chars", script.len()),
        }
    }
}

#[test]
fn can_register_multiple_engines() {
    let mut registry = EngineRegistry::default();
    registry.register_rendering_engine(Box::new(EchoRenderer));
    registry.register_rendering_engine(Box::new(MockRenderingEngine::default()));
    registry.register_script_engine(Box::new(CountingScript));
    registry.register_script_engine(Box::new(MockScriptEngine::default()));

    let renderers = registry.available_rendering_engines();
    assert!(renderers.contains(&"Echo".to_string()));
    assert!(renderers.contains(&"Vector".to_string()));

    let scripts = registry.available_script_engines();
    assert!(scripts.contains(&"Counter".to_string()));
    assert!(scripts.contains(&"Mercury JS".to_string()));
}

#[test]
fn browser_model_tracks_tabs() {
    let mut model = BrowserModel::new();
    model.add_tab("New Tab", "https://chromium.org");
    model.set_active_status("GPU surface ready");

    assert_eq!(model.tabs.len(), 2);
    assert_eq!(model.active_tab, 1);
    assert_eq!(model.render_status.as_deref(), Some("GPU surface ready"));
}

struct UppercaseRenderer;
impl RenderingEngine for UppercaseRenderer {
    fn name(&self) -> &str {
        "Upper"
    }

    fn render(&self, url: &str) -> RenderOutput {
        RenderOutput {
            summary: url.to_uppercase(),
        }
    }
}

struct LowerScript;
impl ScriptEngine for LowerScript {
    fn name(&self) -> &str {
        "Lower"
    }

    fn execute(&self, script: &str) -> ScriptResult {
        ScriptResult {
            description: script.to_lowercase(),
        }
    }
}

#[test]
fn tracks_active_engines_and_executes_them() {
    let mut registry = EngineRegistry::default();
    registry.register_rendering_engine(Box::new(UppercaseRenderer));
    registry.register_script_engine(Box::new(LowerScript));

    let (render, script) = registry.render_demo("https://example.com").unwrap();
    assert_eq!(render.summary, "HTTPS://EXAMPLE.COM");
    assert_eq!(script.description, "console.log('page ready')");
}

#[test]
fn switches_engines_by_name() {
    let mut registry = EngineRegistry::default();
    registry.register_rendering_engine(Box::new(UppercaseRenderer));
    registry.register_rendering_engine(Box::new(MockRenderingEngine::default()));
    registry.register_script_engine(Box::new(LowerScript));
    registry.register_script_engine(Box::new(MockScriptEngine::default()));

    assert!(registry.set_rendering_engine("Vector"));
    assert!(registry.set_script_engine("Mercury JS"));

    let (render, script) = registry.render_demo("neodymium://status").unwrap();
    assert_eq!(render.summary, "Rendering neodymium://status via GPU surfaces");
    assert_eq!(script.description, "Evaluated script: console.log('page ready')");
}

#[test]
fn a_demo_needs_an_engine_of_each_kind() {
    let mut registry = EngineRegistry::default();
    assert!(registry.render_demo("u").is_none());
    assert!(registry.active_rendering_engine().is_none());
    assert!(registry.active_script_engine().is_none());
    assert!(registry.available_rendering_engines().is_empty());

    registry.register_rendering_engine(Box::new(EchoRenderer));
    assert!(registry.render_demo("u").is_none());
    assert_eq!(registry.active_rendering_engine().unwrap().name(), "Echo");

    registry.register_script_engine(Box::new(CountingScript));
    let (render, script) = registry.render_demo("u").unwrap();
    assert_eq!(render.summary, "echo:u");
    assert_eq!(script.description, format!("{} chars", PAGE_READY_SCRIPT.len()));
    assert_eq!(PAGE_READY_SCRIPT, "console.log('page ready')");
}

#[test]
fn the_first_registration_stays_active() {
    let mut registry = EngineRegistry::default();
    registry.register_rendering_engine(Box::new(EchoRenderer));
    registry.register_rendering_engine(Box::new(MockRenderingEngine));
    registry.register_rendering_engine(Box::new(UppercaseRenderer));
    assert_eq!(registry.active_rendering_engine().unwrap().name(), "Echo");
    assert_eq!(
        registry.available_rendering_engines(),
        vec!["Echo".to_string(), "Vector".to_string(), "Upper".to_string()]
    );

    assert!(!registry.set_rendering_engine("Gecko"));
    assert_eq!(registry.active_rendering_engine().unwrap().name(), "Echo");
    assert!(!registry.set_script_engine("Echo"));
    assert!(registry.active_script_engine().is_none());

    assert!(registry.set_rendering_engine("Upper"));
    let active = registry.active_rendering_engine().unwrap();
    assert_eq!(active.render("abc"), RenderOutput { summary: "ABC".to_string() });
}

#[test]
fn mock_engines_describe_their_work() {
    let renderer = MockRenderingEngine::default();
    assert_eq!(renderer.name(), "Vector");
    assert_eq!(renderer.render("x").summary, "Rendering x via GPU surfaces");
    let script = MockScriptEngine::default();
    assert_eq!(script.name(), "Mercury JS");
    assert_eq!(
        script.execute("x"),
        ScriptResult { description: "Evaluated script: x".to_string() }
    );
}

#[test]
fn a_new_model_has_one_start_tab() {
    let mut model = BrowserModel::new();
    assert_eq!(
        model.tabs,
        vec![BrowserTab { title: "New Tab".to_string(), url: "neodymium://start".to_string() }]
    );
    assert_eq!(model.active_tab, 0);
    assert_eq!(model.render_status, None);

    model.set_active_status("one");
    model.set_active_status("two");
    assert_eq!(model.render_status.as_deref(), Some("two"));

    model.add_tab("Docs", "https://docs.rs");
    model.add_tab("News", "https://example.com");
    assert_eq!(model.active_tab, 2);
    assert_eq!(model.tabs[1].title, "Docs");
    assert_eq!(model.tabs[2].url, "https://example.com");
    assert_eq!(model.render_status.as_deref(), Some("two"));
}
