use neodymium::engine::{EngineRegistry, MockJavaScriptEngine, MockRenderingEngine};
use neodymium::state::BrowserState;

#[test]
fn tab_management_mimics_browser_flow() {
    let mut state = BrowserState::new("https://google.com");
    assert_eq!(state.active_tab().url, "https://google.com");

    let new_tab_id = state
        .open_tab("Docs", "https://developer.chrome.com")
        .id;
    assert_eq!(state.active_tab().id, new_tab_id);

    state.switch_tab(1);
    assert_eq!(state.active_tab().id, 1);

    state.navigate("https://chromium.org");
    assert_eq!(state.active_tab().url, "https://chromium.org");
}

#[test]
fn engines_are_pluggable() {
    let mut registry = EngineRegistry::new(
        Box::new(MockRenderingEngine::new("Blink-compatible")),
        Box::new(MockJavaScriptEngine::new("V8-compatible")),
    );

    assert!(
        registry
            .render_page("https://example.com")
            .contains("Blink-compatible")
    );
    assert!(
        registry
            .evaluate_script("alert('hi')")
            .contains("V8-compatible")
    );

    registry.set_rendering_engine(Box::new(MockRenderingEngine::new("WebKit")));
    registry.set_javascript_engine(Box::new(MockJavaScriptEngine::new("SpiderMonkey")));

    assert_eq!(registry.rendering_engine_name(), "WebKit");
    assert_eq!(registry.javascript_engine_name(), "SpiderMonkey");
}

#[test]
fn mock_engines_answer_with_their_name_and_input() {
    let mut registry = EngineRegistry::new(
        Box::new(MockRenderingEngine::new("Blink")),
        Box::new(MockJavaScriptEngine::new("V8")),
    );
    assert_eq!(registry.rendering_engine_name(), "Blink");
    assert_eq!(registry.javascript_engine_name(), "V8");
    assert_eq!(
        registry.render_page("https://example.com"),
        "[Blink] rendering https://example.com"
    );
    assert_eq!(registry.evaluate_script("1 + 1"), "[V8] eval 1 + 1");

    registry.set_javascript_engine(Box::new(MockJavaScriptEngine::new("JavaScriptCore")));
    assert_eq!(registry.rendering_engine_name(), "Blink");
    assert_eq!(registry.evaluate_script(""), "[JavaScriptCore] eval ");
    assert_eq!(registry.render_page(""), "[Blink] rendering ");
}

#[test]
fn session_tabs_are_numbered_in_opening_order() {
    let mut state = BrowserState::new("home");
    assert_eq!(state.tabs().len(), 1);
    assert_eq!(state.active_tab().id, 1);
    assert_eq!(state.active_tab().title, "New Tab");

    assert_eq!(state.open_tab("Two", "two").id, 2);
    let third = state.open_tab("Three", "three").clone();
    assert_eq!(third.id, 3);
    assert_eq!(third.title, "Three");
    assert_eq!(third.url, "three");
    assert_eq!(state.tabs().len(), 3);
    assert_eq!(state.active_tab(), &third);

    state.switch_tab(2);
    assert_eq!(state.active_tab().title, "Two");

    // An identifier that no tab carries changes nothing.
    state.switch_tab(0);
    assert_eq!(state.active_tab().id, 2);
    state.switch_tab(4);
    assert_eq!(state.active_tab().id, 2);

    state.navigate("elsewhere");
    assert_eq!(state.active_tab().url, "elsewhere");
    assert_eq!(state.active_tab().title, "Two");
    assert_eq!(state.tabs()[0].url, "home");
    assert_eq!(state.tabs()[2].url, "three");
}
