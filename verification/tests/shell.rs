use neodymium::engines::{RenderingEngine, ScriptEngine};
use neodymium::http_engine::{
    page_text, Fetched, HTTP_ENGINE_NAME, TIMEOUT_SECONDS, USER_AGENT,
};
use neodymium::ui::{
    BrowserView, BuiltinEngine, Command, EngineKind, Outcome, TabLabel, Toolbar,
    ADDRESS_PLACEHOLDER, CONTENT_NOTICE, DEFAULT_ADDRESS,
};

fn labels(view: &BrowserView) -> Vec<(String, bool)> {
    view.tab_strip().into_iter().map(|label| (label.title, label.active)).collect()
}

#[test]
fn a_fetch_is_shown_as_its_body_or_its_failure() {
    assert_eq!(page_text(Fetched::Body("world".to_string())), "world");
    assert_eq!(page_text(Fetched::Body(String::new())), "");
    assert_eq!(
        page_text(Fetched::UnreadableBody("stream closed".to_string())),
        "Error reading body: stream closed"
    );
    let unreachable = page_text(Fetched::Unreachable("connection refused".to_string()));
    assert!(unreachable.starts_with("Error connecting: "));
    assert_eq!(unreachable, "Error connecting: connection refused");
    assert_eq!(HTTP_ENGINE_NAME, "HTTP Engine");
    assert_eq!(USER_AGENT, "Neodymium/0.1");
    assert_eq!(TIMEOUT_SECONDS, 10);
}

#[test]
fn a_new_window_has_a_blank_tab_and_the_builtin_engines() {
    let view = BrowserView::new();
    assert_eq!(labels(&view), vec![("New Tab".to_string(), true)]);
    assert_eq!(view.tabs().active().unwrap().url(), "about:blank");
    assert_eq!(view.toolbar(), Toolbar { can_go_back: false, can_go_forward: false });
    assert_eq!(view.engines().rendering_engines(), vec!["Blink", "WebKit"]);
    assert_eq!(view.engines().script_engines(), vec!["V8", "SpiderMonkey"]);
    assert_eq!(view.engines().active_rendering_engine(), Some("Blink"));
    assert_eq!(view.engines().active_script_engine(), Some("V8"));
    assert_eq!(view.engines().render_page("u"), "[Blink] rendering u");
    assert_eq!(view.engines().evaluate_script("s"), "[V8] executed s");
    assert_eq!(
        view.content(),
        vec![
            "Active rendering engine: Blink".to_string(),
            "Active JavaScript engine: V8".to_string(),
            "Content would be rendered here once a backend is connected.".to_string(),
        ]
    );
    assert_eq!(view.content()[2], CONTENT_NOTICE);
    assert_eq!(DEFAULT_ADDRESS, "https://example.com");
    assert_eq!(ADDRESS_PLACEHOLDER, "Search or enter address");
}

#[test]
fn builtin_engines_report_what_they_were_asked() {
    let renderer = BuiltinEngine::new("Blink", EngineKind::Rendering);
    assert_eq!(RenderingEngine::name(&renderer), "Blink");
    assert_eq!(ScriptEngine::name(&renderer), "Blink");
    assert_eq!(renderer.render("https://example.com"), "[Blink] rendering https://example.com");
    assert_eq!(renderer.execute("1 + 1"), "Blink cannot execute scripts");

    let script = BuiltinEngine::new("V8", EngineKind::Script);
    assert_eq!(script.execute("1 + 1"), "[V8] executed 1 + 1");
    assert_eq!(script.render("u"), "[V8] rendering u");
}

fn redraw_only(outcome: Outcome) -> bool {
    outcome.address.is_none() && outcome.redraw
}

#[test]
fn commands_drive_the_tabs() {
    let mut view = BrowserView::new();

    // Nothing to go back to: nothing happens.
    let outcome = view.handle(Command::Back);
    assert!(!outcome.redraw);
    assert_eq!(outcome.address, None);
    let outcome = view.handle(Command::Forward);
    assert!(!outcome.redraw);
    assert_eq!(outcome.address, None);

    assert!(redraw_only(view.handle(Command::SubmitAddress("https://a.example".to_string()))));
    assert!(redraw_only(view.handle(Command::SubmitAddress("https://b.example".to_string()))));
    assert_eq!(view.tabs().active().unwrap().url(), "https://b.example");
    assert_eq!(view.toolbar(), Toolbar { can_go_back: true, can_go_forward: false });

    let outcome = view.handle(Command::Back);
    assert!(outcome.redraw);
    assert_eq!(outcome.address.as_deref(), Some("https://a.example"));
    assert_eq!(view.toolbar(), Toolbar { can_go_back: true, can_go_forward: true });

    let outcome = view.handle(Command::Forward);
    assert!(outcome.redraw);
    assert_eq!(outcome.address.as_deref(), Some("https://b.example"));

    assert!(redraw_only(view.handle(Command::NewTab)));
    assert_eq!(
        view.tab_strip(),
        vec![
            TabLabel { title: "New Tab".to_string(), active: false },
            TabLabel { title: "New Tab".to_string(), active: true },
        ]
    );
    assert_eq!(view.tabs().active().unwrap().url(), "about:blank");

    assert!(redraw_only(view.handle(Command::SelectTab(0))));
    assert_eq!(view.tabs().active().unwrap().url(), "https://b.example");
    assert!(redraw_only(view.handle(Command::SelectTab(7))));
    assert_eq!(view.tabs().active_index(), 0);

    assert!(redraw_only(view.handle(Command::CloseTab(0))));
    assert_eq!(labels(&view), vec![("New Tab".to_string(), true)]);
    assert_eq!(view.tabs().active().unwrap().url(), "about:blank");

    assert!(redraw_only(view.handle(Command::CloseTab(0))));
    assert!(redraw_only(view.handle(Command::CloseTab(5))));
    assert_eq!(labels(&view), vec![("New Tab".to_string(), true)]);
}

#[test]
fn tabs_that_agree_with_the_active_tab_are_drawn_active() {
    let mut view = BrowserView::new();
    view.handle(Command::NewTab);
    view.handle(Command::NewTab);
    // Three blank tabs that nothing tells apart.
    assert_eq!(
        labels(&view),
        vec![
            ("New Tab".to_string(), true),
            ("New Tab".to_string(), true),
            ("New Tab".to_string(), true),
        ]
    );
    view.handle(Command::SubmitAddress("https://example.com".to_string()));
    assert_eq!(
        labels(&view),
        vec![
            ("New Tab".to_string(), false),
            ("New Tab".to_string(), false),
            ("New Tab".to_string(), true),
        ]
    );
    view.handle(Command::SelectTab(1));
    assert_eq!(
        labels(&view),
        vec![
            ("New Tab".to_string(), true),
            ("New Tab".to_string(), true),
            ("New Tab".to_string(), false),
        ]
    );
}
