use page_shell::config::{resolve, ConfigError, WindowEntry, WindowSpec};
use page_shell::startup::{plan_for, plan_from, plan_startup};
use page_shell::surface::BootstrapScript;
use page_shell::window::Target;

#[test]
fn startup_plans_window_and_surface() {
    let text = "{\"tauri\":{\"windows\":[{\"url\":\"https://example.com/\",\"width\":1200,\
        \"height\":780,\"resizable\":false,\"fullscreen\":true}]}}";
    let plan = plan_startup(text, Target::MacOs, true).unwrap();
    assert_eq!(f64::from_bits(plan.window.width_bits), 1200.0);
    assert_eq!(f64::from_bits(plan.window.height_bits), 780.0);
    assert!(!plan.window.resizable);
    assert!(plan.window.fullscreen);
    assert!(plan.window.menu.is_some());
    assert_eq!(plan.surface.url, "https://example.com/");
    assert!(plan.surface.devtools);
    assert_eq!(plan.surface.script, BootstrapScript::HiddenTitlebar);
}

#[test]
fn startup_plan_is_the_plan_for_the_resolved_configuration() {
    let text = "{\"tauri\":{\"windows\":[{\"url\":\"https://example.com/\"}]}}";
    let spec = resolve(text).unwrap();
    assert_eq!(plan_startup(text, Target::Linux, false), Ok(plan_for(&spec, Target::Linux, false)));
}

#[test]
fn startup_fails_on_a_malformed_configuration() {
    assert_eq!(plan_startup("", Target::Linux, false), Err(ConfigError::Malformed));
    assert_eq!(plan_startup("{\"tauri\":", Target::MacOs, false), Err(ConfigError::Malformed));
    assert_eq!(plan_startup("[]", Target::Linux, true), Err(ConfigError::Malformed));
}

#[test]
fn startup_fails_on_a_window_without_size() {
    assert_eq!(
        plan_startup("{\"tauri\":{\"windows\":[{\"width\":0}]}}", Target::Linux, false),
        Err(ConfigError::InvalidSize)
    );
}

fn entry(width: f64, height: f64) -> WindowEntry {
    WindowEntry {
        url: String::from("https://example.com/"),
        width_bits: width.to_bits(),
        height_bits: height.to_bits(),
        resizable: true,
        fullscreen: false,
    }
}

#[test]
fn nothing_read_gives_no_plan() {
    assert_eq!(plan_from(None, Target::Linux, false), Err(ConfigError::Malformed));
    assert_eq!(plan_from(None, Target::MacOs, true), Err(ConfigError::Malformed));
}

#[test]
fn plan_from_plans_for_the_first_entry() {
    let entries = vec![entry(640.0, 480.0), entry(0.0, 0.0)];
    let spec = WindowSpec::new(entry(640.0, 480.0)).unwrap();
    assert_eq!(
        plan_from(Some(entries), Target::MacOs, true),
        Ok(plan_for(&spec, Target::MacOs, true))
    );
}

#[test]
fn plan_from_an_empty_list_plans_the_default_window() {
    let plan = plan_from(Some(Vec::new()), Target::Linux, false).unwrap();
    assert_eq!(f64::from_bits(plan.window.width_bits), 800.0);
    assert_eq!(f64::from_bits(plan.window.height_bits), 600.0);
    assert!(plan.window.resizable);
    assert!(!plan.window.fullscreen);
    assert_eq!(plan.surface.url, "index.html");
}

#[test]
fn plan_from_refuses_a_first_entry_without_size() {
    let entries = vec![entry(0.0, 480.0), entry(640.0, 480.0)];
    assert_eq!(plan_from(Some(entries), Target::Linux, false), Err(ConfigError::InvalidSize));
}
