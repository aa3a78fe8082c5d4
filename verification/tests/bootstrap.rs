use app_bootstrap::{bootstrap_plan, core_plugins, main_window_label, setup_plan, LogLevel, Plugin};

#[test]
fn plugins_in_registration_order() {
    let v = core_plugins();
    assert_eq!(v, vec![Plugin::FileSystem, Plugin::Dialog, Plugin::Shell, Plugin::Http]);
}

#[test]
fn main_window_is_main() {
    assert_eq!(main_window_label(), "main");
}

#[test]
fn setup_on_supported_platform_debug_build() {
    let p = setup_plan(true, true);
    assert_eq!(p.vibrancy.unwrap().window_label, "main");
    assert_eq!(p.logging.unwrap().level, LogLevel::Info);
}

#[test]
fn setup_on_supported_platform_release_build() {
    let p = setup_plan(true, false);
    assert_eq!(p.vibrancy.unwrap().window_label, "main");
    assert!(p.logging.is_none());
}

#[test]
fn setup_on_other_platform_debug_build() {
    let p = setup_plan(false, true);
    assert!(p.vibrancy.is_none());
    assert_eq!(p.logging.unwrap().level, LogLevel::Info);
}

#[test]
fn setup_on_other_platform_release_build() {
    let p = setup_plan(false, false);
    assert!(p.vibrancy.is_none());
    assert!(p.logging.is_none());
}

#[test]
fn bootstrap_plan_holds_plugins_and_setup() {
    let p = bootstrap_plan(true, true);
    assert_eq!(p.plugins, vec![Plugin::FileSystem, Plugin::Dialog, Plugin::Shell, Plugin::Http]);
    assert_eq!(p.setup.vibrancy.unwrap().window_label, "main");
    assert_eq!(p.setup.logging.unwrap().level, LogLevel::Info);
}

#[test]
fn bootstrap_plan_on_minimal_configuration() {
    let p = bootstrap_plan(false, false);
    assert_eq!(p.plugins.len(), 4);
    assert!(p.setup.vibrancy.is_none());
    assert!(p.setup.logging.is_none());
}
