use flowent_desktop::startup::{
    plan_setup, registered_plugins, BuildMode, LoggingGate, Plugin, StartupStage, DEFAULT_LOG_FILTER,
};

#[test]
fn setup_in_development_opens_devtools() {
    let p = plan_setup(true, BuildMode::Development);
    assert_eq!(p.window_title, Some("Flowent AI v0.1.0".to_string()));
    assert!(p.open_devtools);
}

#[test]
fn setup_in_release_keeps_devtools_closed() {
    let p = plan_setup(true, BuildMode::Release);
    assert_eq!(p.window_title, Some("Flowent AI v0.1.0".to_string()));
    assert!(!p.open_devtools);
}

#[test]
fn setup_without_window_does_nothing() {
    let p = plan_setup(false, BuildMode::Development);
    assert_eq!(p.window_title, None);
    assert!(!p.open_devtools);
}

#[test]
fn nine_distinct_plugins() {
    let ps = registered_plugins();
    assert_eq!(ps.len(), 9);
    for i in 0..ps.len() {
        for j in 0..ps.len() {
            assert_eq!(i == j, ps[i] == ps[j]);
        }
    }
    assert_eq!(ps[0], Plugin::Shell);
    assert_eq!(ps[8], Plugin::Opener);
}

#[test]
fn stages_run_in_order() {
    let mut s = StartupStage::Uninitialized;
    let mut seen = vec![s];
    while let Some(n) = s.next() {
        s = n;
        seen.push(s);
    }
    assert_eq!(seen, vec![
        StartupStage::Uninitialized,
        StartupStage::LoggingReady,
        StartupStage::PluginsRegistered,
        StartupStage::CommandsRegistered,
        StartupStage::WindowConfigured,
        StartupStage::Running,
    ]);
}

#[test]
fn logging_gate_grants_once() {
    let mut g = LoggingGate::new();
    assert!(!g.initialized());
    assert!(g.begin());
    assert!(g.initialized());
    assert!(!g.begin());
    assert!(!g.begin());
    assert!(g.initialized());
}

#[test]
fn default_log_filter_is_info() {
    assert_eq!(DEFAULT_LOG_FILTER, "info");
}
