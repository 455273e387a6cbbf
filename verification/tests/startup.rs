use shell_bootstrap::outcome::Termination;
use shell_bootstrap::outcome::conclude_run;
use shell_bootstrap::plan::Plugin;
use shell_bootstrap::plan::Step;
use shell_bootstrap::plan::plugin_order;
use shell_bootstrap::plan::startup_plan;
use shell_bootstrap::platform::Platform;
use shell_bootstrap::platform::dmabuf_workaround_var;
use shell_bootstrap::platform::needs_dmabuf_workaround;

#[test]
fn workaround_applies_only_on_linux() {
    assert!(needs_dmabuf_workaround(Platform::Linux));
    assert!(!needs_dmabuf_workaround(Platform::MacOs));
    assert!(!needs_dmabuf_workaround(Platform::Windows));
    assert!(!needs_dmabuf_workaround(Platform::Other));
}

#[test]
fn workaround_variable_disables_dmabuf_renderer() {
    let (name, value) = dmabuf_workaround_var();
    assert_eq!(name, "WEBKIT_DISABLE_DMABUF_RENDERER");
    assert_eq!(value, "1");
}

#[test]
fn plugins_come_in_the_fixed_order() {
    let order = plugin_order();
    assert_eq!(
        order,
        vec![
            Plugin::Opener,
            Plugin::WindowState,
            Plugin::Store,
            Plugin::Process,
            Plugin::Sql,
            Plugin::Fs,
            Plugin::Dialog,
            Plugin::Notification,
            Plugin::Http,
        ]
    );
}

#[test]
fn linux_plan_sets_the_variable_first() {
    let plan = startup_plan(Platform::Linux);
    assert_eq!(plan.len(), 11);
    assert_eq!(plan[0], Step::SetRenderingEnvVar);
    for (k, plugin) in plugin_order().into_iter().enumerate() {
        assert_eq!(plan[1 + k], Step::RegisterPlugin(plugin));
    }
    assert_eq!(plan[10], Step::StartEventLoop);
}

#[test]
fn other_plans_never_touch_the_environment() {
    for platform in [Platform::MacOs, Platform::Windows, Platform::Other] {
        let plan = startup_plan(platform);
        assert_eq!(plan.len(), 10);
        assert!(plan.iter().all(|s| *s != Step::SetRenderingEnvVar));
    }
}

#[test]
fn every_plan_registers_all_plugins_before_the_event_loop() {
    for platform in [Platform::Linux, Platform::MacOs, Platform::Windows, Platform::Other] {
        let plan = startup_plan(platform);
        let last = plan.len() - 1;
        assert_eq!(plan[last], Step::StartEventLoop);
        assert!(plan[..last].iter().all(|s| *s != Step::StartEventLoop));
        for plugin in plugin_order() {
            assert!(plan[..last].contains(&Step::RegisterPlugin(plugin)));
        }
    }
}

#[test]
fn clean_return_concludes_in_clean_shutdown() {
    assert_eq!(conclude_run(None), Termination::CleanShutdown);
}

#[test]
fn failed_run_concludes_in_fatal_abort() {
    let concluded = conclude_run(Some("window system unavailable".to_string()));
    assert_eq!(
        concluded,
        Termination::FatalAbort(
            "error while running Tauri application: window system unavailable".to_string()
        )
    );
    assert_ne!(concluded, Termination::CleanShutdown);
}
