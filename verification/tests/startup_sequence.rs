use glean::startup::{
    initialize_core_metrics, startup_actions, upload_enabled_actions, CoreMetric, EngineAction,
};
use glean::ClientInfoMetrics;

fn client_info() -> ClientInfoMetrics {
    ClientInfoMetrics {
        app_build: String::from("build-17"),
        app_display_version: String::from("1.2.3"),
    }
}

fn setting(metric: CoreMetric, value: &str) -> EngineAction {
    EngineAction::SetCoreMetric {
        metric,
        value: String::from(value),
    }
}

fn expected_settings_with_channel() -> Vec<EngineAction> {
    vec![
        setting(CoreMetric::AppBuild, "build-17"),
        setting(CoreMetric::AppDisplayVersion, "1.2.3"),
        setting(CoreMetric::AppChannel, "beta"),
        setting(CoreMetric::OsVersion, "unknown"),
        setting(CoreMetric::Architecture, "x86_64"),
        setting(CoreMetric::DeviceManufacturer, "unknown"),
        setting(CoreMetric::DeviceModel, "unknown"),
    ]
}

#[test]
fn core_metrics_with_channel_in_fixed_order() {
    let actions = initialize_core_metrics(&client_info(), Some("beta"), "x86_64");
    assert_eq!(actions, expected_settings_with_channel());
}

#[test]
fn core_metrics_without_channel_skip_the_channel() {
    let actions = initialize_core_metrics(&client_info(), None, "aarch64");
    assert_eq!(
        actions,
        vec![
            setting(CoreMetric::AppBuild, "build-17"),
            setting(CoreMetric::AppDisplayVersion, "1.2.3"),
            setting(CoreMetric::OsVersion, "unknown"),
            setting(CoreMetric::Architecture, "aarch64"),
            setting(CoreMetric::DeviceManufacturer, "unknown"),
            setting(CoreMetric::DeviceModel, "unknown"),
        ]
    );
}

fn register(name: &str) -> EngineAction {
    EngineAction::RegisterBuiltinPing {
        name: String::from(name),
    }
}

#[test]
fn first_run_startup_plan() {
    let actions = startup_actions(false, true, &client_info(), Some("beta"), "x86_64");
    let mut expected = vec![
        EngineAction::ClearDirtyFlag,
        register("baseline"),
        register("metrics"),
        register("events"),
    ];
    expected.extend(expected_settings_with_channel());
    expected.push(EngineAction::SubmitPendingPings);
    expected.push(EngineAction::FlushQueue);
    assert_eq!(actions, expected);
}

#[test]
fn later_run_with_dirty_flag_submits_the_diagnostic_ping() {
    let actions = startup_actions(true, false, &client_info(), Some("beta"), "x86_64");
    let mut expected = vec![
        EngineAction::ClearDirtyFlag,
        register("baseline"),
        register("metrics"),
        register("events"),
        EngineAction::SubmitPendingPings,
        EngineAction::SubmitDirtyStartupBaseline,
        EngineAction::ClearApplicationLifetimeMetrics,
    ];
    expected.extend(expected_settings_with_channel());
    expected.push(EngineAction::FlushQueue);
    assert_eq!(actions, expected);
}

#[test]
fn later_clean_run_skips_the_diagnostic_ping() {
    let actions = startup_actions(false, false, &client_info(), Some("beta"), "x86_64");
    let mut expected = vec![
        EngineAction::ClearDirtyFlag,
        register("baseline"),
        register("metrics"),
        register("events"),
        EngineAction::SubmitPendingPings,
        EngineAction::ClearApplicationLifetimeMetrics,
    ];
    expected.extend(expected_settings_with_channel());
    expected.push(EngineAction::FlushQueue);
    assert_eq!(actions, expected);
}

#[test]
fn first_run_with_dirty_flag_never_submits_the_diagnostic_ping() {
    // The diagnostic ping is only sent from the second run on, even when the
    // flag was somehow set.
    let actions = startup_actions(true, true, &client_info(), None, "x86_64");
    assert!(!actions.contains(&EngineAction::SubmitDirtyStartupBaseline));
}

#[test]
fn re_enabling_upload_restores_application_lifetime_metrics() {
    let actions = upload_enabled_actions(false, true, &client_info(), Some("beta"), "x86_64");
    let mut expected = vec![EngineAction::SetUploadEnabled(true)];
    expected.extend(expected_settings_with_channel());
    assert_eq!(actions, expected);
}

#[test]
fn other_upload_toggles_only_set_the_switch() {
    assert_eq!(
        upload_enabled_actions(true, false, &client_info(), Some("beta"), "x86_64"),
        vec![EngineAction::SetUploadEnabled(false)]
    );
    assert_eq!(
        upload_enabled_actions(true, true, &client_info(), None, "arm"),
        vec![EngineAction::SetUploadEnabled(true)]
    );
    assert_eq!(
        upload_enabled_actions(false, false, &client_info(), None, "arm"),
        vec![EngineAction::SetUploadEnabled(false)]
    );
}
