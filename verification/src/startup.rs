//! Startup sequencing: the exact, ordered plan of engine work that the one
//! winning initialization runs on its background worker.
//!
//! The metrics engine itself is an external collaborator; this module only
//! decides. Given the values the worker has read from the engine (the
//! persisted dirty flag, whether this is the first run ever), it produces
//! the ordered list of actions the worker must perform. The worker executes
//! them one by one and, on the final action, releases the pre-init queue.

use vstd::prelude::*;

use crate::ClientInfoMetrics;

verus! {

/// A core client-identity metric populated at startup.
#[derive(Clone, Copy, PartialEq, Eq, Structural, Debug)]
pub enum CoreMetric {
    /// The application's build identifier.
    AppBuild,
    /// The application's user-visible version string.
    AppDisplayVersion,
    /// The channel the application is distributed on.
    AppChannel,
    /// The operating system version.
    OsVersion,
    /// The machine architecture.
    Architecture,
    /// The device manufacturer.
    DeviceManufacturer,
    /// The device model.
    DeviceModel,
}

/// One unit of work the background worker performs against the external
/// metrics engine.
#[derive(Debug, PartialEq, Eq)]
pub enum EngineAction {
    /// Clear the persisted dirty flag, so that an unfinished initialization
    /// cannot leave it set.
    ClearDirtyFlag,
    /// Register one built-in ping type, synchronously, before any
    /// caller-triggered submission can race it.
    RegisterBuiltinPing {
        /// The built-in ping's name.
        name: String,
    },
    /// Set one core client-identity metric.
    SetCoreMetric {
        /// The metric to set.
        metric: CoreMetric,
        /// The value to record.
        value: String,
    },
    /// Hand off to the external ping-submission path, so anything queued for
    /// submission is dealt with before new recording starts.
    SubmitPendingPings,
    /// Submit the startup diagnostic ping: the previous run probably ended
    /// without clean shutdown.
    SubmitDirtyStartupBaseline,
    /// Clear the metrics whose lifetime is one application run.
    ClearApplicationLifetimeMetrics,
    /// Toggle upload on the engine.
    SetUploadEnabled(bool),
    /// Release the pre-init queue: every operation buffered so far runs,
    /// then the queue switches to passthrough.
    FlushQueue,
}

/// The ghost shape of an engine action: the action with its text fields
/// taken as character sequences.
pub ghost enum ActionModel {
    /// See `EngineAction::ClearDirtyFlag`.
    ClearDirtyFlag,
    /// See `EngineAction::RegisterBuiltinPing`.
    RegisterBuiltinPing(Seq<char>),
    /// See `EngineAction::SetCoreMetric`.
    SetCoreMetric(CoreMetric, Seq<char>),
    /// See `EngineAction::SubmitPendingPings`.
    SubmitPendingPings,
    /// See `EngineAction::SubmitDirtyStartupBaseline`.
    SubmitDirtyStartupBaseline,
    /// See `EngineAction::ClearApplicationLifetimeMetrics`.
    ClearApplicationLifetimeMetrics,
    /// See `EngineAction::SetUploadEnabled`.
    SetUploadEnabled(bool),
    /// See `EngineAction::FlushQueue`.
    FlushQueue,
}

/// The ghost shape of one engine action.
pub open spec fn action_model(action: EngineAction) -> ActionModel {
    match action {
        EngineAction::ClearDirtyFlag => ActionModel::ClearDirtyFlag,
        EngineAction::RegisterBuiltinPing { name } => ActionModel::RegisterBuiltinPing(name@),
        EngineAction::SetCoreMetric { metric, value } => ActionModel::SetCoreMetric(
            metric,
            value@,
        ),
        EngineAction::SubmitPendingPings => ActionModel::SubmitPendingPings,
        EngineAction::SubmitDirtyStartupBaseline => ActionModel::SubmitDirtyStartupBaseline,
        EngineAction::ClearApplicationLifetimeMetrics => ActionModel::ClearApplicationLifetimeMetrics,
        EngineAction::SetUploadEnabled(enabled) => ActionModel::SetUploadEnabled(enabled),
        EngineAction::FlushQueue => ActionModel::FlushQueue,
    }
}

/// The ghost shape of a plan of engine actions.
pub open spec fn actions_model(actions: Seq<EngineAction>) -> Seq<ActionModel> {
    actions.map_values(|a: EngineAction| action_model(a))
}

/// The ghost shape of an optional channel string.
pub open spec fn channel_model(channel: Option<&str>) -> Option<Seq<char>> {
    match channel {
        Some(c) => Some(c@),
        None => None,
    }
}

/// The core client-identity settings, in the order they are recorded: build
/// and display version from the application, the channel when there is one,
/// then the platform identity values ("unknown" where this binding cannot
/// tell, the given architecture string).
pub open spec fn core_settings_model(
    app_build: Seq<char>,
    app_display_version: Seq<char>,
    channel: Option<Seq<char>>,
    architecture: Seq<char>,
) -> Seq<ActionModel> {
    seq![
        ActionModel::SetCoreMetric(CoreMetric::AppBuild, app_build),
        ActionModel::SetCoreMetric(CoreMetric::AppDisplayVersion, app_display_version),
    ] + (match channel {
        Some(c) => seq![ActionModel::SetCoreMetric(CoreMetric::AppChannel, c)],
        None => Seq::<ActionModel>::empty(),
    }) + seq![
        ActionModel::SetCoreMetric(CoreMetric::OsVersion, "unknown"@),
        ActionModel::SetCoreMetric(CoreMetric::Architecture, architecture),
        ActionModel::SetCoreMetric(CoreMetric::DeviceManufacturer, "unknown"@),
        ActionModel::SetCoreMetric(CoreMetric::DeviceModel, "unknown"@),
    ]
}

/// Populates the core client-identity metrics, in the fixed order of
/// `core_settings_model`.
pub fn initialize_core_metrics(
    client_info: &ClientInfoMetrics,
    channel: Option<&str>,
    architecture: &str,
) -> (actions: Vec<EngineAction>)
    ensures
        actions_model(actions@) =~= core_settings_model(
            client_info.app_build@,
            client_info.app_display_version@,
            channel_model(channel),
            architecture@,
        ),
{
    let mut actions: Vec<EngineAction> = Vec::new();
    actions.push(
        EngineAction::SetCoreMetric {
            metric: CoreMetric::AppBuild,
            value: client_info.app_build.clone(),
        },
    );
    actions.push(
        EngineAction::SetCoreMetric {
            metric: CoreMetric::AppDisplayVersion,
            value: client_info.app_display_version.clone(),
        },
    );
    if let Some(app_channel) = channel {
        actions.push(
            EngineAction::SetCoreMetric {
                metric: CoreMetric::AppChannel,
                value: app_channel.to_owned(),
            },
        );
    }
    actions.push(
        EngineAction::SetCoreMetric { metric: CoreMetric::OsVersion, value: unknown_value() },
    );
    actions.push(
        EngineAction::SetCoreMetric {
            metric: CoreMetric::Architecture,
            value: architecture.to_owned(),
        },
    );
    actions.push(
        EngineAction::SetCoreMetric {
            metric: CoreMetric::DeviceManufacturer,
            value: unknown_value(),
        },
    );
    actions.push(
        EngineAction::SetCoreMetric { metric: CoreMetric::DeviceModel, value: unknown_value() },
    );
    actions
}

/// The placeholder recorded where this binding cannot tell the value.
fn unknown_value() -> (r: String)
    ensures
        r@ == "unknown"@,
{
    "unknown".to_owned()
}

/// The full startup plan the winning initialization runs, given what the
/// worker has read from the engine, in this exact order: clear the dirty
/// flag (remembering the value read); register the built-in pings; on the
/// first run ever, populate the core client-identity metrics; hand off to
/// the ping-submission path; on a later run whose previous run ended dirty,
/// submit the startup diagnostic ping; on any later run, clear and
/// repopulate the application-lifetime metrics; finally release the
/// pre-init queue.
pub open spec fn startup_plan_model(
    dirty_flag: bool,
    is_first_run: bool,
    app_build: Seq<char>,
    app_display_version: Seq<char>,
    channel: Option<Seq<char>>,
    architecture: Seq<char>,
) -> Seq<ActionModel> {
    seq![
        ActionModel::ClearDirtyFlag,
        ActionModel::RegisterBuiltinPing("baseline"@),
        ActionModel::RegisterBuiltinPing("metrics"@),
        ActionModel::RegisterBuiltinPing("events"@),
    ] + (if is_first_run {
        core_settings_model(app_build, app_display_version, channel, architecture)
    } else {
        Seq::<ActionModel>::empty()
    }) + seq![ActionModel::SubmitPendingPings] + (if !is_first_run && dirty_flag {
        seq![ActionModel::SubmitDirtyStartupBaseline]
    } else {
        Seq::<ActionModel>::empty()
    }) + (if !is_first_run {
        seq![ActionModel::ClearApplicationLifetimeMetrics] + core_settings_model(
            app_build,
            app_display_version,
            channel,
            architecture,
        )
    } else {
        Seq::<ActionModel>::empty()
    }) + seq![ActionModel::FlushQueue]
}

/// Computes the startup plan. `dirty_flag` and `is_first_run` are the
/// values the worker read from the engine before deciding.
pub fn startup_actions(
    dirty_flag: bool,
    is_first_run: bool,
    client_info: &ClientInfoMetrics,
    channel: Option<&str>,
    architecture: &str,
) -> (actions: Vec<EngineAction>)
    ensures
        actions_model(actions@) =~= startup_plan_model(
            dirty_flag,
            is_first_run,
            client_info.app_build@,
            client_info.app_display_version@,
            channel_model(channel),
            architecture@,
        ),
{
    let mut actions: Vec<EngineAction> = Vec::new();
    actions.push(EngineAction::ClearDirtyFlag);
    actions.push(EngineAction::RegisterBuiltinPing { name: "baseline".to_owned() });
    actions.push(EngineAction::RegisterBuiltinPing { name: "metrics".to_owned() });
    actions.push(EngineAction::RegisterBuiltinPing { name: "events".to_owned() });
    if is_first_run {
        let mut settings = initialize_core_metrics(client_info, channel, architecture);
        actions.append(&mut settings);
    }
    actions.push(EngineAction::SubmitPendingPings);
    if !is_first_run && dirty_flag {
        actions.push(EngineAction::SubmitDirtyStartupBaseline);
    }
    if !is_first_run {
        actions.push(EngineAction::ClearApplicationLifetimeMetrics);
        let mut settings = initialize_core_metrics(client_info, channel, architecture);
        actions.append(&mut settings);
    }
    actions.push(EngineAction::FlushQueue);
    actions
}

/// The plan of one upload toggle run through the queue: the engine's upload
/// switch is set, and when upload goes from off to on the
/// application-lifetime metrics are restored.
pub open spec fn upload_toggle_model(
    old_enabled: bool,
    enabled: bool,
    app_build: Seq<char>,
    app_display_version: Seq<char>,
    channel: Option<Seq<char>>,
    architecture: Seq<char>,
) -> Seq<ActionModel> {
    seq![ActionModel::SetUploadEnabled(enabled)] + (if !old_enabled && enabled {
        core_settings_model(app_build, app_display_version, channel, architecture)
    } else {
        Seq::<ActionModel>::empty()
    })
}

/// Computes the engine work for one upload toggle. `old_enabled` is the
/// engine's upload switch as the worker read it before deciding.
pub fn upload_enabled_actions(
    old_enabled: bool,
    enabled: bool,
    client_info: &ClientInfoMetrics,
    channel: Option<&str>,
    architecture: &str,
) -> (actions: Vec<EngineAction>)
    ensures
        actions_model(actions@) =~= upload_toggle_model(
            old_enabled,
            enabled,
            client_info.app_build@,
            client_info.app_display_version@,
            channel_model(channel),
            architecture@,
        ),
{
    let mut actions: Vec<EngineAction> = Vec::new();
    actions.push(EngineAction::SetUploadEnabled(enabled));
    if !old_enabled && enabled {
        let mut settings = initialize_core_metrics(client_info, channel, architecture);
        actions.append(&mut settings);
    }
    actions
}

} // verus!
