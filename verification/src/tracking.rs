//! The system's own focus-follows-mouse: active window tracking.

use vstd::prelude::*;

verus! {

/// Settings of active window tracking.
#[derive(Debug, Clone, Copy, PartialEq, Eq, Structural)]
pub struct ActiveTrackingSettings {
    /// Whether focus follows the mouse.
    pub tracking_enabled: bool,
    /// Whether a window that gets the focus is raised.
    pub zorder_enabled: bool,
    /// The delay before a window gets the focus, in milliseconds.
    pub timeout_ms: u32,
}

/// A system parameter of active window tracking.
#[derive(Debug, Clone, Copy, PartialEq, Eq, Structural)]
pub enum TrackingParameter {
    ActiveWindowTracking,
    ActiveWindowZorder,
    ActiveWindowTimeout,
}

/// A change of a system parameter, its value as the system takes it.
#[derive(Debug, Clone, Copy, PartialEq, Eq, Structural)]
pub struct ParameterChange {
    pub parameter: TrackingParameter,
    pub value: usize,
}

/// Calls `as_bool` of `windows_core::BOOL` on a value: every number but zero is true.
#[verifier::external_body]
pub(crate) fn as_bool(value: i32) -> (truth: bool)
    ensures
        truth == (value != 0),
{
    windows_core::BOOL(value).as_bool()
}

/// The settings that three numbers stand for, read from the system.
pub open spec fn settings_told(tracking: i32, zorder: i32, timeout: u32) -> ActiveTrackingSettings {
    ActiveTrackingSettings {
        tracking_enabled: tracking != 0,
        zorder_enabled: zorder != 0,
        timeout_ms: timeout,
    }
}

/// The settings in what the system wrote for the three parameters.
pub fn get_active_tracking_settings(
    tracking: i32,
    zorder: i32,
    timeout: u32,
) -> (settings: ActiveTrackingSettings)
    ensures
        settings == settings_told(tracking, zorder, timeout),
{
    ActiveTrackingSettings {
        tracking_enabled: as_bool(tracking),
        zorder_enabled: as_bool(zorder),
        timeout_ms: timeout,
    }
}

/// The number by which the system takes a truth value.
pub open spec fn number_of(enabled: bool) -> usize {
    if enabled {
        1
    } else {
        0
    }
}

/// The change that switches active window tracking on or off.
pub fn set_active_window_tracking(enabled: bool) -> (change: ParameterChange)
    ensures
        change.parameter == TrackingParameter::ActiveWindowTracking,
        change.value == number_of(enabled),
{
    let value = if enabled {
        1usize
    } else {
        0usize
    };
    ParameterChange { parameter: TrackingParameter::ActiveWindowTracking, value }
}

/// The change that makes windows that get the focus be raised, or not.
pub fn set_active_window_zorder(enabled: bool) -> (change: ParameterChange)
    ensures
        change.parameter == TrackingParameter::ActiveWindowZorder,
        change.value == number_of(enabled),
{
    let value = if enabled {
        1usize
    } else {
        0usize
    };
    ParameterChange { parameter: TrackingParameter::ActiveWindowZorder, value }
}

/// The change that sets the delay before a window gets the focus; zero means at once.
pub fn set_active_window_timeout(timeout_ms: u32) -> (change: ParameterChange)
    ensures
        change.parameter == TrackingParameter::ActiveWindowTimeout,
        change.value == timeout_ms,
{
    ParameterChange {
        parameter: TrackingParameter::ActiveWindowTimeout,
        value: timeout_ms as usize,
    }
}

/// The changes that put settings into effect, in order.
pub open spec fn changes_for(settings: ActiveTrackingSettings) -> Seq<ParameterChange> {
    seq![
        ParameterChange {
            parameter: TrackingParameter::ActiveWindowTracking,
            value: number_of(settings.tracking_enabled),
        },
        ParameterChange {
            parameter: TrackingParameter::ActiveWindowZorder,
            value: number_of(settings.zorder_enabled),
        },
        ParameterChange {
            parameter: TrackingParameter::ActiveWindowTimeout,
            value: settings.timeout_ms as usize,
        },
    ]
}

/// Focus follows the mouse at once, and windows are not raised.
pub open spec fn no_raise_settings() -> ActiveTrackingSettings {
    ActiveTrackingSettings { tracking_enabled: true, zorder_enabled: false, timeout_ms: 0 }
}

/// The changes made when the program starts.
pub open spec fn start_changes(no_raise: bool) -> Seq<ParameterChange> {
    if no_raise {
        changes_for(no_raise_settings())
    } else {
        seq![]
    }
}

/// The settings stored when the program starts: those that the system had, if they are to be
/// changed.
pub open spec fn stored_on_start(
    no_raise: bool,
    system: ActiveTrackingSettings,
) -> Option<ActiveTrackingSettings> {
    if no_raise {
        Some(system)
    } else {
        None
    }
}

/// The changes made when the program ends.
pub open spec fn exit_changes(stored: Option<ActiveTrackingSettings>) -> Seq<ParameterChange> {
    match stored {
        Some(settings) => changes_for(settings),
        None => seq![],
    }
}

/// The changes that put settings into effect.
pub fn changes_to(settings: &ActiveTrackingSettings) -> (changes: Vec<ParameterChange>)
    ensures
        changes@ == changes_for(*settings),
{
    let changes = vec![
        set_active_window_tracking(settings.tracking_enabled),
        set_active_window_zorder(settings.zorder_enabled),
        set_active_window_timeout(settings.timeout_ms),
    ];
    assert(changes@ =~= changes_for(*settings));
    changes
}

/// The changes to make when the program starts: with `no_raise`, focus follows the mouse at
/// once and without raising; else nothing is changed.
pub fn changes_on_start(no_raise: bool) -> (changes: Vec<ParameterChange>)
    ensures
        changes@ == start_changes(no_raise),
{
    if no_raise {
        let settings = ActiveTrackingSettings {
            tracking_enabled: true,
            zorder_enabled: false,
            timeout_ms: 0,
        };
        changes_to(&settings)
    } else {
        Vec::new()
    }
}

/// The settings to store when the program starts, out of those that the system has.
pub fn settings_to_store(
    no_raise: bool,
    settings: ActiveTrackingSettings,
) -> (stored: Option<ActiveTrackingSettings>)
    ensures
        stored == stored_on_start(no_raise, settings),
{
    if no_raise {
        Some(settings)
    } else {
        None
    }
}

/// The changes to make when the program ends: the settings that were stored are put back.
pub fn changes_on_exit(stored: &Option<ActiveTrackingSettings>) -> (changes: Vec<ParameterChange>)
    ensures
        changes@ == exit_changes(*stored),
{
    match stored {
        Some(settings) => changes_to(settings),
        None => Vec::new(),
    }
}

/// The settings of a system after a change.
pub open spec fn after_change(
    system: ActiveTrackingSettings,
    change: ParameterChange,
) -> ActiveTrackingSettings {
    match change.parameter {
        TrackingParameter::ActiveWindowTracking => ActiveTrackingSettings {
            tracking_enabled: change.value != 0,
            ..system
        },
        TrackingParameter::ActiveWindowZorder => ActiveTrackingSettings {
            zorder_enabled: change.value != 0,
            ..system
        },
        TrackingParameter::ActiveWindowTimeout => ActiveTrackingSettings {
            timeout_ms: change.value as u32,
            ..system
        },
    }
}

/// The settings of a system after changes, made in order.
pub open spec fn after_changes(
    system: ActiveTrackingSettings,
    changes: Seq<ParameterChange>,
) -> ActiveTrackingSettings
    decreases changes.len(),
{
    if changes.len() == 0 {
        system
    } else {
        after_change(after_changes(system, changes.drop_last()), changes.last())
    }
}

/// Whatever the system's settings were, the changes for settings bring about just those.
pub proof fn changes_bring_settings_about(
    system: ActiveTrackingSettings,
    settings: ActiveTrackingSettings,
)
    ensures
        after_changes(system, changes_for(settings)) == settings,
{
    let changes = changes_for(settings);
    reveal_with_fuel(after_changes, 4);
    assert(changes.drop_last().drop_last().drop_last() =~= seq![]);
    assert(changes.drop_last().last() == changes[1]);
    assert(changes.drop_last().drop_last().last() == changes[0]);
}

/// While the program runs with `no_raise`, focus follows the mouse at once and without
/// raising; without it, the system's settings are left alone. Once the program has ended, the
/// system has the settings that it had before.
pub proof fn exit_undoes_start(no_raise: bool, system: ActiveTrackingSettings)
    ensures
        after_changes(system, start_changes(no_raise)) == if no_raise {
            no_raise_settings()
        } else {
            system
        },
        after_changes(
            after_changes(system, start_changes(no_raise)),
            exit_changes(stored_on_start(no_raise, system)),
        ) == system,
{
    changes_bring_settings_about(system, no_raise_settings());
    changes_bring_settings_about(no_raise_settings(), system);
}

/// The numbers written for settings stand for the same settings when they are read.
pub proof fn settings_written_are_read_back(settings: ActiveTrackingSettings)
    ensures
        settings_told(
            changes_for(settings)[0].value as i32,
            changes_for(settings)[1].value as i32,
            changes_for(settings)[2].value as u32,
        ) == settings,
{
}

/// Settings are put into effect by three changes, one for each parameter. A truth value is
/// written as one or zero, the delay as it is.
pub proof fn settings_are_written_as_numbers(settings: ActiveTrackingSettings)
    ensures
        changes_for(settings).len() == 3,
        changes_for(settings)[0].parameter == TrackingParameter::ActiveWindowTracking,
        changes_for(settings)[1].parameter == TrackingParameter::ActiveWindowZorder,
        changes_for(settings)[2].parameter == TrackingParameter::ActiveWindowTimeout,
        settings.tracking_enabled ==> changes_for(settings)[0].value == 1,
        !settings.tracking_enabled ==> changes_for(settings)[0].value == 0,
        settings.zorder_enabled ==> changes_for(settings)[1].value == 1,
        !settings.zorder_enabled ==> changes_for(settings)[1].value == 0,
        changes_for(settings)[2].value == settings.timeout_ms,
{
}

/// A truth value is written as one or zero.
pub proof fn a_truth_value_is_written_as_one_or_zero(enabled: bool)
    ensures
        enabled ==> number_of(enabled) == 1,
        !enabled ==> number_of(enabled) == 0,
{
}

/// Every number but zero that the system tells stands for a setting that is on, whatever the
/// other two numbers are, and the delay is taken as it is.
pub proof fn every_number_but_zero_is_on(tracking: i32, zorder: i32, timeout: u32)
    ensures
        settings_told(tracking, zorder, timeout).tracking_enabled <==> tracking != 0,
        settings_told(tracking, zorder, timeout).zorder_enabled <==> zorder != 0,
        settings_told(tracking, zorder, timeout).timeout_ms == timeout,
{
}

/// With `no_raise` the program starts with tracking switched on, raising switched off and no
/// delay, keeps the settings that it found, and puts just those back at the end. Without it, it
/// keeps nothing and changes nothing, neither at the start nor at the end.
pub proof fn only_no_raise_changes_the_system(system: ActiveTrackingSettings)
    ensures
        start_changes(true) == seq![
            ParameterChange { parameter: TrackingParameter::ActiveWindowTracking, value: 1 },
            ParameterChange { parameter: TrackingParameter::ActiveWindowZorder, value: 0 },
            ParameterChange { parameter: TrackingParameter::ActiveWindowTimeout, value: 0 },
        ],
        stored_on_start(true, system) == Some(system),
        exit_changes(Some(system)) == changes_for(system),
        start_changes(false).len() == 0,
        stored_on_start(false, system) is None,
        exit_changes(None).len() == 0,
{
}

} // verus!
