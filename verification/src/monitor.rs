//! Intrusion alert evaluation and the values of the panel's output lines.
//! The alert is a pure function of the current mode and the current sensor
//! reading: nothing latches, and a disarmed panel is quiescent whatever the
//! sensor says. Driving the actual pins is left to the application.

use vstd::prelude::*;

use crate::machine::AlarmMode;

verus! {

/// Whether the audible and visual alert should be on this cycle.
#[derive(Clone, Copy, Debug, PartialEq, Eq, Structural)]
pub enum AlertLevel {
    Inactive,
    Active,
}

/// The alert owed to a mode and a sensor reading: active exactly while the
/// panel is armed and the sensor is triggered.
pub open spec fn alert_level(mode: AlarmMode, triggered: bool) -> AlertLevel {
    if mode == AlarmMode::Armed && triggered {
        AlertLevel::Active
    } else {
        AlertLevel::Inactive
    }
}

/// Observes the motion sensor while armed; forced quiescent while disarmed.
pub struct IntrusionMonitor {}

impl IntrusionMonitor {
    /// The alert level for this cycle, from the mode and the sensor alone.
    pub fn evaluate(mode: AlarmMode, triggered: bool) -> (level: AlertLevel)
        ensures
            level == alert_level(mode, triggered),
    {
        if matches!(mode, AlarmMode::Armed) && triggered {
            AlertLevel::Active
        } else {
            AlertLevel::Inactive
        }
    }
}

/// The logic level the alert output line (buzzer and indicator) should hold.
pub fn alert_line(level: AlertLevel) -> (high: bool)
    ensures
        high == (level == AlertLevel::Active),
{
    matches!(level, AlertLevel::Active)
}

/// The logic levels of the two mode indicator outputs: the armed indicator
/// is high exactly while armed, the disarmed indicator exactly while
/// disarmed.
pub fn indicator_lines(mode: AlarmMode) -> (lines: (bool, bool))
    ensures
        lines.0 == (mode == AlarmMode::Armed),
        lines.1 == (mode == AlarmMode::Disarmed),
{
    match mode {
        AlarmMode::Armed => (true, false),
        AlarmMode::Disarmed => (false, true),
    }
}

} // verus!
