//! The CO2 sensor's initialization sequence.
//!
//! The register-based gas sensor must be brought up by four calls issued
//! once at startup, strictly in order: wake up, stop any in-progress
//! periodic measurement, reinitialize, start periodic measurement. The
//! caller owning the bus performs each command and reports back whether it
//! succeeded; this state machine dictates which command comes next and
//! makes any failure terminal, since a sensor that never started periodic
//! measurement would return garbage forever.

use vstd::prelude::*;

verus! {

/// The bus commands of the bring-up sequence. Waking up is the only one
/// the sensor does not acknowledge.
#[derive(Debug, Clone, Copy, PartialEq, Eq, Structural)]
pub enum Scd41Command {
    WakeUp,
    StopPeriodicMeasurement,
    Reinit,
    StartPeriodicMeasurement,
}

/// Where the bring-up stands: one phase per completed step, plus the
/// terminal `Failed`.
#[derive(Debug, Clone, Copy, PartialEq, Eq, Structural)]
pub enum Scd41Phase {
    Asleep,
    Awake,
    Stopped,
    Reinited,
    Measuring,
    Failed,
}

/// The phase after one step: success advances along the fixed order, any
/// failure is terminal, and the two final phases never move.
pub open spec fn phase_step(phase: Scd41Phase, ok: bool) -> Scd41Phase {
    match phase {
        Scd41Phase::Asleep => if ok {
            Scd41Phase::Awake
        } else {
            Scd41Phase::Failed
        },
        Scd41Phase::Awake => if ok {
            Scd41Phase::Stopped
        } else {
            Scd41Phase::Failed
        },
        Scd41Phase::Stopped => if ok {
            Scd41Phase::Reinited
        } else {
            Scd41Phase::Failed
        },
        Scd41Phase::Reinited => if ok {
            Scd41Phase::Measuring
        } else {
            Scd41Phase::Failed
        },
        Scd41Phase::Measuring => Scd41Phase::Measuring,
        Scd41Phase::Failed => Scd41Phase::Failed,
    }
}

/// The bring-up state machine of the CO2 sensor.
pub struct Scd41Init {
    phase: Scd41Phase,
}

impl Scd41Init {
    pub closed spec fn phase(&self) -> Scd41Phase {
        self.phase
    }

    /// Initialization is done: periodic measurement runs and readings may
    /// be fetched.
    pub open spec fn ready(&self) -> bool {
        self.phase() is Measuring
    }

    /// A sensor still asleep, before any bring-up step.
    pub fn new() -> (s: Scd41Init)
        ensures
            s.phase() is Asleep,
    {
        Scd41Init { phase: Scd41Phase::Asleep }
    }

    /// The next bus command to issue, `None` once the sequence has ended in
    /// success or failure.
    pub fn next_command(&self) -> (r: Option<Scd41Command>)
        ensures
            r == match self.phase() {
                Scd41Phase::Asleep => Some(Scd41Command::WakeUp),
                Scd41Phase::Awake => Some(Scd41Command::StopPeriodicMeasurement),
                Scd41Phase::Stopped => Some(Scd41Command::Reinit),
                Scd41Phase::Reinited => Some(Scd41Command::StartPeriodicMeasurement),
                Scd41Phase::Measuring => None::<Scd41Command>,
                Scd41Phase::Failed => None::<Scd41Command>,
            },
    {
        match self.phase {
            Scd41Phase::Asleep => Some(Scd41Command::WakeUp),
            Scd41Phase::Awake => Some(Scd41Command::StopPeriodicMeasurement),
            Scd41Phase::Stopped => Some(Scd41Command::Reinit),
            Scd41Phase::Reinited => Some(Scd41Command::StartPeriodicMeasurement),
            Scd41Phase::Measuring => None,
            Scd41Phase::Failed => None,
        }
    }

    /// Records whether the issued command succeeded and moves one step.
    pub fn apply_result(&mut self, ok: bool)
        ensures
            final(self).phase() == phase_step(old(self).phase(), ok),
    {
        self.phase = match self.phase {
            Scd41Phase::Asleep => if ok {
                Scd41Phase::Awake
            } else {
                Scd41Phase::Failed
            },
            Scd41Phase::Awake => if ok {
                Scd41Phase::Stopped
            } else {
                Scd41Phase::Failed
            },
            Scd41Phase::Stopped => if ok {
                Scd41Phase::Reinited
            } else {
                Scd41Phase::Failed
            },
            Scd41Phase::Reinited => if ok {
                Scd41Phase::Measuring
            } else {
                Scd41Phase::Failed
            },
            Scd41Phase::Measuring => Scd41Phase::Measuring,
            Scd41Phase::Failed => Scd41Phase::Failed,
        };
    }
}

/// Bring-up succeeds exactly when all four steps succeed in order: from
/// asleep, the sequence of step outcomes ends in a measuring sensor if and
/// only if every outcome was a success, and any failure is terminal.
pub proof fn lemma_init_all_or_nothing(wake: bool, stop: bool, reinit: bool, start: bool)
    ensures
        phase_step(
            phase_step(phase_step(phase_step(Scd41Phase::Asleep, wake), stop), reinit),
            start,
        ) == if wake && stop && reinit && start {
            Scd41Phase::Measuring
        } else {
            Scd41Phase::Failed
        },
{
}

} // verus!
