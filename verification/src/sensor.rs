//! The sampling task as a machine: it is told what happened and answers
//! with what to do next. Waiting and talking to the sensor are left to the
//! caller.

use crate::error::ErrorKind;
use crate::reading::Reading;
use vstd::prelude::*;

verus! {

/// Milliseconds that the sensor needs after power-up.
pub const POWER_UP_MILLIS: u64 = 30;

/// Milliseconds between two measurements: the sensor's own cycle.
pub const SAMPLE_INTERVAL_MILLIS: u64 = 5000;

/// Where the sampling task stands.
#[derive(Clone, Copy, Debug, PartialEq, Eq, Structural)]
pub enum SensorPhase {
    /// Waiting out the power-up delay.
    PoweringUp,
    /// The sensor is being woken and reinitialised.
    Reinitialising,
    /// The serial number is being read.
    Identifying,
    /// Periodic measurement is being started.
    Starting,
    /// Waiting out the interval before the next measurement.
    Waiting,
    /// A measurement is being fetched.
    Measuring,
    /// A reading is being published.
    Publishing,
    /// The task has given up.
    Halted,
}

/// What the caller reports back.
#[derive(Clone, Debug, PartialEq, Eq)]
pub enum SensorEvent {
    /// The last command was carried out.
    Done,
    /// The sensor delivered a reading.
    Measured(Reading),
    /// The sensor driver reported an error.
    Failed { diagnostic: String },
}

/// What the caller is to do next.
#[derive(Clone, Debug, PartialEq, Eq)]
pub enum SensorCommand {
    /// Wait for `millis` milliseconds, then report `Done`.
    Sleep { millis: u64 },
    /// Wake the sensor and reinitialise it.
    WakeAndReinit,
    /// Read the serial number.
    ReadSerial,
    /// Start periodic measurement.
    StartPeriodic,
    /// Fetch a measurement.
    Measure,
    /// Publish the reading to the handoff, then report `Done`.
    Publish(Reading),
    /// Stop for good, for the reason given.
    Halt(ErrorKind),
    /// Nothing: the event was not awaited.
    Idle,
}

/// The phase and the command that follow `event` in `phase`.
///
/// A failure to read the serial number is passed over. A failure to
/// reinitialise, to start or to measure halts the task with the driver's
/// diagnostic. A reading is published as it came. An event that the phase
/// does not await changes nothing.
pub open spec fn sensor_next(phase: SensorPhase, event: SensorEvent) -> (
    SensorPhase,
    SensorCommand,
) {
    match (phase, event) {
        (SensorPhase::PoweringUp, SensorEvent::Done) => (
            SensorPhase::Reinitialising,
            SensorCommand::WakeAndReinit,
        ),
        (SensorPhase::Reinitialising, SensorEvent::Done) => (
            SensorPhase::Identifying,
            SensorCommand::ReadSerial,
        ),
        (SensorPhase::Reinitialising, SensorEvent::Failed { diagnostic }) => (
            SensorPhase::Halted,
            SensorCommand::Halt(ErrorKind::SensorReadFailure { diagnostic }),
        ),
        (SensorPhase::Identifying, SensorEvent::Done) => (
            SensorPhase::Starting,
            SensorCommand::StartPeriodic,
        ),
        (SensorPhase::Identifying, SensorEvent::Failed { diagnostic }) => (
            SensorPhase::Starting,
            SensorCommand::StartPeriodic,
        ),
        (SensorPhase::Starting, SensorEvent::Done) => (
            SensorPhase::Waiting,
            SensorCommand::Sleep { millis: SAMPLE_INTERVAL_MILLIS },
        ),
        (SensorPhase::Starting, SensorEvent::Failed { diagnostic }) => (
            SensorPhase::Halted,
            SensorCommand::Halt(ErrorKind::SensorReadFailure { diagnostic }),
        ),
        (SensorPhase::Waiting, SensorEvent::Done) => (
            SensorPhase::Measuring,
            SensorCommand::Measure,
        ),
        (SensorPhase::Measuring, SensorEvent::Measured(reading)) => (
            SensorPhase::Publishing,
            SensorCommand::Publish(reading),
        ),
        (SensorPhase::Measuring, SensorEvent::Failed { diagnostic }) => (
            SensorPhase::Halted,
            SensorCommand::Halt(ErrorKind::SensorReadFailure { diagnostic }),
        ),
        (SensorPhase::Publishing, SensorEvent::Done) => (
            SensorPhase::Waiting,
            SensorCommand::Sleep { millis: SAMPLE_INTERVAL_MILLIS },
        ),
        _ => (phase, SensorCommand::Idle),
    }
}

/// The phase after `events` arrived one after another in `phase`.
pub open spec fn sensor_phase_after(phase: SensorPhase, events: Seq<SensorEvent>) -> SensorPhase
    decreases events.len(),
{
    if events.len() == 0 {
        phase
    } else {
        sensor_next(sensor_phase_after(phase, events.drop_last()), events.last()).0
    }
}

/// A halted task stays halted whatever it is told, and asks for nothing
/// more: no reading is ever published again.
pub proof fn lemma_halted_for_good(events: Seq<SensorEvent>, event: SensorEvent)
    ensures
        sensor_phase_after(SensorPhase::Halted, events) == SensorPhase::Halted,
        sensor_next(sensor_phase_after(SensorPhase::Halted, events), event) == (
            SensorPhase::Halted,
            SensorCommand::Idle,
        ),
    decreases events.len(),
{
    if events.len() > 0 {
        lemma_halted_for_good(events.drop_last(), events.last());
    }
}

/// A reading is published only as the answer to the measurement that
/// delivered it.
pub proof fn lemma_publishes_what_was_measured(
    phase: SensorPhase,
    event: SensorEvent,
    reading: Reading,
)
    requires
        sensor_next(phase, event).1 == SensorCommand::Publish(reading),
    ensures
        phase == SensorPhase::Measuring,
        event == SensorEvent::Measured(reading),
{
}

/// The sampling task.
pub struct SensorTask {
    phase: SensorPhase,
}

impl SensorTask {
    /// Where the task stands.
    pub closed spec fn spec_phase(&self) -> SensorPhase {
        self.phase
    }

    /// A task at power-up. Its first command is to wait out the power-up
    /// delay.
    pub fn start() -> (started: (SensorTask, SensorCommand))
        ensures
            started.0.spec_phase() == SensorPhase::PoweringUp,
            started.1 == (SensorCommand::Sleep { millis: POWER_UP_MILLIS }),
    {
        (
            SensorTask { phase: SensorPhase::PoweringUp },
            SensorCommand::Sleep { millis: POWER_UP_MILLIS },
        )
    }

    /// Where the task stands.
    #[verifier::when_used_as_spec(spec_phase)]
    pub fn phase(&self) -> (phase: SensorPhase)
        ensures
            phase == self.spec_phase(),
    {
        self.phase
    }

    /// Takes `event` in and says what to do next.
    pub fn step(&mut self, event: SensorEvent) -> (command: SensorCommand)
        ensures
            (final(self).spec_phase(), command) == sensor_next(old(self).spec_phase(), event),
    {
        let (phase, command) = match (self.phase, event) {
            (SensorPhase::PoweringUp, SensorEvent::Done) => (
                SensorPhase::Reinitialising,
                SensorCommand::WakeAndReinit,
            ),
            (SensorPhase::Reinitialising, SensorEvent::Done) => (
                SensorPhase::Identifying,
                SensorCommand::ReadSerial,
            ),
            (SensorPhase::Reinitialising, SensorEvent::Failed { diagnostic }) => (
                SensorPhase::Halted,
                SensorCommand::Halt(ErrorKind::SensorReadFailure { diagnostic }),
            ),
            (SensorPhase::Identifying, SensorEvent::Done) => (
                SensorPhase::Starting,
                SensorCommand::StartPeriodic,
            ),
            (SensorPhase::Identifying, SensorEvent::Failed { diagnostic: _ }) => (
                SensorPhase::Starting,
                SensorCommand::StartPeriodic,
            ),
            (SensorPhase::Starting, SensorEvent::Done) => (
                SensorPhase::Waiting,
                SensorCommand::Sleep { millis: SAMPLE_INTERVAL_MILLIS },
            ),
            (SensorPhase::Starting, SensorEvent::Failed { diagnostic }) => (
                SensorPhase::Halted,
                SensorCommand::Halt(ErrorKind::SensorReadFailure { diagnostic }),
            ),
            (SensorPhase::Waiting, SensorEvent::Done) => (
                SensorPhase::Measuring,
                SensorCommand::Measure,
            ),
            (SensorPhase::Measuring, SensorEvent::Measured(reading)) => (
                SensorPhase::Publishing,
                SensorCommand::Publish(reading),
            ),
            (SensorPhase::Measuring, SensorEvent::Failed { diagnostic }) => (
                SensorPhase::Halted,
                SensorCommand::Halt(ErrorKind::SensorReadFailure { diagnostic }),
            ),
            (SensorPhase::Publishing, SensorEvent::Done) => (
                SensorPhase::Waiting,
                SensorCommand::Sleep { millis: SAMPLE_INTERVAL_MILLIS },
            ),
            (phase, _) => (phase, SensorCommand::Idle),
        };
        self.phase = phase;
        command
    }
}

} // verus!
