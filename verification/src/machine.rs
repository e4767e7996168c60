//! The acquisition state machine.
//!
//! One conversion cycle is a fixed conversation between this machine and a
//! harness that owns the clock pin, the data pin and a delay source. The
//! machine asks for one [`Action`] at a time; the harness performs it and
//! answers with the [`Event`] that resulted. The machine never blocks and
//! never touches hardware, so the same decisions serve a cooperative
//! scheduler, a blocking loop and a test bench.
//!
//! A cycle runs
//! `Idle -> AwaitReady -> PulseTrain(bit 0..23) -> GainSelect(pulse 0..N-1) -> Idle`.
//! Sign extension needs no outside work: the step that ends the last gain
//! pulse performs it and delivers the sample.

use vstd::prelude::*;
use crate::bits::{shift_in, shifted};
use crate::config::Config;
use crate::error::AcquisitionError;
use crate::sample::{raw_modulus, sign_extend, signed_value, SignedSample, RAW_MAX, SAMPLE_BITS};

verus! {

/// Where a clock pulse stands. Each name tells which action is outstanding.
#[derive(Clone, Copy, Debug, PartialEq, Eq, Structural)]
pub enum PulseStep {
    /// The clock was asked high.
    Rising,
    /// The clock is high and the hold delay runs.
    HighHold,
    /// The data pin is being sampled while the clock is high.
    Sampling,
    /// The clock was asked low.
    Falling,
    /// The clock is low and the hold delay runs.
    LowHold,
}

/// The state of the acquisition between two steps.
#[derive(Clone, Copy, Debug, PartialEq, Eq, Structural)]
pub enum State {
    /// Between cycles. The clock is low and nothing is outstanding. This is
    /// the only state in which the harness may stop.
    Idle,
    /// The data pin is being sampled to learn whether a conversion is ready.
    /// `waited_us` is the delay spent waiting in this cycle so far.
    AwaitReady { waited_us: u64 },
    /// The converter was not ready; a delay runs before the next look.
    /// `waited_us` includes that delay.
    ReadyBackoff { waited_us: u64 },
    /// Data pulse number `bit` (0 is the most significant bit) is under way.
    /// `raw` holds the bits sampled so far.
    PulseTrain { bit: u8, step: PulseStep, raw: u32 },
    /// Trailing pulse number `pulse` is under way. `raw` is the complete raw
    /// sample of this cycle.
    GainSelect { pulse: u8, step: PulseStep, raw: u32 },
    /// The cycle failed and the clock was asked low; `error` is reported
    /// next.
    Aborting { error: AcquisitionError },
}

/// What the harness tells the machine.
#[derive(Clone, Copy, Debug, PartialEq, Eq, Structural)]
pub enum Event {
    /// Begin a conversion cycle.
    Start,
    /// The action asked for was carried out.
    Done,
    /// The data pin was sampled; `true` is high.
    Level(bool),
    /// The pin driver failed to carry out the action asked for.
    Fault,
}

/// What the machine asks the harness to do next.
#[derive(Clone, Copy, Debug, PartialEq, Eq, Structural)]
pub enum Action {
    /// Sample the data pin and answer with [`Event::Level`].
    SampleData,
    /// Drive the clock pin high and answer with [`Event::Done`].
    SetClockHigh,
    /// Drive the clock pin low and answer with [`Event::Done`].
    SetClockLow,
    /// Wait for this many microseconds and answer with [`Event::Done`].
    Delay(u64),
    /// The cycle is complete: hand this sample to the caller. The machine is
    /// idle again.
    Deliver(SignedSample),
    /// The cycle produced no sample: hand this error to the caller. The
    /// machine is idle again.
    Report(AcquisitionError),
}

/// The machine as contracts see it: its options and its state.
#[derive(Clone, Copy, Debug, PartialEq, Eq, Structural)]
pub struct Machine {
    pub config: Config,
    pub state: State,
}

/// Whether `state` can occur in a machine configured with `config`.
pub open spec fn state_valid(config: Config, state: State) -> bool {
    match state {
        State::Idle => true,
        State::AwaitReady { waited_us } => waited_us <= config.ready_timeout_us,
        State::ReadyBackoff { waited_us } => waited_us <= config.ready_timeout_us,
        State::PulseTrain { bit, step, raw } => bit < SAMPLE_BITS && raw <= RAW_MAX,
        State::GainSelect { pulse, step, raw } => {
            &&& pulse < config.gain.pulses()
            &&& step != PulseStep::Sampling
            &&& raw <= RAW_MAX
        },
        State::Aborting { error } => true,
    }
}

impl Machine {
    /// Whether the options are valid and the state can occur with them.
    pub open spec fn valid(self) -> bool {
        self.config.valid() && state_valid(self.config, self.state)
    }
}

/// How a failed cycle is left: the clock is forced low first, the error is
/// reported by the step after.
pub open spec fn abort(error: AcquisitionError) -> (State, Action) {
    (State::Aborting { error }, Action::SetClockLow)
}

/// How an event that does not answer the outstanding action is handled in
/// the middle of a cycle: a failed pin ends the cycle as a hardware fault,
/// anything else as a protocol violation.
pub open spec fn refuse(event: Event) -> (State, Action) {
    if event is Fault {
        abort(AcquisitionError::HardwareFault)
    } else {
        abort(AcquisitionError::ProtocolViolation)
    }
}

/// The delay before the next look at the data pin: one hold time, cut short
/// where less than that is left of the bound.
pub open spec fn backoff(config: Config, waited_us: u64) -> u64 {
    if config.pulse_hold_us <= config.ready_timeout_us - waited_us {
        config.pulse_hold_us
    } else {
        (config.ready_timeout_us - waited_us) as u64
    }
}

/// The step of a data pulse: high, hold, sample, low, hold.
pub open spec fn data_pulse(config: Config, bit: u8, step: PulseStep, raw: u32, event: Event) -> (
    State,
    Action,
) {
    match (step, event) {
        (PulseStep::Rising, Event::Done) => (
            State::PulseTrain { bit, step: PulseStep::HighHold, raw },
            Action::Delay(config.pulse_hold_us),
        ),
        (PulseStep::HighHold, Event::Done) => (
            State::PulseTrain { bit, step: PulseStep::Sampling, raw },
            Action::SampleData,
        ),
        (PulseStep::Sampling, Event::Level(high)) => (
            State::PulseTrain {
                bit,
                step: PulseStep::Falling,
                raw: shifted(raw as nat, high) as u32,
            },
            Action::SetClockLow,
        ),
        (PulseStep::Falling, Event::Done) => (
            State::PulseTrain { bit, step: PulseStep::LowHold, raw },
            Action::Delay(config.pulse_hold_us),
        ),
        (PulseStep::LowHold, Event::Done) => if bit + 1 < SAMPLE_BITS {
            (
                State::PulseTrain { bit: (bit + 1) as u8, step: PulseStep::Rising, raw },
                Action::SetClockHigh,
            )
        } else {
            (State::GainSelect { pulse: 0, step: PulseStep::Rising, raw }, Action::SetClockHigh)
        },
        _ => refuse(event),
    }
}

/// The step of a trailing pulse: high, hold, low, hold. After the last one
/// the raw sample is sign-extended and delivered.
pub open spec fn gain_pulse(config: Config, pulse: u8, step: PulseStep, raw: u32, event: Event) -> (
    State,
    Action,
) {
    match (step, event) {
        (PulseStep::Rising, Event::Done) => (
            State::GainSelect { pulse, step: PulseStep::HighHold, raw },
            Action::Delay(config.pulse_hold_us),
        ),
        (PulseStep::HighHold, Event::Done) => (
            State::GainSelect { pulse, step: PulseStep::Falling, raw },
            Action::SetClockLow,
        ),
        (PulseStep::Falling, Event::Done) => (
            State::GainSelect { pulse, step: PulseStep::LowHold, raw },
            Action::Delay(config.pulse_hold_us),
        ),
        (PulseStep::LowHold, Event::Done) => if pulse + 1 < config.gain.pulses() {
            (
                State::GainSelect { pulse: (pulse + 1) as u8, step: PulseStep::Rising, raw },
                Action::SetClockHigh,
            )
        } else {
            (
                State::Idle,
                Action::Deliver(signed_value(raw as int % raw_modulus()) as SignedSample),
            )
        },
        _ => refuse(event),
    }
}

/// The whole protocol: the state that follows `state` on `event`, and the
/// action asked of the harness.
pub open spec fn transition(config: Config, state: State, event: Event) -> (State, Action) {
    match state {
        State::Idle => match event {
            Event::Start => (State::AwaitReady { waited_us: 0 }, Action::SampleData),
            _ => (State::Idle, Action::Report(AcquisitionError::ProtocolViolation)),
        },
        State::AwaitReady { waited_us } => match event {
            Event::Level(false) => (
                State::PulseTrain { bit: 0, step: PulseStep::Rising, raw: 0 },
                Action::SetClockHigh,
            ),
            Event::Level(true) => if waited_us >= config.ready_timeout_us {
                (State::Idle, Action::Report(AcquisitionError::ReadyTimeout))
            } else {
                (
                    State::ReadyBackoff {
                        waited_us: (waited_us + backoff(config, waited_us)) as u64,
                    },
                    Action::Delay(backoff(config, waited_us)),
                )
            },
            _ => refuse(event),
        },
        State::ReadyBackoff { waited_us } => match event {
            Event::Done => (State::AwaitReady { waited_us }, Action::SampleData),
            _ => refuse(event),
        },
        State::PulseTrain { bit, step, raw } => data_pulse(config, bit, step, raw, event),
        State::GainSelect { pulse, step, raw } => gain_pulse(config, pulse, step, raw, event),
        State::Aborting { error } => (State::Idle, Action::Report(error)),
    }
}

impl Machine {
    /// The machine after `event`, and the action it asks for.
    pub open spec fn step(self, event: Event) -> (Machine, Action) {
        let (state, action) = transition(self.config, self.state, event);
        (Machine { config: self.config, state }, action)
    }
}

/// Every step of a valid machine leaves it valid.
pub proof fn transition_keeps_valid(config: Config, state: State, event: Event)
    requires
        config.valid(),
        state_valid(config, state),
    ensures
        state_valid(config, transition(config, state, event).0),
{
}

fn refuse_event(event: Event) -> (next: (State, Action))
    ensures
        next == refuse(event),
{
    match event {
        Event::Fault => (
            State::Aborting { error: AcquisitionError::HardwareFault },
            Action::SetClockLow,
        ),
        _ => (State::Aborting { error: AcquisitionError::ProtocolViolation }, Action::SetClockLow),
    }
}

fn step_ready(config: &Config, waited_us: u64, event: Event) -> (next: (State, Action))
    requires
        config.valid(),
        waited_us <= config.ready_timeout_us,
    ensures
        next == transition(*config, State::AwaitReady { waited_us }, event),
{
    match event {
        Event::Level(false) => (
            State::PulseTrain { bit: 0, step: PulseStep::Rising, raw: 0 },
            Action::SetClockHigh,
        ),
        Event::Level(true) => {
            if waited_us >= config.ready_timeout_us {
                (State::Idle, Action::Report(AcquisitionError::ReadyTimeout))
            } else {
                let left: u64 = config.ready_timeout_us - waited_us;
                let pause: u64 = if config.pulse_hold_us <= left {
                    config.pulse_hold_us
                } else {
                    left
                };
                (State::ReadyBackoff { waited_us: waited_us + pause }, Action::Delay(pause))
            }
        },
        _ => refuse_event(event),
    }
}

fn step_data_pulse(config: &Config, bit: u8, step: PulseStep, raw: u32, event: Event) -> (next: (
    State,
    Action,
))
    requires
        bit < SAMPLE_BITS,
    ensures
        next == data_pulse(*config, bit, step, raw, event),
{
    match (step, event) {
        (PulseStep::Rising, Event::Done) => (
            State::PulseTrain { bit, step: PulseStep::HighHold, raw },
            Action::Delay(config.pulse_hold_us),
        ),
        (PulseStep::HighHold, Event::Done) => (
            State::PulseTrain { bit, step: PulseStep::Sampling, raw },
            Action::SampleData,
        ),
        (PulseStep::Sampling, Event::Level(high)) => (
            State::PulseTrain { bit, step: PulseStep::Falling, raw: shift_in(raw, high) },
            Action::SetClockLow,
        ),
        (PulseStep::Falling, Event::Done) => (
            State::PulseTrain { bit, step: PulseStep::LowHold, raw },
            Action::Delay(config.pulse_hold_us),
        ),
        (PulseStep::LowHold, Event::Done) => {
            if bit + 1 < SAMPLE_BITS {
                (State::PulseTrain { bit: bit + 1, step: PulseStep::Rising, raw }, Action::SetClockHigh)
            } else {
                (State::GainSelect { pulse: 0, step: PulseStep::Rising, raw }, Action::SetClockHigh)
            }
        },
        _ => refuse_event(event),
    }
}

fn step_gain_pulse(config: &Config, pulse: u8, step: PulseStep, raw: u32, event: Event) -> (next: (
    State,
    Action,
))
    requires
        pulse < config.gain.pulses(),
    ensures
        next == gain_pulse(*config, pulse, step, raw, event),
{
    match (step, event) {
        (PulseStep::Rising, Event::Done) => (
            State::GainSelect { pulse, step: PulseStep::HighHold, raw },
            Action::Delay(config.pulse_hold_us),
        ),
        (PulseStep::HighHold, Event::Done) => (
            State::GainSelect { pulse, step: PulseStep::Falling, raw },
            Action::SetClockLow,
        ),
        (PulseStep::Falling, Event::Done) => (
            State::GainSelect { pulse, step: PulseStep::LowHold, raw },
            Action::Delay(config.pulse_hold_us),
        ),
        (PulseStep::LowHold, Event::Done) => {
            if pulse + 1 < config.gain.pulse_count() {
                (State::GainSelect { pulse: pulse + 1, step: PulseStep::Rising, raw }, Action::SetClockHigh)
            } else {
                (State::Idle, Action::Deliver(sign_extend(raw)))
            }
        },
        _ => refuse_event(event),
    }
}

/// An acquisition in progress: the options it was built with and the state
/// it has reached.
#[derive(Debug)]
pub struct Acquisition {
    config: Config,
    state: State,
}

impl View for Acquisition {
    type V = Machine;

    closed spec fn view(&self) -> Machine {
        Machine { config: self.config, state: self.state }
    }
}

impl Acquisition {
    #[verifier::type_invariant]
    spec fn well_formed(self) -> bool {
        self.config.valid() && state_valid(self.config, self.state)
    }

    /// An idle acquisition with the given options.
    ///
    /// Options that are not [`Config::valid`] are refused as a
    /// [`AcquisitionError::ProtocolViolation`].
    pub fn new(config: Config) -> (made: Result<Acquisition, AcquisitionError>)
        ensures
            made is Ok <==> config.valid(),
            made matches Ok(acquisition) ==> acquisition@ == (Machine {
                config,
                state: State::Idle,
            }),
            made matches Err(error) ==> error == AcquisitionError::ProtocolViolation,
    {
        match config.validate() {
            Ok(()) => Ok(Acquisition { config, state: State::Idle }),
            Err(error) => Err(error),
        }
    }

    /// The options this acquisition was built with.
    pub fn config(&self) -> (config: Config)
        ensures
            config == self@.config,
            config.valid(),
    {
        proof {
            use_type_invariant(self);
        }
        self.config
    }

    /// The state the acquisition has reached.
    pub fn state(&self) -> (state: State)
        ensures
            state == self@.state,
            state_valid(self@.config, state),
    {
        proof {
            use_type_invariant(self);
        }
        self.state
    }

    /// Whether the acquisition is between cycles. Only then may the harness
    /// stop, or begin a cycle with [`Event::Start`].
    pub fn is_idle(&self) -> (idle: bool)
        ensures
            idle == (self@.state is Idle),
    {
        match self.state {
            State::Idle => true,
            _ => false,
        }
    }

    /// Takes the event that answers the last action and returns the next
    /// action. The state moves as [`transition`] says; the options never
    /// change.
    pub fn step(&mut self, event: Event) -> (action: Action)
        ensures
            (final(self)@, action) == old(self)@.step(event),
            final(self)@.valid(),
    {
        proof {
            use_type_invariant(&*self);
            transition_keeps_valid(self.config, self.state, event);
        }
        let (next, action) = match self.state {
            State::Idle => match event {
                Event::Start => (State::AwaitReady { waited_us: 0 }, Action::SampleData),
                _ => (State::Idle, Action::Report(AcquisitionError::ProtocolViolation)),
            },
            State::AwaitReady { waited_us } => step_ready(&self.config, waited_us, event),
            State::ReadyBackoff { waited_us } => match event {
                Event::Done => (State::AwaitReady { waited_us }, Action::SampleData),
                _ => refuse_event(event),
            },
            State::PulseTrain { bit, step, raw } => step_data_pulse(
                &self.config,
                bit,
                step,
                raw,
                event,
            ),
            State::GainSelect { pulse, step, raw } => step_gain_pulse(
                &self.config,
                pulse,
                step,
                raw,
                event,
            ),
            State::Aborting { error } => (State::Idle, Action::Report(error)),
        };
        self.state = next;
        action
    }
}

} // verus!
