//! What an observer of the clock line sees, and the laws of a cycle.
//!
//! The laws here speak of whole runs: of every sequence of events that a
//! harness, a faulty pin or a test may feed to a machine that starts idle.

use vstd::prelude::*;
use crate::bits::{shifted, value_of, value_of_fits};
use crate::config::Config;
use crate::error::AcquisitionError;
use crate::machine::{backoff, state_valid, transition, Action, Event, PulseStep, State};
use crate::sample::{raw_modulus, signed_value, SignedSample};

verus! {

/// What has been seen of a machine that started idle with the clock low.
///
/// The three counters count clock edges of the current cycle: they start
/// again from zero with every step taken from [`State::Idle`].
pub struct Observation {
    /// The state the machine has reached.
    pub state: State,
    /// Every action the machine asked for, in order: one for each event.
    pub actions: Seq<Action>,
    /// The level the clock was last commanded to.
    pub clock_high: bool,
    /// Rising edges commanded for data pulses.
    pub data_pulses: nat,
    /// Rising edges commanded for trailing pulses.
    pub gain_pulses: nat,
    /// Falling edges commanded.
    pub falls: nat,
}

impl Observation {
    /// The action the machine asked for last, if it was asked anything.
    pub open spec fn last_action(self) -> Option<Action> {
        if self.actions.len() == 0 {
            None
        } else {
            Some(self.actions.last())
        }
    }
}

/// The level the clock is commanded to once `action` is carried out.
pub open spec fn clock_after(before: bool, action: Action) -> bool {
    match action {
        Action::SetClockHigh => true,
        Action::SetClockLow => false,
        _ => before,
    }
}

/// One if `condition` holds, zero if not.
pub open spec fn one_if(condition: bool) -> nat {
    if condition {
        1
    } else {
        0
    }
}

/// What is seen of a machine that started idle and was fed `events` in
/// order.
pub open spec fn observe(config: Config, events: Seq<Event>) -> Observation
    decreases events.len(),
{
    if events.len() == 0 {
        Observation {
            state: State::Idle,
            actions: Seq::empty(),
            clock_high: false,
            data_pulses: 0,
            gain_pulses: 0,
            falls: 0,
        }
    } else {
        let seen = observe(config, events.drop_last());
        let (state, action) = transition(config, seen.state, events.last());
        let fresh = seen.state is Idle;
        Observation {
            state,
            actions: seen.actions.push(action),
            clock_high: clock_after(seen.clock_high, action),
            data_pulses: one_if(action is SetClockHigh && state is PulseTrain) + if fresh {
                0
            } else {
                seen.data_pulses
            },
            gain_pulses: one_if(action is SetClockHigh && state is GainSelect) + if fresh {
                0
            } else {
                seen.gain_pulses
            },
            falls: one_if(action is SetClockLow) + if fresh {
                0
            } else {
                seen.falls
            },
        }
    }
}

/// Whether the clock has been lowered again in the pulse at `step`.
pub open spec fn lowered(step: PulseStep) -> bool {
    step is Falling || step is LowHold
}

/// How the counters of an observation follow from the state it has reached.
pub open spec fn counts_match(config: Config, seen: Observation) -> bool {
    match seen.state {
        State::Idle => {
            &&& !seen.clock_high
            &&& seen.last_action() matches Some(Action::Deliver(_)) ==> {
                &&& seen.data_pulses == 24
                &&& seen.gain_pulses == config.gain.pulses()
                &&& seen.falls == 24 + config.gain.pulses()
            }
        },
        State::AwaitReady { .. } | State::ReadyBackoff { .. } => {
            &&& !seen.clock_high
            &&& seen.data_pulses == 0
            &&& seen.gain_pulses == 0
            &&& seen.falls == 0
        },
        State::PulseTrain { bit, step, raw } => {
            &&& seen.clock_high == !lowered(step)
            &&& seen.data_pulses == bit + 1
            &&& seen.gain_pulses == 0
            &&& seen.falls == bit + one_if(lowered(step))
        },
        State::GainSelect { pulse, step, raw } => {
            &&& seen.clock_high == !lowered(step)
            &&& seen.data_pulses == 24
            &&& seen.gain_pulses == pulse + 1
            &&& seen.falls == 24 + pulse + one_if(lowered(step))
        },
        State::Aborting { .. } => !seen.clock_high,
    }
}

/// One more event extends an observation by one step.
pub proof fn observe_push(config: Config, events: Seq<Event>, event: Event)
    ensures
        observe(config, events.push(event)).state == transition(
            config,
            observe(config, events).state,
            event,
        ).0,
        observe(config, events.push(event)).actions == observe(config, events).actions.push(
            transition(config, observe(config, events).state, event).1,
        ),
{
    assert(events.push(event).drop_last() =~= events);
}

/// Every state a run reaches is valid, and the counters of every
/// observation follow from the state reached.
pub proof fn observation_is_consistent(config: Config, events: Seq<Event>)
    requires
        config.valid(),
    ensures
        state_valid(config, observe(config, events).state),
        counts_match(config, observe(config, events)),
    decreases events.len(),
{
    if events.len() > 0 {
        observation_is_consistent(config, events.drop_last());
    }
}

/// Exactly 24 pulses are made during the pulse train and exactly as many as
/// the gain setting asks for during gain selection: whenever a run delivers a
/// sample, the clock was raised that often, and lowered as often, since the
/// cycle began.
pub proof fn delivery_follows_exact_pulses(config: Config, events: Seq<Event>)
    requires
        config.valid(),
        observe(config, events).last_action() matches Some(Action::Deliver(_)),
    ensures
        observe(config, events).data_pulses == 24,
        observe(config, events).gain_pulses == config.gain.pulses(),
        observe(config, events).falls == 24 + config.gain.pulses(),
        observe(config, events).state is Idle,
{
    observation_is_consistent(config, events);
    observation_is_consistent(config, events.drop_last());
}

/// The clock ends every cycle low: whenever a run has the machine idle,
/// after a delivered sample, a reported error or nothing at all, the last
/// level the clock was commanded to is low.
pub proof fn idle_leaves_clock_low(config: Config, events: Seq<Event>)
    requires
        config.valid(),
        observe(config, events).state is Idle,
    ensures
        !observe(config, events).clock_high,
{
    observation_is_consistent(config, events);
}

/// Where a pulse stands, counted in steps: the rank of `step` among the
/// steps of a pulse.
pub open spec fn step_rank(step: PulseStep) -> nat {
    match step {
        PulseStep::Rising => 0,
        PulseStep::HighHold => 1,
        PulseStep::Sampling => 2,
        PulseStep::Falling => 3,
        PulseStep::LowHold => 4,
    }
}

/// A bound on the number of steps that `state` is away from idle, whatever
/// events arrive.
pub open spec fn steps_left(config: Config, state: State) -> nat {
    let gain_steps = 5 * config.gain.pulses() + 1;
    let train_steps = 5 * 24 + gain_steps;
    match state {
        State::Idle => 0,
        State::Aborting { .. } => 1,
        State::GainSelect { pulse, step, raw } => (5 * (config.gain.pulses() - pulse) - step_rank(
            step,
        ) + 1) as nat,
        State::PulseTrain { bit, step, raw } => (5 * (24 - bit) - step_rank(step) + gain_steps) as nat,
        State::AwaitReady { waited_us } => (2 * (config.ready_timeout_us - waited_us) + train_steps
            + 1) as nat,
        State::ReadyBackoff { waited_us } => (2 * (config.ready_timeout_us - waited_us)
            + train_steps + 2) as nat,
    }
}

/// No cycle lasts forever: every step taken outside idle, on any event at
/// all, brings the machine nearer to idle. A converter that never signals
/// "data ready" therefore cannot hold a cycle beyond its bound.
pub proof fn every_step_nears_idle(config: Config, state: State, event: Event)
    requires
        config.valid(),
        state_valid(config, state),
        !(state is Idle),
    ensures
        steps_left(config, transition(config, state, event).0) < steps_left(config, state),
{
}

/// While the converter is not ready the machine waits, and its waiting adds
/// up to the configured bound exactly: each delay is at least one
/// microsecond and none runs past the bound. At the bound the cycle ends
/// with [`AcquisitionError::ReadyTimeout`] and the machine is idle.
pub proof fn ready_wait_is_bounded(config: Config, waited_us: u64)
    requires
        config.valid(),
        waited_us <= config.ready_timeout_us,
    ensures
        waited_us < config.ready_timeout_us ==> {
            &&& 1 <= backoff(config, waited_us) <= config.pulse_hold_us
            &&& transition(config, State::AwaitReady { waited_us }, Event::Level(true)) == (
                State::ReadyBackoff { waited_us: (waited_us + backoff(config, waited_us)) as u64 },
                Action::Delay(backoff(config, waited_us)),
            )
            &&& waited_us + backoff(config, waited_us) <= config.ready_timeout_us
        },
        waited_us == config.ready_timeout_us ==> transition(
            config,
            State::AwaitReady { waited_us },
            Event::Level(true),
        ) == (State::Idle, Action::Report(AcquisitionError::ReadyTimeout)),
{
}

/// The events of one data pulse on which `bit` is sampled.
pub open spec fn data_pulse_events(bit: bool) -> Seq<Event> {
    seq![Event::Done, Event::Done, Event::Level(bit), Event::Done, Event::Done]
}

/// The events of one trailing pulse.
pub open spec fn gain_pulse_events() -> Seq<Event> {
    seq![Event::Done, Event::Done, Event::Done, Event::Done]
}

/// The events of the data pulses on which `bits` are sampled in order.
pub open spec fn data_events(bits: Seq<bool>) -> Seq<Event>
    decreases bits.len(),
{
    if bits.len() == 0 {
        Seq::empty()
    } else {
        data_events(bits.drop_last()) + data_pulse_events(bits.last())
    }
}

/// The events of `count` trailing pulses.
pub open spec fn gain_events(count: nat) -> Seq<Event>
    decreases count,
{
    if count == 0 {
        Seq::empty()
    } else {
        gain_events((count - 1) as nat) + gain_pulse_events()
    }
}

/// The events of `polls` looks at a converter that is not ready yet, each
/// followed by the delay before the next look.
pub open spec fn not_ready_events(polls: nat) -> Seq<Event>
    decreases polls,
{
    if polls == 0 {
        Seq::empty()
    } else {
        not_ready_events((polls - 1) as nat) + seq![Event::Level(true), Event::Done]
    }
}

/// The time spent waiting once `polls` looks have found the converter not
/// ready: the delays add up until they reach the bound.
pub open spec fn waited_after(config: Config, polls: nat) -> nat
    decreases polls,
{
    if polls == 0 {
        0
    } else {
        let waited = waited_after(config, (polls - 1) as nat);
        if waited < config.ready_timeout_us {
            (waited + backoff(config, waited as u64)) as nat
        } else {
            waited
        }
    }
}

/// Whether a cycle can see the converter not ready `polls` times and still
/// go on waiting: the bound must not have been reached before the last of
/// those looks.
pub open spec fn within_bound(config: Config, polls: nat) -> bool {
    polls == 0 || waited_after(config, (polls - 1) as nat) < config.ready_timeout_us
}

/// The events of a cycle in which nothing fails: the converter is found not
/// ready `polls` times and ready then, `bits` are sampled, and `count`
/// trailing pulses follow.
pub open spec fn clean_cycle(polls: nat, bits: Seq<bool>, count: nat) -> Seq<Event> {
    seq![Event::Start] + not_ready_events(polls) + seq![Event::Level(false)] + data_events(bits)
        + gain_events(count)
}

/// The events of a cycle in which the converter never gets ready: it is
/// found not ready `polls` times with a delay after each look, and once more
/// at the bound.
pub open spec fn starved_cycle(polls: nat) -> Seq<Event> {
    seq![Event::Start] + not_ready_events(polls) + seq![Event::Level(true)]
}

/// The waveform of one data pulse: the clock goes high and is held, the data
/// pin is sampled while the clock is high, the clock goes low and is held.
pub open spec fn data_pulse_actions(config: Config) -> Seq<Action> {
    seq![
        Action::SetClockHigh,
        Action::Delay(config.pulse_hold_us),
        Action::SampleData,
        Action::SetClockLow,
        Action::Delay(config.pulse_hold_us),
    ]
}

/// The waveform of one trailing pulse: the clock goes high and is held, goes
/// low and is held.
pub open spec fn gain_pulse_actions(config: Config) -> Seq<Action> {
    seq![
        Action::SetClockHigh,
        Action::Delay(config.pulse_hold_us),
        Action::SetClockLow,
        Action::Delay(config.pulse_hold_us),
    ]
}

/// `pattern`, `count` times over.
pub open spec fn repeated(pattern: Seq<Action>, count: nat) -> Seq<Action>
    decreases count,
{
    if count == 0 {
        Seq::empty()
    } else {
        repeated(pattern, (count - 1) as nat) + pattern
    }
}

/// What is asked while the converter is found not ready `polls` times: a
/// delay after each look, and then the next look.
pub open spec fn waiting_actions(config: Config, polls: nat) -> Seq<Action>
    decreases polls,
{
    if polls == 0 {
        Seq::empty()
    } else {
        waiting_actions(config, (polls - 1) as nat) + seq![
            Action::Delay(backoff(config, waited_after(config, (polls - 1) as nat) as u64)),
            Action::SampleData,
        ]
    }
}

/// Everything a clean cycle asks of the harness: the looks at the data pin
/// until the converter is ready, 24 data pulses, the trailing pulses of the
/// gain setting, and the delivery of the sample.
pub open spec fn clean_cycle_actions(config: Config, polls: nat, bits: Seq<bool>) -> Seq<Action> {
    seq![Action::SampleData] + waiting_actions(config, polls) + repeated(
        data_pulse_actions(config),
        24,
    ) + repeated(gain_pulse_actions(config), config.gain.pulses()) + seq![
        Action::Deliver(signed_value(value_of(bits) as int) as SignedSample),
    ]
}

/// Everything a cycle asks of the harness when the converter never gets
/// ready: looks and delays up to the bound, and the report of the timeout.
/// The clock is never touched.
pub open spec fn starved_cycle_actions(config: Config, polls: nat) -> Seq<Action> {
    seq![Action::SampleData] + waiting_actions(config, polls) + seq![
        Action::Report(AcquisitionError::ReadyTimeout),
    ]
}

/// The waiting never passes the bound, never shrinks, and grows by at least
/// a microsecond with every look until the bound is reached; so as many
/// looks as the bound has microseconds always reach it.
pub proof fn waiting_reaches_bound(config: Config, polls: nat)
    requires
        config.valid(),
    ensures
        waited_after(config, polls) <= config.ready_timeout_us,
        polls > 0 ==> waited_after(config, (polls - 1) as nat) <= waited_after(config, polls),
        polls <= config.ready_timeout_us ==> polls <= waited_after(config, polls),
        polls >= config.ready_timeout_us ==> waited_after(config, polls)
            == config.ready_timeout_us,
    decreases polls,
{
    if polls > 0 {
        waiting_reaches_bound(config, (polls - 1) as nat);
    }
}

proof fn waiting_reach(config: Config, before: Seq<Event>, polls: nat)
    requires
        config.valid(),
        observe(config, before).state == (State::AwaitReady { waited_us: 0 }),
        within_bound(config, polls),
    ensures
        observe(config, before + not_ready_events(polls)).state == (State::AwaitReady {
            waited_us: waited_after(config, polls) as u64,
        }),
        observe(config, before + not_ready_events(polls)).actions == observe(
            config,
            before,
        ).actions + waiting_actions(config, polls),
    decreases polls,
{
    if polls == 0 {
        assert(before + not_ready_events(polls) =~= before);
        assert(observe(config, before).actions + waiting_actions(config, polls) =~= observe(
            config,
            before,
        ).actions);
    } else {
        let earlier = (polls - 1) as nat;
        waiting_reaches_bound(config, earlier);
        waiting_reach(config, before, earlier);
        let s0 = before + not_ready_events(earlier);
        let s1 = s0.push(Event::Level(true));
        let s2 = s1.push(Event::Done);
        observe_push(config, s0, Event::Level(true));
        observe_push(config, s1, Event::Done);
        assert(before + not_ready_events(polls) =~= s2);
        assert(observe(config, s2).actions =~= observe(config, before).actions + waiting_actions(
            config,
            polls,
        ));
    }
}

proof fn one_data_pulse(config: Config, before: Seq<Event>, index: u8, raw: u32, bit: bool)
    requires
        config.valid(),
        index < 24,
        observe(config, before).state == (State::PulseTrain {
            bit: index,
            step: PulseStep::Rising,
            raw,
        }),
    ensures
        observe(config, before + data_pulse_events(bit)).state == (if index + 1 < 24 {
            State::PulseTrain {
                bit: (index + 1) as u8,
                step: PulseStep::Rising,
                raw: shifted(raw as nat, bit) as u32,
            }
        } else {
            State::GainSelect {
                pulse: 0,
                step: PulseStep::Rising,
                raw: shifted(raw as nat, bit) as u32,
            }
        }),
        observe(config, before + data_pulse_events(bit)).actions == observe(
            config,
            before,
        ).actions + seq![
            Action::Delay(config.pulse_hold_us),
            Action::SampleData,
            Action::SetClockLow,
            Action::Delay(config.pulse_hold_us),
            Action::SetClockHigh,
        ],
{
    let s1 = before.push(Event::Done);
    let s2 = s1.push(Event::Done);
    let s3 = s2.push(Event::Level(bit));
    let s4 = s3.push(Event::Done);
    let s5 = s4.push(Event::Done);
    observe_push(config, before, Event::Done);
    observe_push(config, s1, Event::Done);
    observe_push(config, s2, Event::Level(bit));
    observe_push(config, s3, Event::Done);
    observe_push(config, s4, Event::Done);
    assert(before + data_pulse_events(bit) =~= s5);
    assert(observe(config, s5).actions =~= observe(config, before).actions + seq![
        Action::Delay(config.pulse_hold_us),
        Action::SampleData,
        Action::SetClockLow,
        Action::Delay(config.pulse_hold_us),
        Action::SetClockHigh,
    ]);
}

proof fn one_gain_pulse(config: Config, before: Seq<Event>, index: u8, raw: u32)
    requires
        config.valid(),
        index < config.gain.pulses(),
        raw <= 0xFF_FFFF,
        observe(config, before).state == (State::GainSelect {
            pulse: index,
            step: PulseStep::Rising,
            raw,
        }),
    ensures
        observe(config, before + gain_pulse_events()).state == (if index + 1
            < config.gain.pulses() {
            State::GainSelect { pulse: (index + 1) as u8, step: PulseStep::Rising, raw }
        } else {
            State::Idle
        }),
        observe(config, before + gain_pulse_events()).actions == observe(
            config,
            before,
        ).actions + seq![
            Action::Delay(config.pulse_hold_us),
            Action::SetClockLow,
            Action::Delay(config.pulse_hold_us),
            if index + 1 < config.gain.pulses() {
                Action::SetClockHigh
            } else {
                Action::Deliver(signed_value(raw as int) as SignedSample)
            },
        ],
{
    let s1 = before.push(Event::Done);
    let s2 = s1.push(Event::Done);
    let s3 = s2.push(Event::Done);
    let s4 = s3.push(Event::Done);
    observe_push(config, before, Event::Done);
    observe_push(config, s1, Event::Done);
    observe_push(config, s2, Event::Done);
    observe_push(config, s3, Event::Done);
    assert(before + gain_pulse_events() =~= s4);
    assert(raw as int % raw_modulus() == raw as int);
    assert(observe(config, s4).actions =~= observe(config, before).actions + seq![
        Action::Delay(config.pulse_hold_us),
        Action::SetClockLow,
        Action::Delay(config.pulse_hold_us),
        if index + 1 < config.gain.pulses() {
            Action::SetClockHigh
        } else {
            Action::Deliver(signed_value(raw as int) as SignedSample)
        },
    ]);
}

/// A pulse that is appended to the pulses before it: the rising edge that
/// was asked for last opens it, and what it ends on is asked for last now.
proof fn pulse_joins(base: Seq<Action>, pulses: Seq<Action>, pattern: Seq<Action>, rest: Seq<
    Action,
>, opening: Action, closing: Action)
    requires
        pattern == seq![opening] + rest,
    ensures
        (base + pulses).push(opening) + rest.push(closing) == (base + (pulses + pattern)).push(
            closing,
        ),
{
    assert((base + pulses).push(opening) + rest.push(closing) =~= (base + (pulses
        + pattern)).push(closing));
}

proof fn data_pulses_reach(
    config: Config,
    before: Seq<Event>,
    base: Seq<Action>,
    bits: Seq<bool>,
)
    requires
        config.valid(),
        bits.len() <= 24,
        observe(config, before).state == (State::PulseTrain {
            bit: 0,
            step: PulseStep::Rising,
            raw: 0,
        }),
        observe(config, before).actions == base.push(Action::SetClockHigh),
    ensures
        observe(config, before + data_events(bits)).state == (if bits.len() < 24 {
            State::PulseTrain {
                bit: bits.len() as u8,
                step: PulseStep::Rising,
                raw: value_of(bits) as u32,
            }
        } else {
            State::GainSelect { pulse: 0, step: PulseStep::Rising, raw: value_of(bits) as u32 }
        }),
        observe(config, before + data_events(bits)).actions == (base + repeated(
            data_pulse_actions(config),
            bits.len(),
        )).push(Action::SetClockHigh),
    decreases bits.len(),
{
    if bits.len() == 0 {
        assert(before + data_events(bits) =~= before);
        assert(base + repeated(data_pulse_actions(config), bits.len()) =~= base);
    } else {
        let earlier = bits.drop_last();
        let bit = bits.last();
        data_pulses_reach(config, before, base, earlier);
        value_of_fits(earlier);
        value_of_fits(bits);
        let sofar = before + data_events(earlier);
        one_data_pulse(config, sofar, earlier.len() as u8, value_of(earlier) as u32, bit);
        assert(before + data_events(bits) =~= sofar + data_pulse_events(bit));
        assert(shifted(value_of(earlier), bit) == value_of(bits)) by {
            vstd::arithmetic::div_mod::lemma_small_mod(value_of(bits), 0x100_0000);
        }
        let hold = config.pulse_hold_us;
        let rest = seq![
            Action::Delay(hold),
            Action::SampleData,
            Action::SetClockLow,
            Action::Delay(hold),
        ];
        assert(data_pulse_actions(config) =~= seq![Action::SetClockHigh] + rest);
        assert(rest.push(Action::SetClockHigh) =~= seq![
            Action::Delay(hold),
            Action::SampleData,
            Action::SetClockLow,
            Action::Delay(hold),
            Action::SetClockHigh,
        ]);
        pulse_joins(
            base,
            repeated(data_pulse_actions(config), earlier.len()),
            data_pulse_actions(config),
            rest,
            Action::SetClockHigh,
            Action::SetClockHigh,
        );
    }
}

proof fn gain_pulses_reach(
    config: Config,
    before: Seq<Event>,
    base: Seq<Action>,
    raw: u32,
    count: nat,
)
    requires
        config.valid(),
        raw <= 0xFF_FFFF,
        count <= config.gain.pulses(),
        observe(config, before).state == (State::GainSelect {
            pulse: 0,
            step: PulseStep::Rising,
            raw,
        }),
        observe(config, before).actions == base.push(Action::SetClockHigh),
    ensures
        observe(config, before + gain_events(count)).state == (if count < config.gain.pulses() {
            State::GainSelect { pulse: count as u8, step: PulseStep::Rising, raw }
        } else {
            State::Idle
        }),
        observe(config, before + gain_events(count)).actions == (base + repeated(
            gain_pulse_actions(config),
            count,
        )).push(
            if count < config.gain.pulses() {
                Action::SetClockHigh
            } else {
                Action::Deliver(signed_value(raw as int) as SignedSample)
            },
        ),
    decreases count,
{
    if count == 0 {
        assert(before + gain_events(count) =~= before);
        assert(base + repeated(gain_pulse_actions(config), count) =~= base);
    } else {
        let earlier = (count - 1) as nat;
        gain_pulses_reach(config, before, base, raw, earlier);
        let sofar = before + gain_events(earlier);
        one_gain_pulse(config, sofar, earlier as u8, raw);
        assert(before + gain_events(count) =~= sofar + gain_pulse_events());
        let hold = config.pulse_hold_us;
        let closing = if count < config.gain.pulses() {
            Action::SetClockHigh
        } else {
            Action::Deliver(signed_value(raw as int) as SignedSample)
        };
        let rest = seq![Action::Delay(hold), Action::SetClockLow, Action::Delay(hold)];
        assert(gain_pulse_actions(config) =~= seq![Action::SetClockHigh] + rest);
        assert(rest.push(closing) =~= seq![
            Action::Delay(hold),
            Action::SetClockLow,
            Action::Delay(hold),
            closing,
        ]);
        pulse_joins(
            base,
            repeated(gain_pulse_actions(config), earlier),
            gain_pulse_actions(config),
            rest,
            Action::SetClockHigh,
            closing,
        );
    }
}

/// A cycle in which nothing fails makes the exact waveform and delivers what
/// was sampled. After any run that left the machine idle, a cycle that finds
/// the converter ready within the bound and samples the 24 bits `bits`, most
/// significant first, asks for [`clean_cycle_actions`] and nothing else: one
/// full pulse per bit, each held high and then low for the hold time, the
/// trailing pulses of the gain setting, and the delivery of the number that
/// `bits` spell, sign-extended from 24 bits. The machine is idle again.
pub proof fn clean_cycle_delivers(config: Config, before: Seq<Event>, polls: nat, bits: Seq<bool>)
    requires
        config.valid(),
        observe(config, before).state is Idle,
        within_bound(config, polls),
        bits.len() == 24,
    ensures
        observe(config, before + clean_cycle(polls, bits, config.gain.pulses())).state is Idle,
        observe(config, before + clean_cycle(polls, bits, config.gain.pulses())).actions
            == observe(config, before).actions + clean_cycle_actions(config, polls, bits),
        -8388608 <= signed_value(value_of(bits) as int) <= 8388607,
{
    let count = config.gain.pulses();
    let asked = observe(config, before).actions;
    let s1 = before.push(Event::Start);
    observe_push(config, before, Event::Start);
    waiting_reach(config, s1, polls);
    let s2 = s1 + not_ready_events(polls);
    let s3 = s2.push(Event::Level(false));
    observe_push(config, s2, Event::Level(false));
    let base = asked.push(Action::SampleData) + waiting_actions(config, polls);
    data_pulses_reach(config, s3, base, bits);
    value_of_fits(bits);
    let train = base + repeated(data_pulse_actions(config), 24);
    gain_pulses_reach(config, s3 + data_events(bits), train, value_of(bits) as u32, count);
    assert(before + clean_cycle(polls, bits, count) =~= s3 + data_events(bits) + gain_events(
        count,
    ));
    assert(asked + clean_cycle_actions(config, polls, bits) =~= (train + repeated(
        gain_pulse_actions(config),
        count,
    )).push(Action::Deliver(signed_value(value_of(bits) as int) as SignedSample)));
}

/// A converter that never gets ready cannot hold a cycle. After any run that
/// left the machine idle, a cycle that finds the converter not ready until
/// the waiting has reached the bound, and not ready then, asks for
/// [`starved_cycle_actions`] and nothing else, and so ends with
/// [`AcquisitionError::ReadyTimeout`]. The machine is idle again, and the
/// next cycle starts like any other.
pub proof fn starved_cycle_times_out(config: Config, before: Seq<Event>, polls: nat)
    requires
        config.valid(),
        observe(config, before).state is Idle,
        within_bound(config, polls),
        waited_after(config, polls) == config.ready_timeout_us,
    ensures
        observe(config, before + starved_cycle(polls)).state is Idle,
        observe(config, before + starved_cycle(polls)).actions == observe(
            config,
            before,
        ).actions + starved_cycle_actions(config, polls),
{
    let asked = observe(config, before).actions;
    let s1 = before.push(Event::Start);
    observe_push(config, before, Event::Start);
    waiting_reach(config, s1, polls);
    let s2 = s1 + not_ready_events(polls);
    observe_push(config, s2, Event::Level(true));
    assert(before + starved_cycle(polls) =~= s2.push(Event::Level(true)));
    assert(asked + starved_cycle_actions(config, polls) =~= (asked.push(Action::SampleData)
        + waiting_actions(config, polls)).push(Action::Report(AcquisitionError::ReadyTimeout)));
}

} // verus!
