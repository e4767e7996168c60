use hx711::bits::bits_of;
use hx711::config::Config;
use hx711::error::AcquisitionError;
use hx711::gain::GainSetting;
use hx711::machine::{Acquisition, Action, Event, PulseStep, State};

/// A converter on the bench: it stands in for both pins and the delay source
/// and keeps count of what the machine asked for.
struct Bench {
    machine: Acquisition,
    /// How many looks find the converter not ready before it is.
    not_ready_looks: u64,
    /// The bits the converter shifts out, most significant first.
    bits: Vec<bool>,
    next_bit: usize,
    /// The number of the action, counted from 0 within a cycle, that the pin
    /// driver fails to carry out.
    fault_at: Option<usize>,
    clock_high: bool,
    rises_in_pulse_train: u32,
    rises_in_gain_select: u32,
    falls: u32,
    delays: Vec<u64>,
    actions: Vec<Action>,
    sampled_with_clock_high: u32,
}

impl Bench {
    fn new(config: Config, raw: u32) -> Bench {
        Bench {
            machine: Acquisition::new(config).unwrap(),
            not_ready_looks: 0,
            bits: bits_of(raw),
            next_bit: 0,
            fault_at: None,
            clock_high: false,
            rises_in_pulse_train: 0,
            rises_in_gain_select: 0,
            falls: 0,
            delays: Vec::new(),
            actions: Vec::new(),
            sampled_with_clock_high: 0,
        }
    }

    fn load(&mut self, raw: u32) {
        self.bits = bits_of(raw);
        self.next_bit = 0;
        self.rises_in_pulse_train = 0;
        self.rises_in_gain_select = 0;
        self.falls = 0;
        self.delays.clear();
        self.actions.clear();
        self.sampled_with_clock_high = 0;
    }

    fn perform(&mut self, action: Action) -> Event {
        let number = self.actions.len();
        self.actions.push(action);
        if self.fault_at == Some(number) {
            return Event::Fault;
        }
        match action {
            Action::SetClockHigh => {
                if !self.clock_high {
                    match self.machine.state() {
                        State::PulseTrain { .. } => self.rises_in_pulse_train += 1,
                        State::GainSelect { .. } => self.rises_in_gain_select += 1,
                        other => panic!("clock raised in {:?}", other),
                    }
                }
                self.clock_high = true;
                Event::Done
            }
            Action::SetClockLow => {
                if self.clock_high {
                    self.falls += 1;
                }
                self.clock_high = false;
                Event::Done
            }
            Action::Delay(us) => {
                self.delays.push(us);
                Event::Done
            }
            Action::SampleData => match self.machine.state() {
                State::AwaitReady { .. } => {
                    if self.not_ready_looks > 0 {
                        self.not_ready_looks -= 1;
                        Event::Level(true)
                    } else {
                        Event::Level(false)
                    }
                }
                _ => {
                    if self.clock_high {
                        self.sampled_with_clock_high += 1;
                    }
                    let bit = self.bits[self.next_bit];
                    self.next_bit += 1;
                    Event::Level(bit)
                }
            },
            Action::Deliver(_) | Action::Report(_) => unreachable!(),
        }
    }

    fn run_cycle(&mut self) -> Result<i32, AcquisitionError> {
        assert!(self.machine.is_idle());
        let mut action = self.machine.step(Event::Start);
        for _ in 0..1_000_000 {
            match action {
                Action::Deliver(sample) => {
                    self.actions.push(action);
                    return Ok(sample);
                }
                Action::Report(error) => {
                    self.actions.push(action);
                    return Err(error);
                }
                _ => {
                    let event = self.perform(action);
                    action = self.machine.step(event);
                }
            }
        }
        panic!("the cycle did not end");
    }
}

fn all_gains() -> [GainSetting; 3] {
    [GainSetting::ChannelA128, GainSetting::ChannelA64, GainSetting::ChannelB32]
}

fn config(gain: GainSetting, hold: u64, timeout: u64) -> Config {
    Config::new(gain, hold, timeout).unwrap()
}

#[test]
fn new_starts_idle_with_its_options() {
    let options = config(GainSetting::ChannelA64, 3, 500);
    let machine = Acquisition::new(options).unwrap();
    assert!(machine.is_idle());
    assert_eq!(machine.state(), State::Idle);
    assert_eq!(machine.config(), options);
}

#[test]
fn new_refuses_invalid_options() {
    let bad = Config { gain: GainSetting::ChannelA128, pulse_hold_us: 0, ready_timeout_us: 10 };
    assert_eq!(Acquisition::new(bad).err(), Some(AcquisitionError::ProtocolViolation));
}

#[test]
fn sign_bit_alone_reads_as_the_most_negative_sample() {
    let mut bench = Bench::new(Config::with_ready_timeout(1000), 0);
    bench.bits = vec![false; 24];
    bench.bits[0] = true;
    assert_eq!(hx711::bits::assemble(&bench.bits), 0x80_0000);
    assert_eq!(bench.run_cycle(), Ok(-8388608));
    assert_eq!(bench.rises_in_pulse_train, 24);
    assert_eq!(bench.rises_in_gain_select, 1);
}

#[test]
fn a_cycle_delivers_the_pattern_that_was_shifted_out() {
    let cases: [(u32, i32); 8] = [
        (0, 0),
        (1, 1),
        (0x12_3456, 1193046),
        (0x7F_FFFF, 8388607),
        (0x80_0000, -8388608),
        (0x80_0001, -8388607),
        (0xA5_A5A5, -5921371),
        (0xFF_FFFF, -1),
    ];
    for gain in all_gains() {
        for (raw, signed) in cases {
            let mut bench = Bench::new(config(gain, 1, 100), raw);
            assert_eq!(bench.run_cycle(), Ok(signed));
        }
    }
}

#[test]
fn every_gain_gets_24_data_pulses_and_its_own_trailing_pulses() {
    for (gain, trailing) in
        [(GainSetting::ChannelA128, 1u32), (GainSetting::ChannelA64, 2), (GainSetting::ChannelB32, 3)]
    {
        let mut bench = Bench::new(config(gain, 1, 100), 0x5A_5A5A);
        assert_eq!(bench.run_cycle(), Ok(5921370));
        assert_eq!(bench.rises_in_pulse_train, 24);
        assert_eq!(bench.rises_in_gain_select, trailing);
        assert_eq!(bench.falls, 24 + trailing);
        assert_eq!(bench.sampled_with_clock_high, 24);
        assert_eq!(bench.next_bit, 24);
    }
}

#[test]
fn pulse_counts_hold_cycle_after_cycle() {
    let mut bench = Bench::new(config(GainSetting::ChannelB32, 2, 100), 0x00_0001);
    for raw in [0x00_0001u32, 0xFF_FFFE, 0x80_0000, 0x12_3456] {
        bench.load(raw);
        let expected = hx711::sample::sign_extend(raw);
        assert_eq!(bench.run_cycle(), Ok(expected));
        assert_eq!(bench.rises_in_pulse_train, 24);
        assert_eq!(bench.rises_in_gain_select, 3);
        assert_eq!(bench.falls, 27);
        assert!(!bench.clock_high);
        assert!(bench.machine.is_idle());
    }
}

#[test]
fn the_clock_is_low_after_a_complete_cycle() {
    for gain in all_gains() {
        let mut bench = Bench::new(config(gain, 1, 100), 0xFF_FFFF);
        assert!(bench.run_cycle().is_ok());
        assert!(!bench.clock_high);
        assert!(bench.machine.is_idle());
        let last_clock_command = bench
            .actions
            .iter()
            .rev()
            .find(|action| matches!(action, Action::SetClockHigh | Action::SetClockLow));
        assert_eq!(last_clock_command, Some(&Action::SetClockLow));
    }
}

#[test]
fn a_clean_cycle_makes_the_exact_waveform() {
    let hold = 5;
    let mut bench = Bench::new(config(GainSetting::ChannelA64, hold, 100), 0xC0_0001);
    assert_eq!(bench.run_cycle(), Ok(-4194303));
    let mut expected = vec![Action::SampleData];
    for _ in 0..24 {
        expected.extend([
            Action::SetClockHigh,
            Action::Delay(hold),
            Action::SampleData,
            Action::SetClockLow,
            Action::Delay(hold),
        ]);
    }
    for _ in 0..2 {
        expected.extend([
            Action::SetClockHigh,
            Action::Delay(hold),
            Action::SetClockLow,
            Action::Delay(hold),
        ]);
    }
    expected.push(Action::Deliver(-4194303));
    assert_eq!(bench.actions, expected);
}

#[test]
fn every_hold_lasts_as_long_as_configured() {
    let mut bench = Bench::new(config(GainSetting::ChannelB32, 17, 100), 0x33_3333);
    assert!(bench.run_cycle().is_ok());
    assert_eq!(bench.delays.len(), 2 * (24 + 3));
    assert!(bench.delays.iter().all(|us| *us == 17));
}

#[test]
fn the_states_of_a_cycle_come_in_order() {
    let mut machine = Acquisition::new(config(GainSetting::ChannelA128, 1, 10)).unwrap();
    assert_eq!(machine.step(Event::Start), Action::SampleData);
    assert_eq!(machine.state(), State::AwaitReady { waited_us: 0 });
    assert_eq!(machine.step(Event::Level(false)), Action::SetClockHigh);
    assert_eq!(machine.state(), State::PulseTrain { bit: 0, step: PulseStep::Rising, raw: 0 });
    assert_eq!(machine.step(Event::Done), Action::Delay(1));
    assert_eq!(machine.state(), State::PulseTrain { bit: 0, step: PulseStep::HighHold, raw: 0 });
    assert_eq!(machine.step(Event::Done), Action::SampleData);
    assert_eq!(machine.state(), State::PulseTrain { bit: 0, step: PulseStep::Sampling, raw: 0 });
    assert_eq!(machine.step(Event::Level(true)), Action::SetClockLow);
    assert_eq!(machine.state(), State::PulseTrain { bit: 0, step: PulseStep::Falling, raw: 1 });
    assert_eq!(machine.step(Event::Done), Action::Delay(1));
    assert_eq!(machine.state(), State::PulseTrain { bit: 0, step: PulseStep::LowHold, raw: 1 });
    assert_eq!(machine.step(Event::Done), Action::SetClockHigh);
    assert_eq!(machine.state(), State::PulseTrain { bit: 1, step: PulseStep::Rising, raw: 1 });
    for _ in 1..24 {
        assert_eq!(machine.step(Event::Done), Action::Delay(1));
        assert_eq!(machine.step(Event::Done), Action::SampleData);
        assert_eq!(machine.step(Event::Level(false)), Action::SetClockLow);
        assert_eq!(machine.step(Event::Done), Action::Delay(1));
        assert_eq!(machine.step(Event::Done), Action::SetClockHigh);
    }
    assert_eq!(
        machine.state(),
        State::GainSelect { pulse: 0, step: PulseStep::Rising, raw: 0x80_0000 }
    );
    assert_eq!(machine.step(Event::Done), Action::Delay(1));
    assert_eq!(
        machine.state(),
        State::GainSelect { pulse: 0, step: PulseStep::HighHold, raw: 0x80_0000 }
    );
    assert_eq!(machine.step(Event::Done), Action::SetClockLow);
    assert_eq!(
        machine.state(),
        State::GainSelect { pulse: 0, step: PulseStep::Falling, raw: 0x80_0000 }
    );
    assert_eq!(machine.step(Event::Done), Action::Delay(1));
    assert_eq!(
        machine.state(),
        State::GainSelect { pulse: 0, step: PulseStep::LowHold, raw: 0x80_0000 }
    );
    assert_eq!(machine.step(Event::Done), Action::Deliver(-8388608));
    assert_eq!(machine.state(), State::Idle);
}

#[test]
fn ready_timeout_fires_when_the_converter_never_gets_ready() {
    let mut bench = Bench::new(config(GainSetting::ChannelA128, 1, 50), 0x12_3456);
    bench.not_ready_looks = u64::MAX;
    assert_eq!(bench.run_cycle(), Err(AcquisitionError::ReadyTimeout));
    assert_eq!(bench.delays.len(), 50);
    assert_eq!(bench.delays.iter().sum::<u64>(), 50);
    assert_eq!(bench.rises_in_pulse_train + bench.rises_in_gain_select + bench.falls, 0);
    assert!(!bench.clock_high);
    assert!(bench.machine.is_idle());
    assert!(bench.actions.iter().all(|action| !matches!(
        action,
        Action::SetClockHigh | Action::SetClockLow
    )));
}

#[test]
fn the_loop_recovers_after_a_ready_timeout() {
    let mut bench = Bench::new(config(GainSetting::ChannelA64, 1, 20), 0x12_3456);
    bench.not_ready_looks = 21;
    assert_eq!(bench.run_cycle(), Err(AcquisitionError::ReadyTimeout));
    bench.load(0x12_3456);
    bench.not_ready_looks = 0;
    assert_eq!(bench.run_cycle(), Ok(1193046));
    assert_eq!(bench.rises_in_pulse_train, 24);
    assert_eq!(bench.rises_in_gain_select, 2);
    bench.load(0xFF_FFFF);
    bench.not_ready_looks = u64::MAX;
    assert_eq!(bench.run_cycle(), Err(AcquisitionError::ReadyTimeout));
    bench.load(0xFF_FFFF);
    bench.not_ready_looks = 3;
    assert_eq!(bench.run_cycle(), Ok(-1));
}

#[test]
fn a_timeout_of_zero_allows_a_single_look() {
    let mut bench = Bench::new(config(GainSetting::ChannelA128, 1, 0), 0x00_00FF);
    assert_eq!(bench.run_cycle(), Ok(255));
    bench.load(0x00_00FF);
    bench.not_ready_looks = 1;
    assert_eq!(bench.run_cycle(), Err(AcquisitionError::ReadyTimeout));
    assert_eq!(bench.actions, vec![Action::SampleData, Action::Report(AcquisitionError::ReadyTimeout)]);
}

#[test]
fn the_wait_for_ready_never_runs_past_its_bound() {
    let mut bench = Bench::new(config(GainSetting::ChannelA128, 4, 10), 0);
    bench.not_ready_looks = u64::MAX;
    assert_eq!(bench.run_cycle(), Err(AcquisitionError::ReadyTimeout));
    assert_eq!(bench.delays, vec![4, 4, 2]);
    assert_eq!(
        bench.actions,
        vec![
            Action::SampleData,
            Action::Delay(4),
            Action::SampleData,
            Action::Delay(4),
            Action::SampleData,
            Action::Delay(2),
            Action::SampleData,
            Action::Report(AcquisitionError::ReadyTimeout),
        ]
    );
}

#[test]
fn a_converter_that_gets_ready_in_time_is_read() {
    let mut bench = Bench::new(config(GainSetting::ChannelA128, 4, 10), 0x80_0001);
    bench.not_ready_looks = 3;
    assert_eq!(bench.run_cycle(), Ok(-8388607));
    assert_eq!(&bench.delays[..3], &[4, 4, 2]);
    assert_eq!(bench.rises_in_pulse_train, 24);
    assert_eq!(bench.rises_in_gain_select, 1);
}

#[test]
fn the_wait_for_ready_keeps_track_of_the_time_spent() {
    let mut machine = Acquisition::new(config(GainSetting::ChannelA128, 3, 7)).unwrap();
    assert_eq!(machine.step(Event::Start), Action::SampleData);
    assert_eq!(machine.step(Event::Level(true)), Action::Delay(3));
    assert_eq!(machine.state(), State::ReadyBackoff { waited_us: 3 });
    assert_eq!(machine.step(Event::Done), Action::SampleData);
    assert_eq!(machine.state(), State::AwaitReady { waited_us: 3 });
    assert_eq!(machine.step(Event::Level(true)), Action::Delay(3));
    assert_eq!(machine.step(Event::Done), Action::SampleData);
    assert_eq!(machine.step(Event::Level(true)), Action::Delay(1));
    assert_eq!(machine.state(), State::ReadyBackoff { waited_us: 7 });
    assert_eq!(machine.step(Event::Done), Action::SampleData);
    assert_eq!(machine.step(Event::Level(true)), Action::Report(AcquisitionError::ReadyTimeout));
    assert_eq!(machine.state(), State::Idle);
}

#[test]
fn a_huge_bound_does_not_overflow() {
    let mut machine =
        Acquisition::new(config(GainSetting::ChannelA128, u64::MAX, u64::MAX)).unwrap();
    assert_eq!(machine.step(Event::Start), Action::SampleData);
    assert_eq!(machine.step(Event::Level(true)), Action::Delay(u64::MAX));
    assert_eq!(machine.step(Event::Done), Action::SampleData);
    assert_eq!(machine.step(Event::Level(true)), Action::Report(AcquisitionError::ReadyTimeout));
}

#[test]
fn a_hardware_fault_forces_the_clock_low_and_is_reported() {
    let clean_length = 1 + 24 * 5 + 4;
    for fault_at in 0..clean_length {
        let mut bench = Bench::new(config(GainSetting::ChannelA128, 1, 10), 0xA5_A5A5);
        bench.fault_at = Some(fault_at);
        assert_eq!(bench.run_cycle(), Err(AcquisitionError::HardwareFault));
        let asked = bench.actions.len();
        assert_eq!(asked, fault_at + 3);
        assert_eq!(bench.actions[asked - 2], Action::SetClockLow);
        assert_eq!(bench.actions[asked - 1], Action::Report(AcquisitionError::HardwareFault));
        assert!(!bench.clock_high);
        assert!(bench.machine.is_idle());
    }
}

#[test]
fn a_fault_while_forcing_the_clock_low_is_still_reported() {
    let mut machine = Acquisition::new(config(GainSetting::ChannelA128, 1, 10)).unwrap();
    assert_eq!(machine.step(Event::Start), Action::SampleData);
    assert_eq!(machine.step(Event::Level(false)), Action::SetClockHigh);
    assert_eq!(machine.step(Event::Fault), Action::SetClockLow);
    assert_eq!(
        machine.state(),
        State::Aborting { error: AcquisitionError::HardwareFault }
    );
    assert_eq!(machine.step(Event::Fault), Action::Report(AcquisitionError::HardwareFault));
    assert!(machine.is_idle());
}

#[test]
fn the_loop_recovers_after_a_hardware_fault() {
    let mut bench = Bench::new(config(GainSetting::ChannelB32, 1, 10), 0x7F_FFFF);
    bench.fault_at = Some(60);
    assert_eq!(bench.run_cycle(), Err(AcquisitionError::HardwareFault));
    bench.load(0x7F_FFFF);
    bench.fault_at = None;
    assert_eq!(bench.run_cycle(), Ok(8388607));
    assert_eq!(bench.rises_in_pulse_train, 24);
    assert_eq!(bench.rises_in_gain_select, 3);
}

#[test]
fn no_partial_sample_is_delivered() {
    for fault_at in [1usize, 3, 50, 120, 121, 124] {
        let mut bench = Bench::new(config(GainSetting::ChannelA128, 1, 10), 0xFF_FFFF);
        bench.fault_at = Some(fault_at);
        assert!(bench.run_cycle().is_err());
        assert!(bench.actions.iter().all(|action| !matches!(action, Action::Deliver(_))));
    }
}

#[test]
fn an_idle_machine_only_takes_start() {
    let mut machine = Acquisition::new(Config::with_ready_timeout(10)).unwrap();
    for event in [Event::Done, Event::Level(true), Event::Level(false), Event::Fault] {
        assert_eq!(machine.step(event), Action::Report(AcquisitionError::ProtocolViolation));
        assert!(machine.is_idle());
    }
    assert_eq!(machine.step(Event::Start), Action::SampleData);
    assert!(!machine.is_idle());
}

#[test]
fn an_event_out_of_turn_ends_the_cycle_as_a_protocol_violation() {
    let prefixes: [&[Event]; 6] = [
        &[Event::Start],
        &[Event::Start, Event::Level(true)],
        &[Event::Start, Event::Level(false)],
        &[Event::Start, Event::Level(false), Event::Done],
        &[Event::Start, Event::Level(false), Event::Done, Event::Done],
        &[Event::Start, Event::Level(false), Event::Done, Event::Done, Event::Level(true)],
    ];
    let out_of_turn =
        [Event::Done, Event::Level(true), Event::Start, Event::Level(true), Event::Done, Event::Start];
    for (prefix, event) in prefixes.iter().zip(out_of_turn) {
        let mut machine = Acquisition::new(Config::with_ready_timeout(10)).unwrap();
        for accepted in prefix.iter() {
            machine.step(*accepted);
        }
        assert_eq!(machine.step(event), Action::SetClockLow);
        assert_eq!(
            machine.state(),
            State::Aborting { error: AcquisitionError::ProtocolViolation }
        );
        assert_eq!(machine.step(Event::Done), Action::Report(AcquisitionError::ProtocolViolation));
        assert!(machine.is_idle());
    }
}

#[test]
fn a_data_sample_during_a_trailing_pulse_is_out_of_turn() {
    let mut bench = Bench::new(config(GainSetting::ChannelA64, 1, 10), 0);
    let mut action = bench.machine.step(Event::Start);
    while !matches!(bench.machine.state(), State::GainSelect { step: PulseStep::HighHold, .. }) {
        let event = bench.perform(action);
        action = bench.machine.step(event);
    }
    assert_eq!(action, Action::Delay(1));
    assert_eq!(bench.machine.step(Event::Level(true)), Action::SetClockLow);
    assert_eq!(bench.machine.step(Event::Done), Action::Report(AcquisitionError::ProtocolViolation));
}

#[test]
fn the_options_never_change() {
    let options = config(GainSetting::ChannelB32, 9, 33);
    let mut bench = Bench::new(options, 0x01_0203);
    assert!(bench.run_cycle().is_ok());
    assert_eq!(bench.machine.config(), options);
    bench.load(0);
    bench.fault_at = Some(7);
    assert!(bench.run_cycle().is_err());
    assert_eq!(bench.machine.config(), options);
}
