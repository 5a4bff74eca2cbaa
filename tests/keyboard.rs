use split_keyboard::cadence::{ConfigError, DeviceConfig, INPUT_PERIOD_US};
use split_keyboard::control::{
    tick_outcome_tolerated, write_outcome_tolerated, Action, Event, KeyboardLoop, Phase,
};
use split_keyboard::keymap::{left_keys, right_keys, KeyMapping};
use split_keyboard::scan::{empty_snapshot, record_line, scan};
use usb_device::UsbError;
use usbd_human_interface_device::page::Keyboard;
use usbd_human_interface_device::UsbHidError;

fn no_keys() -> [[bool; 6]; 6] {
    [[false; 6]; 6]
}

fn distinct_table() -> [[Keyboard; 6]; 6] {
    [
        [Keyboard::A, Keyboard::B, Keyboard::C, Keyboard::D, Keyboard::E, Keyboard::F],
        [Keyboard::G, Keyboard::H, Keyboard::I, Keyboard::J, Keyboard::K, Keyboard::L],
        [Keyboard::M, Keyboard::N, Keyboard::O, Keyboard::P, Keyboard::Q, Keyboard::R],
        [Keyboard::S, Keyboard::T, Keyboard::U, Keyboard::V, Keyboard::W, Keyboard::X],
        [
            Keyboard::Y,
            Keyboard::Z,
            Keyboard::Keyboard1,
            Keyboard::Keyboard2,
            Keyboard::Keyboard3,
            Keyboard::Keyboard4,
        ],
        [
            Keyboard::Keyboard5,
            Keyboard::Keyboard6,
            Keyboard::Keyboard7,
            Keyboard::Keyboard8,
            Keyboard::Keyboard9,
            Keyboard::Keyboard0,
        ],
    ]
}

fn events_count(snapshot: &[Keyboard; 36]) -> usize {
    snapshot.iter().filter(|k| **k != Keyboard::NoEventIndicated).count()
}

#[test]
fn right_mapping_indexes_directly() {
    let m = right_keys();
    assert_eq!(m.mapping(0, 0), Keyboard::Keyboard6);
    assert_eq!(m.mapping(0, 5), Keyboard::Minus);
    assert_eq!(m.mapping(1, 0), Keyboard::Y);
    assert_eq!(m.mapping(3, 5), Keyboard::RightShift);
    assert_eq!(m.mapping(5, 1), Keyboard::RightControl);
    assert_eq!(m.mapping(5, 5), Keyboard::NoEventIndicated);
}

#[test]
fn direct_mapping_matches_table_everywhere() {
    let table = distinct_table();
    let m = KeyMapping::Right(table);
    for line in 0..6 {
        for column in 0..6 {
            assert_eq!(m.mapping(line, column), table[line][column]);
        }
    }
}

#[test]
fn left_mapping_mirrors_columns() {
    let m = left_keys();
    assert_eq!(m.mapping(0, 0), Keyboard::Keyboard5);
    assert_eq!(m.mapping(0, 5), Keyboard::Equal);
    assert_eq!(m.mapping(1, 0), Keyboard::T);
    assert_eq!(m.mapping(1, 5), Keyboard::Tab);
    assert_eq!(m.mapping(4, 0), Keyboard::LeftControl);
    assert_eq!(m.mapping(5, 5), Keyboard::NoEventIndicated);
}

#[test]
fn mirrored_mapping_matches_reversed_table_everywhere() {
    let table = distinct_table();
    let m = KeyMapping::Left(table);
    for line in 0..6 {
        for column in 0..6 {
            assert_eq!(m.mapping(line, column), table[line][5 - column]);
        }
    }
}

#[test]
fn other_mapping_yields_no_event() {
    let m = KeyMapping::Other;
    for line in 0..6 {
        for column in 0..6 {
            assert_eq!(m.mapping(line, column), Keyboard::NoEventIndicated);
        }
    }
}

#[test]
fn single_closure_fills_slot_26() {
    let mut closed = no_keys();
    closed[2][4] = true;
    let snapshot = scan(&right_keys(), &closed);
    assert_eq!(snapshot[26], Keyboard::Semicolon);
    for (i, k) in snapshot.iter().enumerate() {
        if i != 26 {
            assert_eq!(*k, Keyboard::NoEventIndicated);
        }
    }
}

#[test]
fn two_closures_fill_slots_0_and_35() {
    let mut closed = no_keys();
    closed[0][0] = true;
    closed[5][5] = true;
    let snapshot = scan(&KeyMapping::Right(distinct_table()), &closed);
    assert_eq!(events_count(&snapshot), 2);
    assert_eq!(snapshot[0], Keyboard::A);
    assert_eq!(snapshot[35], Keyboard::Keyboard0);
}

#[test]
fn open_matrix_scans_silent_repeatedly() {
    for m in [right_keys(), left_keys(), KeyMapping::Other] {
        for _ in 0..3 {
            let snapshot = scan(&m, &no_keys());
            assert_eq!(events_count(&snapshot), 0);
        }
    }
}

#[test]
fn record_line_keeps_other_lines() {
    let mut snapshot = empty_snapshot();
    record_line(&mut snapshot, &right_keys(), 1, &[true, false, false, false, false, true]);
    record_line(&mut snapshot, &right_keys(), 3, &[false; 6]);
    assert_eq!(snapshot[1], Keyboard::Y);
    assert_eq!(snapshot[31], Keyboard::Backslash);
    assert_eq!(events_count(&snapshot), 2);
}

#[test]
fn write_outcomes_tolerated() {
    assert!(write_outcome_tolerated(&Ok(())));
    assert!(write_outcome_tolerated(&Err(UsbHidError::WouldBlock)));
    assert!(write_outcome_tolerated(&Err(UsbHidError::Duplicate)));
    assert!(!write_outcome_tolerated(&Err(UsbHidError::SerializationError)));
    assert!(!write_outcome_tolerated(&Err(UsbHidError::UsbError(UsbError::InvalidState))));
}

#[test]
fn tick_outcomes_tolerated() {
    assert!(tick_outcome_tolerated(&Ok(())));
    assert!(tick_outcome_tolerated(&Err(UsbHidError::WouldBlock)));
    assert!(!tick_outcome_tolerated(&Err(UsbHidError::Duplicate)));
    assert!(!tick_outcome_tolerated(&Err(UsbHidError::UsbError(UsbError::BufferOverflow))));
}

#[test]
fn config_ranges() {
    assert!(matches!(
        DeviceConfig::new(right_keys(), 499, 10000),
        Err(ConfigError::TickOutOfRange)
    ));
    assert!(matches!(
        DeviceConfig::new(right_keys(), 1001, 10000),
        Err(ConfigError::TickOutOfRange)
    ));
    assert!(matches!(
        DeviceConfig::new(right_keys(), 1000, 5999),
        Err(ConfigError::InputTooShort)
    ));
    let c = DeviceConfig::new(KeyMapping::Other, 1000, 6000).unwrap();
    assert_eq!(c.tick_period_us, 1000);
    assert_eq!(c.input_period_us, 6000);
    assert!(matches!(c.mapping, KeyMapping::Other));
}

#[test]
fn preset_halves() {
    let right = DeviceConfig::right_half();
    assert_eq!(right.tick_period_us, 500);
    assert_eq!(right.input_period_us, INPUT_PERIOD_US);
    assert_eq!(right.mapping.mapping(1, 0), Keyboard::Y);
    let left = DeviceConfig::left_half();
    assert_eq!(left.tick_period_us, 1000);
    assert_eq!(left.input_period_us, 10000);
    assert_eq!(left.mapping.mapping(1, 0), Keyboard::T);
}

/// Drives one sweep of the loop, answering each action; `closed` gives the
/// closures seen on each line. Panics if a report is asked for mid-sweep.
fn sweep(k: &mut KeyboardLoop, closed: &[[bool; 6]; 6]) -> Action {
    let mut action = k.action();
    loop {
        let event = match action {
            Action::DriveLow(_) | Action::DriveHigh(_) => Event::LineDriven,
            Action::WaitTick => Event::TickElapsed,
            Action::SampleColumns(line) => Event::Columns(closed[line]),
            Action::WaitInput => return action,
            other => panic!("unexpected action mid-sweep: {:?}", other),
        };
        action = k.step(&event);
    }
}

#[test]
fn report_waits_for_input_boundary() {
    let mut k = KeyboardLoop::new(right_keys());
    let mut closed = no_keys();
    closed[2][4] = true;
    let action = sweep(&mut k, &closed);
    assert!(matches!(action, Action::WaitInput));
    assert_eq!(k.phase(), Phase::AwaitInput);
    // Events other than the input boundary do not bring a report.
    assert!(matches!(k.step(&Event::TickElapsed), Action::WaitInput));
    assert!(matches!(k.step(&Event::Columns([true; 6])), Action::WaitInput));
    match k.step(&Event::InputElapsed) {
        Action::WriteReport(keys) => {
            assert_eq!(keys[26], Keyboard::Semicolon);
            assert_eq!(events_count(&keys), 1);
        }
        other => panic!("expected a report, got {:?}", other),
    }
}

#[test]
fn would_block_keeps_loop_running() {
    let mut k = KeyboardLoop::new(right_keys());
    let mut closed = no_keys();
    closed[0][0] = true;
    sweep(&mut k, &closed);
    k.step(&Event::InputElapsed);
    let a = k.step(&Event::Written(Err(UsbHidError::WouldBlock)));
    assert!(matches!(a, Action::WaitTick));
    assert!(matches!(k.step(&Event::TickElapsed), Action::Maintain));
    assert!(matches!(k.step(&Event::Ticked(Err(UsbHidError::WouldBlock))), Action::PollBus));
    assert!(matches!(k.step(&Event::Polled(true)), Action::ReadReport));
    let a = k.step(&Event::Read(Err(UsbError::ParseError)));
    assert!(matches!(a, Action::DriveLow(0)));
    assert_eq!(events_count(&k.snapshot()), 0);
    // The next cycle is built from its own closures only.
    let mut next = no_keys();
    next[1][0] = true;
    sweep(&mut k, &next);
    match k.step(&Event::InputElapsed) {
        Action::WriteReport(keys) => {
            assert_eq!(keys[1], Keyboard::Y);
            assert_eq!(keys[0], Keyboard::NoEventIndicated);
            assert_eq!(events_count(&keys), 1);
        }
        other => panic!("expected a report, got {:?}", other),
    }
}

#[test]
fn duplicate_report_keeps_loop_running() {
    let mut k = KeyboardLoop::new(left_keys());
    sweep(&mut k, &no_keys());
    k.step(&Event::InputElapsed);
    assert!(matches!(k.step(&Event::Written(Err(UsbHidError::Duplicate))), Action::WaitTick));
    assert!(matches!(k.step(&Event::TickElapsed), Action::Maintain));
    assert!(matches!(k.step(&Event::Ticked(Ok(()))), Action::PollBus));
    assert!(matches!(k.step(&Event::Polled(false)), Action::DriveLow(0)));
}

#[test]
fn write_fault_halts_for_good() {
    let mut k = KeyboardLoop::new(right_keys());
    sweep(&mut k, &no_keys());
    k.step(&Event::InputElapsed);
    let a = k.step(&Event::Written(Err(UsbHidError::UsbError(UsbError::InvalidEndpoint))));
    assert!(matches!(a, Action::Halt));
    assert_eq!(k.phase(), Phase::Halted);
    let events = [
        Event::LineDriven,
        Event::TickElapsed,
        Event::InputElapsed,
        Event::Columns([true; 6]),
        Event::Written(Ok(())),
        Event::Ticked(Ok(())),
        Event::Polled(true),
        Event::Read(Ok(())),
    ];
    for e in events.iter() {
        assert!(matches!(k.step(e), Action::Halt));
        assert_eq!(k.phase(), Phase::Halted);
    }
}

#[test]
fn tick_fault_halts() {
    let mut k = KeyboardLoop::new(right_keys());
    sweep(&mut k, &no_keys());
    k.step(&Event::InputElapsed);
    k.step(&Event::Written(Ok(())));
    k.step(&Event::TickElapsed);
    assert!(matches!(k.step(&Event::Ticked(Err(UsbHidError::SerializationError))), Action::Halt));
}

#[test]
fn sweep_asserts_lines_in_order() {
    let mut k = KeyboardLoop::new(KeyMapping::Other);
    let mut seen: Vec<usize> = Vec::new();
    let mut action = k.action();
    for _ in 0..24 {
        if let Action::DriveLow(line) = action {
            seen.push(line);
        }
        let event = match action {
            Action::DriveLow(_) | Action::DriveHigh(_) => Event::LineDriven,
            Action::WaitTick => Event::TickElapsed,
            Action::SampleColumns(_) => Event::Columns([true; 6]),
            other => panic!("unexpected action: {:?}", other),
        };
        action = k.step(&event);
    }
    assert_eq!(seen, vec![0, 1, 2, 3, 4, 5]);
    assert!(matches!(action, Action::WaitInput));
    assert_eq!(events_count(&k.snapshot()), 0);
}

#[test]
fn loop_sweep_matches_scan() {
    let mut closed = no_keys();
    closed[0][3] = true;
    closed[4][1] = true;
    closed[5][2] = true;
    let mapping = KeyMapping::Left(distinct_table());
    let mut k = KeyboardLoop::new(mapping);
    sweep(&mut k, &closed);
    let expected = scan(&mapping, &closed);
    assert_eq!(k.snapshot(), expected);
    assert_eq!(expected[3 * 6], Keyboard::C);
    assert_eq!(expected[6 + 4], Keyboard::Keyboard3);
    assert_eq!(expected[2 * 6 + 5], Keyboard::Keyboard8);
    assert_eq!(events_count(&expected), 3);
}
