use brick_sorter::dispatch::{
    channel_index, ActuationError, ActuatorConfig, ActuatorDispatcher, Command, Output,
};
use brick_sorter::gate::SizeCategory;
use brick_sorter::selector::Color;

fn set(pin: u8, pulse_us: u32) -> Command {
    Command::SetPulse { pin, period_us: 20000, pulse_us }
}

/// Runs one sort, failing the commands whose positions are in `failing`,
/// and returns every command handed out, the last being `Finished`.
fn run(d: &mut ActuatorDispatcher, color: Color, size: SizeCategory, failing: &[usize]) -> Vec<Command> {
    let mut cmds = vec![d.begin(color, size)];
    while !matches!(cmds.last(), Some(Command::Finished { .. })) {
        let ok = !failing.contains(&(cmds.len() - 1));
        cmds.push(d.complete(ok));
        assert!(cmds.len() < 100);
    }
    cmds
}

fn open_count(d: &ActuatorDispatcher) -> usize {
    d.outputs.iter().filter(|o| **o == Output::Open).count()
}

#[test]
fn each_pair_has_its_own_channel() {
    let pairs = [
        (Color::Red, SizeCategory::Large),
        (Color::Red, SizeCategory::Small),
        (Color::Blue, SizeCategory::Large),
        (Color::Blue, SizeCategory::Small),
    ];
    let idx: Vec<usize> = pairs.iter().map(|(c, s)| channel_index(*c, *s)).collect();
    assert_eq!(idx, vec![0, 1, 2, 3]);
}

#[test]
fn red_large_sort_sequence() {
    let mut d = ActuatorDispatcher::new(ActuatorConfig::standard());
    let cmds = run(&mut d, Color::Red, SizeCategory::Large, &[]);
    assert_eq!(
        cmds,
        vec![
            set(12, 1500),
            set(13, 1500),
            set(19, 1500),
            set(16, 1500),
            set(12, 900),
            Command::Clear { pin: 13 },
            Command::Clear { pin: 19 },
            Command::Clear { pin: 16 },
            Command::Hold { millis: 3000 },
            set(12, 1500),
            Command::Clear { pin: 12 },
            Command::Finished { result: Ok(()) },
        ]
    );
    assert!(d.outputs.iter().all(|o| *o == Output::Off));
}

#[test]
fn every_pair_centres_then_releases_the_others_in_wiring_order() {
    let cases = [
        (Color::Red, SizeCategory::Small, 13, 900, [12, 19, 16]),
        (Color::Blue, SizeCategory::Large, 19, 900, [12, 13, 16]),
        (Color::Blue, SizeCategory::Small, 16, 2100, [12, 13, 19]),
    ];
    for (color, size, pin, pulse, others) in cases {
        let mut d = ActuatorDispatcher::new(ActuatorConfig::standard());
        let cmds = run(&mut d, color, size, &[]);
        assert_eq!(
            cmds,
            vec![
                set(12, 1500),
                set(13, 1500),
                set(19, 1500),
                set(16, 1500),
                set(pin, pulse),
                Command::Clear { pin: others[0] },
                Command::Clear { pin: others[1] },
                Command::Clear { pin: others[2] },
                Command::Hold { millis: 3000 },
                set(pin, 1500),
                Command::Clear { pin },
                Command::Finished { result: Ok(()) },
            ]
        );
    }
}

#[test]
fn blue_small_opens_with_its_own_pulse() {
    let mut d = ActuatorDispatcher::new(ActuatorConfig::standard());
    let cmds = run(&mut d, Color::Blue, SizeCategory::Small, &[]);
    assert_eq!(cmds[4], set(16, 2100));
    assert_eq!(cmds.len(), 12);
}

#[test]
fn only_the_target_is_open_while_holding() {
    let mut d = ActuatorDispatcher::new(ActuatorConfig::standard());
    let mut cmd = d.begin(Color::Blue, SizeCategory::Large);
    while !matches!(cmd, Command::Hold { .. }) {
        assert!(open_count(&d) <= 1);
        cmd = d.complete(true);
    }
    assert_eq!(d.outputs, vec![Output::Off, Output::Off, Output::Open, Output::Off]);
    while !matches!(cmd, Command::Finished { .. }) {
        assert!(open_count(&d) <= 1);
        cmd = d.complete(true);
    }
    assert_eq!(open_count(&d), 0);
}

#[test]
fn red_large_failure_still_releases_every_channel() {
    let mut d = ActuatorDispatcher::new(ActuatorConfig::standard());
    // The opening pulse (position 4) fails.
    let cmds = run(&mut d, Color::Red, SizeCategory::Large, &[4]);
    assert_eq!(
        cmds[5..].to_vec(),
        vec![
            Command::Clear { pin: 12 },
            Command::Clear { pin: 13 },
            Command::Clear { pin: 19 },
            Command::Clear { pin: 16 },
            Command::Finished { result: Err(ActuationError { channel: 0 }) },
        ]
    );
    assert!(d.outputs.iter().all(|o| *o == Output::Off));
}

#[test]
fn failures_during_release_report_the_first() {
    let mut d = ActuatorDispatcher::new(ActuatorConfig::standard());
    // Centring channel 2 fails, then two release commands fail too.
    let cmds = run(&mut d, Color::Red, SizeCategory::Small, &[2, 3, 4]);
    assert_eq!(cmds.len(), 8);
    assert_eq!(
        cmds.last(),
        Some(&Command::Finished { result: Err(ActuationError { channel: 2 }) })
    );
    assert!(d.outputs.iter().all(|o| *o == Output::Off));
}

#[test]
fn dispatcher_is_reusable_after_a_sort() {
    let mut d = ActuatorDispatcher::new(ActuatorConfig::standard());
    run(&mut d, Color::Red, SizeCategory::Small, &[9]);
    let cmds = run(&mut d, Color::Blue, SizeCategory::Large, &[]);
    assert_eq!(cmds[4], set(19, 900));
    assert_eq!(cmds.last(), Some(&Command::Finished { result: Ok(()) }));
}
