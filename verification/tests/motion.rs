use blind_mover::blind::Blind;
use blind_mover::motion::{direction, line_writes, Drive, Levels, Line, LineWrite, MotionOutput};

#[test]
fn direction_follows_the_order_of_target_and_position() {
    assert_eq!(direction(0, 125), Drive::Up);
    assert_eq!(direction(500, 125), Drive::Down);
    assert_eq!(direction(125, 125), Drive::Stop);
    assert_eq!(direction(0, 0), Drive::Stop);
    assert_eq!(direction(999, 999), Drive::Stop);
    assert_eq!(direction(0, 999), Drive::Up);
    assert_eq!(direction(999, 0), Drive::Down);
    assert_eq!(direction(124, 125), Drive::Up);
    assert_eq!(direction(126, 125), Drive::Down);
}

#[test]
fn direction_is_total_over_the_travel() {
    for position in 0..=999u16 {
        for target in (0..=999u16).step_by(37) {
            let expected = if target < position {
                Drive::Down
            } else if target > position {
                Drive::Up
            } else {
                Drive::Stop
            };
            assert_eq!(direction(position, target), expected);
            assert_eq!(direction(position, target), direction(position, target));
        }
        assert_eq!(direction(position, position), Drive::Stop);
    }
}

#[test]
fn line_writes_release_before_they_raise() {
    assert_eq!(
        line_writes(Drive::Up),
        [
            LineWrite { line: Line::Down, high: false },
            LineWrite { line: Line::Up, high: true }
        ]
    );
    assert_eq!(
        line_writes(Drive::Down),
        [
            LineWrite { line: Line::Up, high: false },
            LineWrite { line: Line::Down, high: true }
        ]
    );
    assert_eq!(
        line_writes(Drive::Stop),
        [
            LineWrite { line: Line::Up, high: false },
            LineWrite { line: Line::Down, high: false }
        ]
    );
}

#[test]
fn line_writes_never_raise_both_lines() {
    let starts = [(false, false), (true, false), (false, true)];
    for drive in [Drive::Up, Drive::Down, Drive::Stop] {
        for (mut up, mut down) in starts {
            for write in line_writes(drive) {
                match write.line {
                    Line::Up => up = write.high,
                    Line::Down => down = write.high,
                }
                assert!(!(up && down));
            }
            assert_eq!(up, drive == Drive::Up);
            assert_eq!(down, drive == Drive::Down);
        }
    }
}

#[test]
fn motion_output_starts_with_both_lines_low() {
    let output = MotionOutput::new();
    assert_eq!(output.levels(), Levels { up: false, down: false });
    assert_eq!(output.state(), Drive::Stop);
}

#[test]
fn motion_output_states_are_exclusive() {
    let mut output = MotionOutput::new();
    output.drive_up();
    assert_eq!(output.levels(), Levels { up: true, down: false });
    assert_eq!(output.state(), Drive::Up);
    output.drive_down();
    assert_eq!(output.levels(), Levels { up: false, down: true });
    assert_eq!(output.state(), Drive::Down);
    output.stop();
    assert_eq!(output.levels(), Levels { up: false, down: false });
    assert_eq!(output.state(), Drive::Stop);
    output.drive_down();
    output.drive_up();
    assert_eq!(output.levels(), Levels { up: true, down: false });
}

#[test]
fn motion_output_drive_takes_any_drive() {
    let mut output = MotionOutput::new();
    for drive in [Drive::Up, Drive::Down, Drive::Stop, Drive::Down, Drive::Up] {
        output.drive(drive);
        assert_eq!(output.state(), drive);
        let levels = output.levels();
        assert!(!(levels.up && levels.down));
    }
}

#[test]
fn blind_is_set_up_at_rest() {
    let blind = Blind::setup(b'c');
    assert_eq!(blind.id(), b'c');
    assert_eq!(blind.position(), 0);
    assert_eq!(blind.target(), 999);
    assert_eq!(blind.levels(), Levels { up: false, down: false });
    assert_eq!(blind.drive(), Drive::Stop);
}

#[test]
fn blind_moves_by_hand() {
    let mut blind = Blind::setup(b'a');
    blind.move_up();
    assert_eq!(blind.levels(), Levels { up: true, down: false });
    blind.move_down();
    assert_eq!(blind.levels(), Levels { up: false, down: true });
    blind.stop();
    assert_eq!(blind.levels(), Levels { up: false, down: false });
    assert_eq!(blind.position(), 0);
    assert_eq!(blind.target(), 999);
    assert_eq!(blind.id(), b'a');
}

#[test]
fn blind_set_decides_the_direction_once() {
    let mut blind = Blind::setup(b'a');
    assert_eq!(blind.set(125), Drive::Up);
    assert_eq!(blind.target(), 125);
    assert_eq!(blind.position(), 0);
    assert_eq!(blind.drive(), Drive::Up);

    blind.set_position(500);
    assert_eq!(blind.drive(), Drive::Up);
    assert_eq!(blind.set(125), Drive::Down);
    assert_eq!(blind.levels(), Levels { up: false, down: true });

    blind.set_position(125);
    assert_eq!(blind.set(125), Drive::Stop);
    assert_eq!(blind.levels(), Levels { up: false, down: false });
    assert_eq!(blind.target(), 125);
}

#[test]
fn blind_set_to_its_own_position_stops_a_running_blind() {
    let mut blind = Blind::setup(b'b');
    assert_eq!(blind.set(999), Drive::Up);
    assert_eq!(blind.set(0), Drive::Stop);
    assert_eq!(blind.levels(), Levels { up: false, down: false });
    assert_eq!(blind.target(), 0);
}

#[test]
fn blind_simulate_runs_to_the_target() {
    let mut blind = Blind::setup(b'a');
    blind.set(123);
    assert_eq!(blind.simulate(), 25);
    assert_eq!(blind.position(), 123);
    assert_eq!(blind.target(), 123);
    assert_eq!(blind.drive(), Drive::Stop);
    assert_eq!(blind.simulate(), 0);
    blind.set(120);
    assert_eq!(blind.drive(), Drive::Down);
    assert_eq!(blind.simulate(), 1);
    assert_eq!(blind.position(), 120);
}
