use blind_mover::controller::{Controller, Outcome};
use blind_mover::motion::{line_writes, Drive, Levels, Line};

fn feed_all(controller: &mut Controller, bytes: &[u8]) -> Vec<Outcome> {
    bytes.iter().map(|byte| controller.process(*byte)).collect()
}

#[test]
fn command_sets_the_target_and_drives_up() {
    let mut controller = Controller::new(7);
    assert_eq!(
        feed_all(&mut controller, b"a125"),
        vec![
            Outcome::Selected(b'a'),
            Outcome::Idle,
            Outcome::Idle,
            Outcome::Moved(b'a', Drive::Up)
        ]
    );
    assert_eq!(controller.registry().target(b'a'), Some(125));
    assert_eq!(controller.registry().query(b'a'), Some(0));
    assert_eq!(
        controller.registry().levels(b'a'),
        Some(Levels { up: true, down: false })
    );
}

#[test]
fn query_before_any_move_reports_zero() {
    let mut controller = Controller::new(7);
    assert_eq!(controller.process(b'A'), Outcome::Report([b'a', b'0', b'0', b'0']));
}

#[test]
fn query_reports_the_tracked_position() {
    let mut controller = Controller::new(7);
    assert_eq!(
        feed_all(&mut controller, b"b999"),
        vec![
            Outcome::Selected(b'b'),
            Outcome::Idle,
            Outcome::Idle,
            Outcome::Moved(b'b', Drive::Up)
        ]
    );
    assert_eq!(controller.process(b'B'), Outcome::Report(*b"b000"));
    assert!(controller.set_position(b'b', 999));
    assert_eq!(controller.process(b'B'), Outcome::Report([b'b', b'9', b'9', b'9']));
}

#[test]
fn repeated_queries_give_the_same_report() {
    let mut controller = Controller::new(7);
    assert!(controller.set_position(b'c', 48));
    for _ in 0..4 {
        assert_eq!(controller.process(b'C'), Outcome::Report(*b"c048"));
    }
    feed_all(&mut controller, b"c77");
    assert_eq!(controller.process(b'C'), Outcome::Report(*b"c048"));
    assert_eq!(controller.process(b'7'), Outcome::Moved(b'c', Drive::Up));
    assert_eq!(controller.process(b'C'), Outcome::Report(*b"c048"));
}

#[test]
fn stray_digit_does_not_reach_the_next_command() {
    let mut controller = Controller::new(7);
    assert_eq!(
        feed_all(&mut controller, b"a5b123"),
        vec![
            Outcome::Selected(b'a'),
            Outcome::Idle,
            Outcome::Selected(b'b'),
            Outcome::Idle,
            Outcome::Idle,
            Outcome::Moved(b'b', Drive::Up)
        ]
    );
    assert_eq!(controller.registry().target(b'b'), Some(123));
    assert_eq!(controller.registry().target(b'a'), Some(999));
}

#[test]
fn direction_follows_the_stored_position() {
    let mut controller = Controller::new(7);
    assert!(controller.set_position(b'd', 600));
    assert_eq!(feed_all(&mut controller, b"d599").pop(), Some(Outcome::Moved(b'd', Drive::Down)));
    assert!(controller.set_position(b'd', 599));
    assert_eq!(feed_all(&mut controller, b"d599").pop(), Some(Outcome::Moved(b'd', Drive::Stop)));
    assert_eq!(feed_all(&mut controller, b"d611").pop(), Some(Outcome::Moved(b'd', Drive::Up)));
    assert_eq!(
        controller.registry().levels(b'd'),
        Some(Levels { up: true, down: false })
    );
}

#[test]
fn bytes_outside_the_protocol_do_nothing() {
    let mut controller = Controller::new(7);
    for byte in [b'h', b'H', b'0', b' ', b'\n', 0u8, 255u8] {
        assert_eq!(controller.process(byte), Outcome::Idle);
    }
    assert_eq!(controller.decoder().selected(), None);
    for id in b'a'..=b'g' {
        assert_eq!(controller.registry().query(id), Some(0));
        assert_eq!(controller.registry().target(id), Some(999));
    }
}

#[test]
fn digits_without_a_selection_move_nothing() {
    let mut controller = Controller::new(7);
    assert_eq!(
        feed_all(&mut controller, b"123456"),
        vec![Outcome::Idle; 6]
    );
    for id in b'a'..=b'g' {
        assert_eq!(controller.registry().target(id), Some(999));
    }
}

#[test]
fn a_fourth_digit_moves_nothing() {
    let mut controller = Controller::new(7);
    assert_eq!(feed_all(&mut controller, b"a111").pop(), Some(Outcome::Moved(b'a', Drive::Up)));
    assert_eq!(feed_all(&mut controller, b"999"), vec![Outcome::Idle; 3]);
    assert_eq!(controller.registry().target(b'a'), Some(111));
}

#[test]
fn set_position_is_refused_out_of_range() {
    let mut controller = Controller::new(7);
    assert!(!controller.set_position(b'h', 1));
    assert!(!controller.set_position(b'a', 1000));
    assert_eq!(controller.process(b'A'), Outcome::Report(*b"a000"));
}

#[test]
fn eight_blinds_answer_to_eight_letters() {
    let mut controller = Controller::new(8);
    assert_eq!(controller.process(b'H'), Outcome::Report(*b"h000"));
    assert_eq!(feed_all(&mut controller, b"h345").pop(), Some(Outcome::Moved(b'h', Drive::Up)));
    assert_eq!(controller.process(b'I'), Outcome::Idle);
    assert_eq!(controller.process(b'i'), Outcome::Idle);
}

#[test]
fn moved_outcome_carries_the_levels_to_the_lines() {
    let mut controller = Controller::new(7);
    assert!(controller.set_position(b'g', 900));
    let outcome = feed_all(&mut controller, b"g111").pop();
    assert_eq!(outcome, Some(Outcome::Moved(b'g', Drive::Down)));
    let mut up = true;
    let mut down = false;
    for write in line_writes(Drive::Down) {
        match write.line {
            Line::Up => up = write.high,
            Line::Down => down = write.high,
        }
        assert!(!(up && down));
    }
    assert_eq!(
        controller.registry().levels(b'g'),
        Some(Levels { up, down })
    );
}
