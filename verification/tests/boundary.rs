use clockcheck::common;
use clockcheck::fsm;
use clockcheck::fsm::Action;

/// Both deciders must give `expected` on `input`; checking them side by side
/// also exercises the proven equivalence on concrete values.
fn check(input: &str, expected: bool) {
    assert_eq!(
        common::valid_time(input),
        expected,
        "common verdict on {:?}",
        input
    );
    assert_eq!(fsm::valid_time(input), expected, "fsm verdict on {:?}", input);
}

#[test]
fn boundary_values() {
    check("0:00", true);
    check("23:59", true);
    check("24:00", false);
    check("23:60", false);
    check("9:5", false);
    check("09:05", true);
    check("", false);
    check(":", false);
    check("12:3a", false);
    check("1:234", false);
}

#[test]
fn hour_forms() {
    check("20:00", true);
    check("23:00", true);
    check("24:59", false);
    check("29:00", false);
    check("30:00", false);
    check("45:00", false);
    check("99:59", false);
    check("3:00", true);
    check("9:59", true);
    check("00:00", true);
    check("05:09", true);
    check("19:59", true);
}

#[test]
fn minute_forms() {
    check("1:00", true);
    check("1:59", true);
    check("1:6", false);
    check("1:60", false);
    check("1:99", false);
    check("1:0", false);
    check("12:345", false);
    check("12:", false);
}

#[test]
fn separators_and_garbage() {
    check("12", false);
    check("1234", false);
    check("12:34:56", false);
    check("1::3", false);
    check("::00", false);
    check(" 1:23", false);
    check("1:23 ", false);
    check("a1:23", false);
    check("12:3\u{0}", false);
    check("\u{0}", false);
    check("١٢:34", false);
    check("12:¾4", false);
}

#[test]
fn repeated_calls_agree() {
    let inputs = ["7:45", "23:59", "24:00", "blah", ""];
    for input in inputs {
        let first_common = common::valid_time(input);
        let first_fsm = fsm::valid_time(input);
        for _ in 0..3 {
            assert_eq!(common::valid_time(input), first_common);
            assert_eq!(fsm::valid_time(input), first_fsm);
        }
    }
}

#[test]
fn classification() {
    assert!(Action::from(':') == Action::Colon);
    assert!(Action::from('0') == Action::Digit0);
    assert!(Action::from('5') == Action::Digit5);
    assert!(Action::from('9') == Action::Digit9);
    assert!(Action::from('a') == Action::Others);
    assert!(Action::from(' ') == Action::Others);
    // the end-of-input symbol is synthetic: no character maps to it
    assert!(Action::from('\u{0}') == Action::Others);
}
