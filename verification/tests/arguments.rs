use bsreceiver::arguments::{Arguments, Numbers};
use bsreceiver::error::SessionError;
use bsreceiver::options::Options;

fn bare() -> Arguments {
    Arguments {
        url: None,
        channels: Vec::new(),
        pull: false,
        debug: false,
        messages: None,
        time: None,
        level: None,
        size: None,
    }
}

fn text(value: &str) -> Option<String> {
    Some(value.to_string())
}

fn no_numbers() -> Numbers {
    Numbers { time: None, messages: None, level: None, size: None }
}

#[test]
fn arguments_without_numbers_pass_as_they_are() {
    let arguments = Arguments {
        url: text("tcp://host:1"),
        channels: vec!["A".to_string()],
        pull: true,
        debug: true,
        ..bare()
    };
    assert_eq!(
        arguments.parse(),
        Ok(Options {
            url: text("tcp://host:1"),
            channels: vec!["A".to_string()],
            pull: true,
            debug: true,
            messages: None,
            time: None,
            level: None,
            size: None,
        })
    );
}

#[test]
fn numbers_are_read_from_their_texts() {
    let arguments = Arguments {
        messages: text("5"),
        time: text("-250"),
        level: text("4"),
        size: text("12"),
        ..bare()
    };
    assert_eq!(
        arguments.numbers(),
        Numbers { time: Some(-250), messages: Some(5), level: Some(4), size: Some(12) }
    );
    let options = arguments.parse().unwrap();
    assert_eq!(options.messages, Some(5));
    assert_eq!(options.time, Some(-250));
    assert_eq!(options.level, Some(4));
    assert_eq!(options.size, Some(12));
}

#[test]
fn the_largest_numbers_are_read() {
    let arguments = Arguments {
        messages: text("4294967295"),
        time: text("-9223372036854775808"),
        level: text("18446744073709551615"),
        size: text("0"),
        ..bare()
    };
    let options = arguments.parse().unwrap();
    assert_eq!(options.messages, Some(u32::MAX));
    assert_eq!(options.time, Some(i64::MIN));
    assert_eq!(options.level, Some(u64::MAX));
    assert_eq!(options.size, Some(0));
}

#[test]
fn a_time_that_is_no_number_is_refused() {
    let arguments = Arguments { time: text("soon"), ..bare() };
    assert_eq!(arguments.parse(), Err(SessionError::InvalidTime { text: "soon".to_string() }));
}

#[test]
fn a_number_of_messages_below_zero_is_refused() {
    let arguments = Arguments { messages: text("-1"), ..bare() };
    assert_eq!(arguments.parse(), Err(SessionError::InvalidMessages { text: "-1".to_string() }));
}

#[test]
fn a_number_of_messages_too_large_is_refused() {
    let arguments = Arguments { messages: text("4294967296"), ..bare() };
    assert_eq!(
        arguments.parse(),
        Err(SessionError::InvalidMessages { text: "4294967296".to_string() })
    );
}

#[test]
fn a_level_that_is_no_number_is_refused() {
    let arguments = Arguments { level: text("3.0"), ..bare() };
    assert_eq!(arguments.parse(), Err(SessionError::InvalidLevel { text: "3.0".to_string() }));
}

#[test]
fn an_empty_size_is_refused() {
    let arguments = Arguments { size: text(""), ..bare() };
    assert_eq!(arguments.parse(), Err(SessionError::InvalidSize { text: String::new() }));
}

#[test]
fn the_first_bad_number_is_named() {
    let arguments = Arguments {
        messages: text("many"),
        time: text("long"),
        level: text("high"),
        size: text("big"),
        ..bare()
    };
    assert_eq!(arguments.parse(), Err(SessionError::InvalidTime { text: "long".to_string() }));

    let arguments = Arguments {
        messages: text("many"),
        time: text("10"),
        level: text("high"),
        size: text("big"),
        ..bare()
    };
    assert_eq!(arguments.parse(), Err(SessionError::InvalidMessages { text: "many".to_string() }));

    let arguments = Arguments {
        messages: text("1"),
        time: text("10"),
        level: text("high"),
        size: text("big"),
        ..bare()
    };
    assert_eq!(arguments.parse(), Err(SessionError::InvalidLevel { text: "high".to_string() }));

    let arguments = Arguments {
        messages: text("1"),
        time: text("10"),
        level: text("2"),
        size: text("big"),
        ..bare()
    };
    assert_eq!(arguments.parse(), Err(SessionError::InvalidSize { text: "big".to_string() }));
}

#[test]
fn a_text_given_without_its_number_is_refused() {
    let arguments = Arguments { level: text("2"), ..bare() };
    assert_eq!(
        arguments.check(no_numbers()),
        Err(SessionError::InvalidLevel { text: "2".to_string() })
    );
}

#[test]
fn a_number_without_its_text_is_left_out() {
    let numbers = Numbers { time: Some(1), messages: Some(2), level: Some(3), size: Some(4) };
    let options = bare().check(numbers).unwrap();
    assert_eq!(options.time, None);
    assert_eq!(options.messages, None);
    assert_eq!(options.level, None);
    assert_eq!(options.size, None);
}

#[test]
fn checked_numbers_become_the_options() {
    let arguments = Arguments { time: text("7"), size: text("9"), debug: true, ..bare() };
    let numbers = Numbers { time: Some(7), messages: None, level: None, size: Some(9) };
    let options = arguments.check(numbers).unwrap();
    assert_eq!(options.time, Some(7));
    assert_eq!(options.size, Some(9));
    assert_eq!(options.messages, None);
    assert_eq!(options.level, None);
    assert!(options.debug);
}
