use tictactoe::action::{classify, get_action, parse_number, Action};

#[test]
fn keywords_in_any_case() {
    assert_eq!(get_action("quit"), Action::Quit);
    assert_eq!(get_action("QUIT"), Action::Quit);
    assert_eq!(get_action("Yes"), Action::Yes);
    assert_eq!(get_action("yEs"), Action::Yes);
    assert_eq!(get_action("no"), Action::No);
    assert_eq!(get_action("NO"), Action::No);
}

#[test]
fn numbers_become_placements() {
    assert_eq!(get_action("4"), Action::Place(4));
    assert_eq!(get_action("0"), Action::Place(0));
    assert_eq!(get_action("-3"), Action::Place(-3));
    assert_eq!(get_action("+7"), Action::Place(7));
    assert_eq!(get_action("12"), Action::Place(12));
    assert_eq!(get_action("2147483647"), Action::Place(i32::MAX));
    assert_eq!(get_action("-2147483648"), Action::Place(i32::MIN));
}

#[test]
fn other_text_is_unknown() {
    assert_eq!(get_action(""), Action::Unknown);
    assert_eq!(get_action("abc"), Action::Unknown);
    assert_eq!(get_action("quits"), Action::Unknown);
    assert_eq!(get_action("-"), Action::Unknown);
    assert_eq!(get_action("+"), Action::Unknown);
    assert_eq!(get_action("4a"), Action::Unknown);
    assert_eq!(get_action(" 4"), Action::Unknown);
    assert_eq!(get_action("2147483648"), Action::Unknown);
}

#[test]
fn classify_uses_the_given_lower_case_form() {
    assert_eq!(classify("quit", "QuIt"), Action::Quit);
    assert_eq!(classify("yes", "YES"), Action::Yes);
    assert_eq!(classify("no", "No"), Action::No);
    assert_eq!(classify("5", "5"), Action::Place(5));
    assert_eq!(classify("x", "x"), Action::Unknown);
}

#[test]
fn parse_number_reads_decimal() {
    assert_eq!(parse_number(&String::from("42")), Ok(42));
    assert_eq!(parse_number(&String::from("-8")), Ok(-8));
}

#[test]
fn parse_number_error_quotes_the_line() {
    assert_eq!(
        parse_number(&String::from("four")),
        Err(String::from("ERROR: Could not parse i32 from `four`"))
    );
    assert_eq!(
        parse_number(&String::from("")),
        Err(String::from("ERROR: Could not parse i32 from ``"))
    );
}
