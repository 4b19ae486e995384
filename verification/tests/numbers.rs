use hangman::text::push_decimal;

fn decimal(n: u8) -> String {
    let mut text = String::new();
    push_decimal(&mut text, n);
    text
}

#[test]
fn single_digits() {
    assert_eq!(decimal(0), "0");
    assert_eq!(decimal(7), "7");
    assert_eq!(decimal(9), "9");
}

#[test]
fn two_and_three_digits() {
    assert_eq!(decimal(10), "10");
    assert_eq!(decimal(42), "42");
    assert_eq!(decimal(99), "99");
    assert_eq!(decimal(100), "100");
    assert_eq!(decimal(205), "205");
    assert_eq!(decimal(255), "255");
}

#[test]
fn every_number_as_the_standard_library_writes_it() {
    for n in 0..=255u8 {
        assert_eq!(decimal(n), format!("{}", n));
    }
}

#[test]
fn number_is_appended_to_what_is_there() {
    let mut text = String::from("You have ");
    push_decimal(&mut text, 5);
    assert_eq!(text, "You have 5");
}
