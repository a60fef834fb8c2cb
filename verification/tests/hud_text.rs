use breakout::hud::{labelled_number, lives_text, score_text};

#[test]
fn score_and_lives_lines() {
    assert_eq!(score_text(0), "Score: 0");
    assert_eq!(score_text(120), "Score: 120");
    assert_eq!(score_text(1_234_567), "Score: 1234567");
    assert_eq!(lives_text(3), "Lives: 3");
    assert_eq!(lives_text(10), "Lives: 10");
    assert_eq!(lives_text(-1), "Lives: -1");
}

#[test]
fn extreme_numbers() {
    assert_eq!(labelled_number("", i32::MAX), "2147483647");
    assert_eq!(labelled_number("", i32::MIN), "-2147483648");
    assert_eq!(labelled_number("n=", 9), "n=9");
}
