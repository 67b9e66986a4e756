use dual_game::input::{parse_choice, parse_replay, replay_answer};
use dual_game::poison::PoisonType;

#[test]
fn menu_lines() {
    assert_eq!(parse_choice("1"), Some(PoisonType::Speed));
    assert_eq!(parse_choice("2\n"), Some(PoisonType::Strength));
    assert_eq!(parse_choice("  1 \r\n"), Some(PoisonType::Speed));
    assert_eq!(parse_choice("02\n"), Some(PoisonType::Strength));
    assert_eq!(parse_choice("3\n"), None);
    assert_eq!(parse_choice("speed\n"), None);
    assert_eq!(parse_choice("\n"), None);
}

#[test]
fn replay_lines() {
    assert_eq!(parse_replay("Y\n"), Some(true));
    assert_eq!(parse_replay(" y \n"), Some(true));
    assert_eq!(parse_replay("n\n"), Some(false));
    assert_eq!(parse_replay("yes\n"), None);
    assert_eq!(parse_replay("\n"), None);
}

#[test]
fn replay_answers() {
    assert_eq!(replay_answer("Y"), Some(true));
    assert_eq!(replay_answer("N"), Some(false));
    assert_eq!(replay_answer("y"), None);
    assert_eq!(replay_answer("YY"), None);
    assert_eq!(replay_answer(""), None);
}
