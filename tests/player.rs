use dual_game::player::Player;
use dual_game::poison::PoisonType;

#[test]
fn test_player_creation() {
    let player = Player::new(String::from("Test"), 50, 50, 50);
    assert_eq!(player.name, "Test");
    assert_eq!(player.vitality, 50);
}

#[test]
fn test_poison_application_speed() {
    let mut player = Player::new(String::from("Test"), 50, 50, 50);
    player.apply_poison(PoisonType::Speed);
    assert_eq!(player.speed, 45);
}

#[test]
fn test_poison_application_strength() {
    let mut player = Player::new(String::from("Test"), 50, 50, 50);
    player.apply_poison(PoisonType::Strength);
    assert_eq!(player.strength, 45);
}

#[test]
fn poison_stops_at_zero_and_spares_other_stats() {
    let mut player = Player::new(String::from("Low"), 9, 3, 5);
    player.apply_poison(PoisonType::Speed);
    assert_eq!(player.speed, 0);
    assert_eq!(player.strength, 5);
    player.apply_poison(PoisonType::Strength);
    assert_eq!(player.strength, 0);
    assert_eq!(player.vitality, 9);
    assert_eq!(player.name, "Low");
}
