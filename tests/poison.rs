use dual_game::player::Player;
use dual_game::poison::{apply_poison, PoisonType};

#[test]
fn test_apply_poison_speed() {
    let mut player = Player::new(String::from("Test"), 50, 50, 50);
    // Appliquer -5 speed
    assert_eq!(player.speed, 50);
    apply_poison(&mut player, PoisonType::Speed).unwrap();
    assert_eq!(player.speed, 45);
}

#[test]
fn test_apply_poison_strength() {
    let mut player = Player::new(String::from("Test"), 50, 50, 50);
    // Appliquer -5 strength
    assert_eq!(player.strength, 50);
    apply_poison(&mut player, PoisonType::Strength).unwrap();
    assert_eq!(player.strength, 45);
}

#[test]
fn menu_choice_picks_poison() {
    assert_eq!(PoisonType::from_choice(1), Some(PoisonType::Speed));
    assert_eq!(PoisonType::from_choice(2), Some(PoisonType::Strength));
    assert_eq!(PoisonType::from_choice(0), None);
    assert_eq!(PoisonType::from_choice(3), None);
}
