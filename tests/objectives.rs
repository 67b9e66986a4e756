use dual_game::objectives::Objectives;

#[test]
fn test_generate_objectives() {
    let objs = Objectives::generate(5);
    assert_eq!(objs.len(), 5);
    for obj in objs {
        assert!(obj <= 100);
    }
}

#[test]
fn test_generate_map() {
    let map = Objectives::generate_map(5);
    // Le nombre d'éléments peut être inférieur à 5 si des clés se chevauchent.
    assert!(map.len() <= 5);
}

#[test]
fn no_objectives_for_zero() {
    assert!(Objectives::generate(0).is_empty());
    assert!(Objectives::generate_map(0).is_empty());
}

#[test]
fn map_keys_are_distinct_letters() {
    let map = Objectives::generate_map(200);
    assert!(!map.is_empty());
    assert!(map.len() <= 26);
    for (i, (key, value)) in map.iter().enumerate() {
        assert!(key.is_ascii_lowercase());
        assert!(*value <= 100);
        for (other, _) in map.iter().skip(i + 1) {
            assert_ne!(key, other);
        }
    }
}
