use std::collections::HashMap;
use thetawave::stats::{pprint_mob_kills_from_data, pprint_mob_kils_from_data};

#[test]
fn kill_lines_are_joined_with_newlines() {
    let data = vec![("Drone".to_string(), 12usize), ("Shiver".to_string(), 0), ("Tutorial Drone".to_string(), 1000)];
    assert_eq!(pprint_mob_kils_from_data(&data), "Drone: 12\nShiver: 0\nTutorial Drone: 1000");
    assert_eq!(pprint_mob_kils_from_data(&vec![]), "");
    assert_eq!(pprint_mob_kils_from_data(&vec![("X".to_string(), usize::MAX)]), format!("X: {}", usize::MAX));
}

#[test]
fn kills_of_a_user() {
    let mut data: HashMap<isize, Vec<(String, usize)>> = HashMap::new();
    assert_eq!(pprint_mob_kills_from_data(&data, 0), "No mobs killed");
    data.insert(0, vec![("Hauler".to_string(), 7)]);
    data.insert(3, vec![("Drone".to_string(), 1)]);
    assert_eq!(pprint_mob_kills_from_data(&data, 0), "Hauler: 7");
    assert_eq!(pprint_mob_kills_from_data(&data, 3), "Drone: 1");
    assert_eq!(pprint_mob_kills_from_data(&data, 1), "No mobs killed");
}
