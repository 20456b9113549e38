use thetawave::button::ButtonActionType;
use thetawave::carousel::CharacterCarousel;
use thetawave::player::CharacterType::{Captain, Juggernaut};
use thetawave::player::{CharacterType, PlayerInput, PlayersResource};

#[test]
fn new_carousel_holds_every_character() {
    let c = CharacterCarousel::new(3);
    assert_eq!(c.player_idx, 3);
    assert_eq!(c.characters.iter().copied().collect::<Vec<_>>(), CharacterType::all());
    assert_eq!(c.get_visible_characters(), Some([Juggernaut, Captain, Juggernaut]));
}

#[test]
fn rotations_undo_each_other() {
    let mut c = CharacterCarousel::new(0);
    let start: Vec<_> = c.characters.iter().copied().collect();
    c.rotate_right();
    assert_eq!(c.characters.iter().copied().collect::<Vec<_>>(), vec![Juggernaut, Captain]);
    c.rotate_left();
    assert_eq!(c.characters.iter().copied().collect::<Vec<_>>(), start);
    c.rotate_left();
    c.rotate_right();
    assert_eq!(c.characters.iter().copied().collect::<Vec<_>>(), start);
}

#[test]
fn full_turn_returns_to_start() {
    let mut c = CharacterCarousel::new(0);
    c.characters.push_back(Captain);
    let start: Vec<_> = c.characters.iter().copied().collect();
    for _ in 0..start.len() {
        c.rotate_right();
    }
    assert_eq!(c.characters.iter().copied().collect::<Vec<_>>(), start);
}

#[test]
fn visible_characters_need_two() {
    let mut c = CharacterCarousel::new(0);
    c.characters.clear();
    assert_eq!(c.get_visible_characters(), None);
    c.rotate_right();
    c.rotate_left();
    assert!(c.characters.is_empty());
    c.characters.push_back(Captain);
    assert_eq!(c.get_visible_characters(), None);
    c.characters.push_back(Juggernaut);
    c.characters.push_back(Captain);
    // left is the last, middle the first, right the second
    c.characters[2] = Juggernaut;
    c.characters[1] = Captain;
    assert_eq!(c.get_visible_characters(), Some([Juggernaut, Captain, Captain]));
}

#[test]
fn buttons_rotate_only_own_carousel() {
    let mut c = CharacterCarousel::new(1);
    c.characters.push_back(Captain);
    // ring: Captain, Juggernaut, Captain
    assert_eq!(c.handle_button(ButtonActionType::CharacterSelectRight(0)), None);
    assert_eq!(c.handle_button(ButtonActionType::QuitGame), None);
    let v = c.handle_button(ButtonActionType::CharacterSelectRight(1));
    // ring: Captain, Captain, Juggernaut
    assert_eq!(v, Some([Juggernaut, Captain, Captain]));
    let v = c.handle_button(ButtonActionType::CharacterSelectLeft(1));
    assert_eq!(v, Some([Captain, Captain, Juggernaut]));
}

#[test]
fn pick_is_written_to_the_player_slot() {
    let mut players = PlayersResource::new();
    players.join(PlayerInput::Keyboard);
    let mut c = CharacterCarousel::new(0);
    let v = c.handle_button(ButtonActionType::CharacterSelectLeft(0)).unwrap();
    players.set_character(0, v[1]);
    assert_eq!(players.player_data[0].unwrap().character, Juggernaut);
    // absent slots are left alone
    players.set_character(5, Captain);
    assert_eq!(players.player_data.len(), 1);
}

#[test]
fn rotations_keep_the_same_characters() {
    let mut c = CharacterCarousel::new(0);
    c.characters.push_back(Captain);
    let count = |c: &CharacterCarousel, t: CharacterType| c.characters.iter().filter(|x| **x == t).count();
    c.rotate_left();
    assert_eq!((count(&c, Captain), count(&c, Juggernaut), c.characters.len()), (2, 1, 3));
    c.rotate_right();
    c.rotate_right();
    assert_eq!((count(&c, Captain), count(&c, Juggernaut), c.characters.len()), (2, 1, 3));
}
