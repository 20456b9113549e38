use thetawave::button::ButtonActionType;
use thetawave::character_selection::{
    all_players_ready, carousel_accepts_input, find_slot, gamepad_player_indices, join_ui_update,
    keyboard_player_index, menu_action_event, player_join_decision, player_join_rows, JoinInput,
    MouseClickMemory, PlayerReadyNode,
};
use thetawave::input::{button_released, Interaction, MenuAction};
use thetawave::player::{CharacterType, PlayerData, PlayerInput, PlayersResource};

fn join_input(button: Option<Interaction>, stored: Interaction) -> JoinInput {
    JoinInput {
        join_button: button,
        stored_interaction: stored,
        keyboard_join_released: false,
        gamepad_event: None,
        gamepad_join_released: false,
    }
}

#[test]
fn rows_split_players_two_per_row() {
    assert_eq!(player_join_rows(0), (vec![], vec![]));
    assert_eq!(player_join_rows(1), (vec![0], vec![]));
    assert_eq!(player_join_rows(2), (vec![0, 1], vec![]));
    assert_eq!(player_join_rows(3), (vec![0, 1], vec![2]));
    assert_eq!(player_join_rows(4), (vec![0, 1], vec![2, 3]));
}

#[test]
fn release_detection() {
    assert!(button_released(Interaction::Hovered, Interaction::Pressed));
    assert!(!button_released(Interaction::Pressed, Interaction::Pressed));
    assert!(!button_released(Interaction::Hovered, Interaction::Hovered));
    assert!(!button_released(Interaction::Idle, Interaction::Pressed));
}

#[test]
fn keyboard_joins_when_free() {
    let mut input = join_input(Some(Interaction::Idle), Interaction::Idle);
    input.keyboard_join_released = true;
    let d = player_join_decision(&input, &vec![], 4);
    assert_eq!(d.joins, vec![PlayerInput::Keyboard]);
    assert_eq!(d.stored_interaction, Interaction::Idle);

    let d = player_join_decision(&input, &vec![PlayerInput::Keyboard], 4);
    assert_eq!(d.joins, vec![]);
}

#[test]
fn gamepad_joins_with_its_id() {
    let mut input = join_input(Some(Interaction::Idle), Interaction::Idle);
    input.gamepad_event = Some(7);
    input.gamepad_join_released = true;
    let d = player_join_decision(&input, &vec![PlayerInput::Keyboard], 4);
    assert_eq!(d.joins, vec![PlayerInput::Gamepad(7)]);
    let d = player_join_decision(&input, &vec![PlayerInput::Gamepad(7)], 4);
    assert_eq!(d.joins, vec![]);
    // a release without a pending gamepad event does nothing
    input.gamepad_event = None;
    assert_eq!(player_join_decision(&input, &vec![], 4).joins, vec![]);
}

#[test]
fn mouse_click_joins_keyboard_and_updates_stored_interaction() {
    let input = join_input(Some(Interaction::Hovered), Interaction::Pressed);
    let d = player_join_decision(&input, &vec![], 2);
    assert_eq!(d.joins, vec![PlayerInput::Keyboard]);
    assert_eq!(d.stored_interaction, Interaction::Hovered);
}

#[test]
fn keyboard_and_mouse_can_both_join_in_one_frame() {
    let mut input = join_input(Some(Interaction::Hovered), Interaction::Pressed);
    input.keyboard_join_released = true;
    let d = player_join_decision(&input, &vec![], 4);
    assert_eq!(d.joins, vec![PlayerInput::Keyboard, PlayerInput::Keyboard]);
}

#[test]
fn no_join_when_full_or_without_button() {
    let mut input = join_input(Some(Interaction::Hovered), Interaction::Pressed);
    input.keyboard_join_released = true;
    let d = player_join_decision(&input, &vec![PlayerInput::Gamepad(0)], 1);
    assert_eq!(d.joins, vec![]);
    // the stored interaction is only updated while a slot is free
    assert_eq!(d.stored_interaction, Interaction::Pressed);

    let mut input = join_input(None, Interaction::Pressed);
    input.keyboard_join_released = true;
    let d = player_join_decision(&input, &vec![], 4);
    assert_eq!(d.joins, vec![]);
    assert_eq!(d.stored_interaction, Interaction::Pressed);
}

#[test]
fn joining_players_fill_slots() {
    let mut players = PlayersResource::new();
    let e0 = players.join(PlayerInput::Keyboard);
    let e1 = players.join(PlayerInput::Gamepad(2));
    assert_eq!(e0.player_idx, 0);
    assert_eq!(e1.player_idx, 1);
    assert_eq!(e1.input, PlayerInput::Gamepad(2));
    assert_eq!(players.get_used_inputs(), vec![PlayerInput::Keyboard, PlayerInput::Gamepad(2)]);
    assert_eq!(
        players.player_data[1],
        Some(PlayerData { character: CharacterType::Captain, input: PlayerInput::Gamepad(2) })
    );
}

#[test]
fn keyboard_and_gamepad_positions() {
    let used = vec![PlayerInput::Gamepad(1), PlayerInput::Keyboard, PlayerInput::Gamepad(4)];
    assert_eq!(keyboard_player_index(&used), Some(1));
    assert_eq!(keyboard_player_index(&vec![PlayerInput::Gamepad(1)]), None);
    assert_eq!(gamepad_player_indices(&used), vec![0, 2]);
}

#[test]
fn menu_actions_follow_the_player_device() {
    let gamepads = vec![0u8, 2];
    assert_eq!(
        menu_action_event(MenuAction::PlayerReadyGamepad, 2, &gamepads),
        Some(ButtonActionType::CharacterSelectReady(2))
    );
    assert_eq!(menu_action_event(MenuAction::PlayerReadyKeyboard, 2, &gamepads), None);
    assert_eq!(
        menu_action_event(MenuAction::NavigateLeftKeyboard, 1, &gamepads),
        Some(ButtonActionType::CharacterSelectLeft(1))
    );
    assert_eq!(
        menu_action_event(MenuAction::NavigateRightGamepad, 0, &gamepads),
        Some(ButtonActionType::CharacterSelectRight(0))
    );
    assert_eq!(menu_action_event(MenuAction::NavigateRightGamepad, 1, &gamepads), None);
    assert_eq!(menu_action_event(MenuAction::Confirm, 0, &gamepads), None);
}

#[test]
fn mouse_clicks_on_keyboard_player_buttons() {
    let mut memory = MouseClickMemory::new();
    let right = ButtonActionType::CharacterSelectRight(1);
    assert_eq!(memory.observe(1, right, Interaction::Pressed), None);
    assert_eq!(memory.right[1], Interaction::Pressed);
    assert_eq!(memory.observe(1, right, Interaction::Hovered), Some(right));
    assert_eq!(memory.observe(1, right, Interaction::Hovered), None);

    // buttons of other players are ignored and not stored
    let other = ButtonActionType::CharacterSelectLeft(2);
    assert_eq!(memory.observe(1, other, Interaction::Pressed), None);
    assert_eq!(memory.left[2], Interaction::Idle);

    let ready = ButtonActionType::CharacterSelectReady(1);
    memory.observe(1, ready, Interaction::Pressed);
    assert_eq!(memory.observe(1, ready, Interaction::Hovered), Some(ready));
    assert_eq!(memory.observe(1, ButtonActionType::QuitGame, Interaction::Hovered), None);
}

#[test]
fn ready_nodes() {
    let mut node = PlayerReadyNode::new(1);
    assert!(!node.apply_ready_event(ButtonActionType::CharacterSelectReady(0)));
    assert!(!node.is_ready);
    assert!(node.apply_ready_event(ButtonActionType::CharacterSelectReady(1)));
    assert!(node.is_ready);
    assert!(!node.apply_ready_event(ButtonActionType::CharacterSelectReady(1)));
    assert!(node.is_ready);
}

#[test]
fn all_players_ready_checks_existing_slots() {
    let mut players = PlayersResource::new();
    let nodes = vec![PlayerReadyNode { player_idx: 0, is_ready: true }, PlayerReadyNode::new(1)];
    assert!(!all_players_ready(&players, &nodes));
    players.join(PlayerInput::Keyboard);
    assert!(all_players_ready(&players, &nodes));
    players.join(PlayerInput::Gamepad(0));
    assert!(!all_players_ready(&players, &nodes));
    assert!(all_players_ready(&players, &vec![]));
}

#[test]
fn carousel_input_only_while_not_ready() {
    let nodes = vec![PlayerReadyNode { player_idx: 0, is_ready: true }, PlayerReadyNode::new(1)];
    assert!(!carousel_accepts_input(&nodes, 0));
    assert!(carousel_accepts_input(&nodes, 1));
    assert!(!carousel_accepts_input(&nodes, 2));
}

#[test]
fn join_button_moves_to_next_slot() {
    let slots = vec![1u8, 0, 2];
    assert_eq!(find_slot(&slots, 2), Some(2));
    assert_eq!(find_slot(&slots, 5), None);
    let u = join_ui_update(0, &slots);
    assert_eq!(u.joined_slot, Some(1));
    assert_eq!(u.next_slot, Some(0));
    let u = join_ui_update(2, &slots);
    assert_eq!(u.joined_slot, Some(2));
    assert_eq!(u.next_slot, None);
}
