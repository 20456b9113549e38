use thetawave::audio::SoundEffectType;
use thetawave::button::ButtonActionType;
use thetawave::input::{Interaction, MenuAction};
use thetawave::main_menu::{
    arrow_input, bool_to_plus_minus_1, button_texture_index, first_button_with,
    main_menu_button_order, main_menu_position, wrapped_modulo_add, ButtonSelectionCause,
    MainMenuInput, MainMenuUIState,
};

fn idle() -> MainMenuInput {
    MainMenuInput { hovered: None, arrow: None, confirm_released: false, first_pressed: None }
}

fn arrow(up: bool) -> MainMenuInput {
    MainMenuInput { hovered: None, arrow: Some(up), confirm_released: false, first_pressed: None }
}

#[test]
fn wrapped_modulo_add_wraps_within_menu() {
    assert_eq!(wrapped_modulo_add(0, -1, 4), 3);
    assert_eq!(wrapped_modulo_add(3, 1, 4), 0);
    assert_eq!(wrapped_modulo_add(2, 1, 4), 3);
    assert_eq!(wrapped_modulo_add(1, -1, 4), 0);
}

#[test]
fn wrapped_modulo_add_negative_and_large_inputs() {
    assert_eq!(wrapped_modulo_add(-5, 0, 4), 3);
    assert_eq!(wrapped_modulo_add(i16::MIN, -128, 7), ((-32768i64 - 128).rem_euclid(7)) as i16);
    assert_eq!(wrapped_modulo_add(30000, 100, 100000), 30100);
    assert_eq!(wrapped_modulo_add(32766, 100, 100000), 99);
    // a modulo too large for an isize is read as a negative divisor
    assert_eq!(wrapped_modulo_add(5, 1, usize::MAX), 0);
    assert_eq!(wrapped_modulo_add(5, 1, usize::MAX - 9), 6);
}

#[test]
fn bool_to_plus_minus_1_maps_up_to_minus_one() {
    assert_eq!(bool_to_plus_minus_1(true), -1);
    assert_eq!(bool_to_plus_minus_1(false), 1);
}

#[test]
fn main_menu_order_and_positions() {
    let order = main_menu_button_order();
    assert_eq!(
        order,
        [
            ButtonActionType::EnterCharacterSelection,
            ButtonActionType::EnterOptions,
            ButtonActionType::EnterCompendium,
            ButtonActionType::QuitGame
        ]
    );
    assert_eq!(main_menu_position(ButtonActionType::QuitGame), Some(3));
    assert_eq!(main_menu_position(ButtonActionType::EnterOptions), Some(1));
    assert_eq!(main_menu_position(ButtonActionType::CharacterSelectJoin), None);
}

#[test]
fn arrows_select_and_wrap() {
    let mut state = MainMenuUIState::new();
    assert_eq!(state.selection(), None);

    let f = state.step(&arrow(false));
    assert_eq!(state.selection(), Some((0, ButtonSelectionCause::UpDownInputs)));
    assert_eq!(f.selection_sound, Some(SoundEffectType::ButtonSelect));
    assert_eq!(f.highlighted, Some(ButtonActionType::EnterCharacterSelection));
    assert_eq!(f.activated, None);

    let f = state.step(&arrow(false));
    assert_eq!(state.selection(), Some((1, ButtonSelectionCause::UpDownInputs)));
    assert_eq!(f.highlighted, Some(ButtonActionType::EnterOptions));

    state.step(&arrow(true));
    let f = state.step(&arrow(true));
    assert_eq!(state.selection(), Some((3, ButtonSelectionCause::UpDownInputs)));
    assert_eq!(f.highlighted, Some(ButtonActionType::QuitGame));
    assert_eq!(f.selection_sound, Some(SoundEffectType::ButtonSelect));

    // no input keeps an arrow selection, with no sound
    let f = state.step(&idle());
    assert_eq!(state.selection(), Some((3, ButtonSelectionCause::UpDownInputs)));
    assert_eq!(f.selection_sound, None);
}

#[test]
fn first_arrow_press_selects_top_button_whatever_direction() {
    let mut state = MainMenuUIState::new();
    state.step(&arrow(true));
    assert_eq!(state.selection(), Some((0, ButtonSelectionCause::UpDownInputs)));
}

#[test]
fn four_arrow_moves_return_to_start() {
    let mut state = MainMenuUIState::new();
    state.step(&arrow(false));
    state.step(&arrow(false));
    let start = state.selection();
    for _ in 0..4 {
        state.step(&arrow(false));
    }
    assert_eq!(state.selection(), start);
    state.step(&arrow(true));
    state.step(&arrow(false));
    assert_eq!(state.selection(), start);
}

#[test]
fn hover_selects_and_unhover_releases() {
    let mut state = MainMenuUIState::new();
    let hover = MainMenuInput {
        hovered: Some(ButtonActionType::EnterCompendium),
        arrow: Some(false),
        confirm_released: false,
        first_pressed: None,
    };
    let f = state.step(&hover);
    assert_eq!(state.selection(), Some((2, ButtonSelectionCause::MouseOver)));
    assert_eq!(f.highlighted, Some(ButtonActionType::EnterCompendium));
    assert_eq!(f.selection_sound, Some(SoundEffectType::ButtonSelect));

    // hovering the same button again plays nothing
    let f = state.step(&hover);
    assert_eq!(f.selection_sound, None);

    let f = state.step(&idle());
    assert_eq!(state.selection(), None);
    assert_eq!(f.selection_sound, Some(SoundEffectType::ButtonRelease));
    assert_eq!(f.highlighted, None);
}

#[test]
fn hovering_a_non_menu_button_clears_selection() {
    let mut state = MainMenuUIState::new();
    state.step(&arrow(false));
    let f = state.step(&MainMenuInput {
        hovered: Some(ButtonActionType::CharacterSelectJoin),
        arrow: None,
        confirm_released: false,
        first_pressed: None,
    });
    assert_eq!(state.selection(), None);
    assert_eq!(f.selection_sound, Some(SoundEffectType::ButtonRelease));
}

#[test]
fn arrows_move_from_a_hovered_selection() {
    let mut state = MainMenuUIState::new();
    state.step(&MainMenuInput {
        hovered: Some(ButtonActionType::QuitGame),
        arrow: None,
        confirm_released: false,
        first_pressed: None,
    });
    state.step(&arrow(false));
    assert_eq!(state.selection(), Some((0, ButtonSelectionCause::UpDownInputs)));
}

#[test]
fn confirm_activates_the_selected_button() {
    let mut state = MainMenuUIState::new();
    state.step(&arrow(false));
    state.step(&arrow(false));
    let f = state.step(&MainMenuInput {
        hovered: None,
        arrow: None,
        confirm_released: true,
        first_pressed: None,
    });
    assert_eq!(f.activated, Some(ButtonActionType::EnterOptions));
}

#[test]
fn confirm_without_selection_does_nothing() {
    let mut state = MainMenuUIState::new();
    let f = state.step(&MainMenuInput {
        hovered: None,
        arrow: None,
        confirm_released: true,
        first_pressed: None,
    });
    assert_eq!(f.activated, None);
}

#[test]
fn confirm_uses_the_selection_before_the_frame() {
    let mut state = MainMenuUIState::new();
    state.step(&arrow(false));
    let f = state.step(&MainMenuInput {
        hovered: None,
        arrow: Some(false),
        confirm_released: true,
        first_pressed: None,
    });
    assert_eq!(f.activated, Some(ButtonActionType::EnterCharacterSelection));
    assert_eq!(f.highlighted, Some(ButtonActionType::EnterOptions));
}

#[test]
fn click_wins_over_confirm() {
    let mut state = MainMenuUIState::new();
    state.step(&arrow(false));
    let f = state.step(&MainMenuInput {
        hovered: Some(ButtonActionType::QuitGame),
        arrow: None,
        confirm_released: true,
        first_pressed: Some(ButtonActionType::QuitGame),
    });
    assert_eq!(f.activated, Some(ButtonActionType::QuitGame));
}

#[test]
fn arrow_input_takes_first_vertical_action() {
    assert_eq!(arrow_input(&vec![]), None);
    assert_eq!(arrow_input(&vec![MenuAction::Confirm, MenuAction::NavigateDownGamepad]), Some(false));
    assert_eq!(
        arrow_input(&vec![MenuAction::NavigateUpKeyboard, MenuAction::NavigateDownKeyboard]),
        Some(true)
    );
    assert_eq!(arrow_input(&vec![MenuAction::NavigateLeftKeyboard, MenuAction::Back]), None);
}

#[test]
fn first_button_with_finds_first_match() {
    let buttons = vec![
        (ButtonActionType::EnterOptions, Interaction::Idle),
        (ButtonActionType::QuitGame, Interaction::Hovered),
        (ButtonActionType::EnterCompendium, Interaction::Hovered),
    ];
    assert_eq!(first_button_with(&buttons, Interaction::Hovered), Some(ButtonActionType::QuitGame));
    assert_eq!(first_button_with(&buttons, Interaction::Pressed), None);
}

#[test]
fn texture_index_marks_highlighted_button() {
    assert_eq!(button_texture_index(Some(ButtonActionType::QuitGame), ButtonActionType::QuitGame), 1);
    assert_eq!(button_texture_index(Some(ButtonActionType::QuitGame), ButtonActionType::EnterOptions), 0);
    assert_eq!(button_texture_index(None, ButtonActionType::EnterOptions), 0);
}
