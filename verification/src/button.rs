//! Menu buttons: what each button does, how it is labelled, which image and
//! layout it uses, and what pressing it changes.
use vstd::prelude::*;

use crate::player::PlayerInput;

verus! {

/// The action attached to a menu button. The `u8` is the index of the player
/// that the character-selection button belongs to.
#[derive(Clone, Copy, Debug, PartialEq, Eq, Structural)]
pub enum ButtonActionType {
    CharacterSelectReady(u8),
    CharacterSelectJoin,
    CharacterSelectRight(u8),
    CharacterSelectLeft(u8),
    EnterCharacterSelection,
    EnterOptions,
    EnterCompendium,
    QuitGame,
}

/// Marks a button entity with its action.
#[derive(Clone, Copy, Debug, PartialEq, Eq, Structural)]
pub struct ButtonActionComponent {
    pub action: ButtonActionType,
}

/// Sent when a button is clicked or confirmed.
#[derive(Clone, Copy, Debug, PartialEq, Eq, Structural)]
pub struct ButtonActionEvent {
    pub action: ButtonActionType,
}

impl From<ButtonActionType> for ButtonActionComponent {
    fn from(value: ButtonActionType) -> (r: Self) {
        ButtonActionComponent { action: value }
    }
}

impl vstd::std_specs::convert::FromSpecImpl<ButtonActionType> for ButtonActionComponent {
    open spec fn obeys_from_spec() -> bool {
        true
    }

    open spec fn from_spec(v: ButtonActionType) -> Self {
        ButtonActionComponent { action: v }
    }
}

impl From<ButtonActionType> for ButtonActionEvent {
    fn from(value: ButtonActionType) -> (r: Self) {
        ButtonActionEvent { action: value }
    }
}

impl vstd::std_specs::convert::FromSpecImpl<ButtonActionType> for ButtonActionEvent {
    open spec fn obeys_from_spec() -> bool {
        true
    }

    open spec fn from_spec(v: ButtonActionType) -> Self {
        ButtonActionEvent { action: v }
    }
}

/// The label shown on a button, if it has one.
pub open spec fn button_label(action: ButtonActionType) -> Option<Seq<char>> {
    match action {
        ButtonActionType::EnterCharacterSelection => Some("Start Game"@),
        ButtonActionType::EnterOptions => Some("Options"@),
        ButtonActionType::EnterCompendium => Some("Compendium"@),
        ButtonActionType::QuitGame => Some("Exit Game"@),
        ButtonActionType::CharacterSelectLeft(_) => None,
        ButtonActionType::CharacterSelectRight(_) => None,
        ButtonActionType::CharacterSelectJoin => Some("Join"@),
        ButtonActionType::CharacterSelectReady(_) => Some("Ready"@),
    }
}

/// An input prompt image shown inside a button.
#[derive(Clone, Copy, Debug, PartialEq, Eq, Structural)]
pub enum InputPrompt {
    /// The gamepad's A button.
    GamepadA,
    /// The keyboard's return key.
    KeyboardReturn,
}

/// The input prompts shown on a button, given the input device of the player
/// that the button belongs to.
pub open spec fn input_prompts(action: ButtonActionType, player_input: Option<PlayerInput>) -> Option<
    Seq<InputPrompt>,
> {
    match action {
        ButtonActionType::CharacterSelectJoin => Some(
            seq![InputPrompt::GamepadA, InputPrompt::KeyboardReturn],
        ),
        ButtonActionType::CharacterSelectReady(_) => match player_input {
            Some(PlayerInput::Keyboard) => Some(seq![InputPrompt::KeyboardReturn]),
            Some(PlayerInput::Gamepad(_)) => Some(seq![InputPrompt::GamepadA]),
            None => None,
        },
        _ => None,
    }
}

/// The layout of a button within its parent.
#[derive(Clone, Copy, Debug, PartialEq, Eq, Structural)]
pub enum ExternalStyle {
    /// A main menu button: a quarter of the width, fixed aspect ratio.
    MainMenu,
    /// The join button: full width, wide aspect ratio.
    Join,
    /// An arrow of the character carousel: a tenth of the height.
    Arrow,
    /// The ready button: most of the width.
    Ready,
}

/// The layout of the contents (text, input prompts) inside a button.
#[derive(Clone, Copy, Debug, PartialEq, Eq, Structural)]
pub enum InternalStyle {
    /// Centered, laid out top to bottom.
    CenteredColumn,
    /// Only the top padding of the image.
    Padded,
    /// Centered, laid out left to right.
    CenteredRow,
}

/// The sprite sheet a button is drawn with.
#[derive(Clone, Copy, Debug, PartialEq, Eq, Structural)]
pub enum ButtonAsset {
    MenuButton,
    ArrowRight,
    ArrowLeft,
    LargeMenuButton,
}

/// What pressing a button changes in the application.
#[derive(Clone, Copy, Debug, PartialEq, Eq, Structural)]
pub enum ButtonStateChange {
    /// Move to the character selection screen.
    EnterCharacterSelection,
    /// Only note that the options menu was asked for.
    LogEnterOptions,
    /// Only note that the compendium was asked for.
    LogEnterCompendium,
    /// Quit the application successfully.
    ExitApp,
    /// Nothing: the character selection screen handles its own buttons.
    Nothing,
}

/// Whether an action belongs to one of the main menu's buttons.
pub open spec fn is_main_menu_action(action: ButtonActionType) -> bool {
    match action {
        ButtonActionType::EnterCharacterSelection | ButtonActionType::EnterOptions
        | ButtonActionType::EnterCompendium | ButtonActionType::QuitGame => true,
        _ => false,
    }
}

impl ButtonActionComponent {
    /// The label that will show on the button representing this action.
    pub fn text(&self) -> (r: Option<&'static str>)
        ensures
            r.is_some() == button_label(self.action).is_some(),
            r matches Some(s) ==> s@ == button_label(self.action)->Some_0,
    {
        match self.action {
            ButtonActionType::EnterCharacterSelection => Some("Start Game"),
            ButtonActionType::EnterOptions => Some("Options"),
            ButtonActionType::EnterCompendium => Some("Compendium"),
            ButtonActionType::QuitGame => Some("Exit Game"),
            ButtonActionType::CharacterSelectLeft(_) => None,
            ButtonActionType::CharacterSelectRight(_) => None,
            ButtonActionType::CharacterSelectJoin => Some("Join"),
            ButtonActionType::CharacterSelectReady(_) => Some("Ready"),
        }
    }

    /// The input prompt images to show on the button; `player_input` is the
    /// device of the player that the button belongs to, where known.
    pub fn get_input_images(&self, player_input: Option<PlayerInput>) -> (r: Option<
        Vec<InputPrompt>,
    >)
        ensures
            r.is_some() == input_prompts(self.action, player_input).is_some(),
            r matches Some(v) ==> v@ == input_prompts(self.action, player_input)->Some_0,
    {
        match self.action {
            ButtonActionType::CharacterSelectJoin => {
                let mut v: Vec<InputPrompt> = Vec::new();
                v.push(InputPrompt::GamepadA);
                v.push(InputPrompt::KeyboardReturn);
                Some(v)
            },
            ButtonActionType::CharacterSelectReady(_) => match player_input {
                Some(input) => {
                    let mut v: Vec<InputPrompt> = Vec::new();
                    match input {
                        PlayerInput::Keyboard => v.push(InputPrompt::KeyboardReturn),
                        PlayerInput::Gamepad(_) => v.push(InputPrompt::GamepadA),
                    }
                    Some(v)
                },
                None => None,
            },
            _ => None,
        }
    }

    /// The layout of the button within its parent.
    pub fn get_external_style(&self) -> (r: ExternalStyle)
        ensures
            r == (match self.action {
                ButtonActionType::CharacterSelectJoin => ExternalStyle::Join,
                ButtonActionType::CharacterSelectLeft(_) => ExternalStyle::Arrow,
                ButtonActionType::CharacterSelectRight(_) => ExternalStyle::Arrow,
                ButtonActionType::CharacterSelectReady(_) => ExternalStyle::Ready,
                _ => ExternalStyle::MainMenu,
            }),
            is_main_menu_action(self.action) <==> r == ExternalStyle::MainMenu,
    {
        match self.action {
            ButtonActionType::EnterCharacterSelection | ButtonActionType::EnterOptions
            | ButtonActionType::EnterCompendium | ButtonActionType::QuitGame => {
                ExternalStyle::MainMenu
            },
            ButtonActionType::CharacterSelectJoin => ExternalStyle::Join,
            ButtonActionType::CharacterSelectLeft(_) | ButtonActionType::CharacterSelectRight(
                _,
            ) => ExternalStyle::Arrow,
            ButtonActionType::CharacterSelectReady(_) => ExternalStyle::Ready,
        }
    }

    /// The layout of the contents inside the button.
    pub fn get_internal_style(&self) -> (r: InternalStyle)
        ensures
            r == (match self.action {
                ButtonActionType::CharacterSelectLeft(_) => InternalStyle::Padded,
                ButtonActionType::CharacterSelectRight(_) => InternalStyle::Padded,
                ButtonActionType::CharacterSelectReady(_) => InternalStyle::CenteredRow,
                _ => InternalStyle::CenteredColumn,
            }),
    {
        match self.action {
            ButtonActionType::EnterCharacterSelection | ButtonActionType::EnterOptions
            | ButtonActionType::EnterCompendium | ButtonActionType::QuitGame
            | ButtonActionType::CharacterSelectJoin => InternalStyle::CenteredColumn,
            ButtonActionType::CharacterSelectLeft(_) | ButtonActionType::CharacterSelectRight(
                _,
            ) => InternalStyle::Padded,
            ButtonActionType::CharacterSelectReady(_) => InternalStyle::CenteredRow,
        }
    }

    /// The sprite sheet the button is drawn with.
    pub fn asset(&self) -> (r: ButtonAsset)
        ensures
            r == (match self.action {
                ButtonActionType::CharacterSelectRight(_) => ButtonAsset::ArrowRight,
                ButtonActionType::CharacterSelectLeft(_) => ButtonAsset::ArrowLeft,
                ButtonActionType::CharacterSelectJoin => ButtonAsset::LargeMenuButton,
                _ => ButtonAsset::MenuButton,
            }),
    {
        match self.action {
            ButtonActionType::EnterCharacterSelection | ButtonActionType::EnterOptions
            | ButtonActionType::EnterCompendium | ButtonActionType::QuitGame => {
                ButtonAsset::MenuButton
            },
            ButtonActionType::CharacterSelectRight(_) => ButtonAsset::ArrowRight,
            ButtonActionType::CharacterSelectLeft(_) => ButtonAsset::ArrowLeft,
            ButtonActionType::CharacterSelectJoin => ButtonAsset::LargeMenuButton,
            ButtonActionType::CharacterSelectReady(_) => ButtonAsset::MenuButton,
        }
    }
}

impl ButtonActionType {
    /// What a button press with this action changes in the application.
    pub fn state_change(&self) -> (r: ButtonStateChange)
        ensures
            r == (match *self {
                ButtonActionType::EnterCharacterSelection => ButtonStateChange::EnterCharacterSelection,
                ButtonActionType::EnterOptions => ButtonStateChange::LogEnterOptions,
                ButtonActionType::EnterCompendium => ButtonStateChange::LogEnterCompendium,
                ButtonActionType::QuitGame => ButtonStateChange::ExitApp,
                _ => ButtonStateChange::Nothing,
            }),
    {
        match *self {
            ButtonActionType::EnterCharacterSelection => ButtonStateChange::EnterCharacterSelection,
            ButtonActionType::EnterOptions => ButtonStateChange::LogEnterOptions,
            ButtonActionType::EnterCompendium => ButtonStateChange::LogEnterCompendium,
            ButtonActionType::QuitGame => ButtonStateChange::ExitApp,
            _ => ButtonStateChange::Nothing,
        }
    }
}

} // verus!
