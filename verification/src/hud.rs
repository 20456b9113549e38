//! The in-game heads-up display of each player: health, shields, armor and
//! ability cooldowns, laid out on the player's side of the arena.
use vstd::prelude::*;

use crate::player::{CharacterType, PlayersResource};

verus! {

/// Tags the node holding a player's health bar.
pub struct HealthUI;

/// Tags the filled part of a player's health bar.
pub struct HealthValueUI;

/// Tags the node holding a player's shields bar.
pub struct ShieldsUI;

/// Tags the filled part of a player's shields bar.
pub struct ShieldsValueUI;

/// Tags the node holding a player's armor ticks.
pub struct ArmorUI;

/// Tags one armor tick.
pub struct ArmorCounterUI;

/// Tags an ability slot; `ability_index` is 0 for the first slot, 1 for the
/// second.
pub struct AbilitySlotUI {
    pub ability_index: usize,
}

/// Tags the icon inside an ability slot.
pub struct AbilityIconUI;

/// Tags the cooldown overlay of an ability slot; `ability_index` is 0 for the
/// first slot, 1 for the second.
pub struct AbilityValueUI {
    pub ability_index: usize,
}

/// Tags the node holding all of a player's HUD.
pub struct PlayerUI;

/// Tags the inner column (bars and armor) of a player's HUD.
pub struct PlayerInnerUI;

/// Tags the outer column (ability slots) of a player's HUD.
pub struct PlayerOuterUI;

/// The timer whose progress an ability cooldown overlay shows.
#[derive(Clone, Copy, Debug, PartialEq, Eq, Structural)]
pub enum CooldownSource {
    /// The main weapon's reload timer (first slot).
    WeaponReload,
    /// The special ability's cooldown timer (second slot).
    AbilityCooldown,
}

impl AbilityValueUI {
    /// The timer that this overlay shows: the weapon reload for the first
    /// slot, the ability cooldown for the second; other slots show none.
    pub fn cooldown_source(&self) -> (r: Option<CooldownSource>)
        ensures
            r == (if self.ability_index == 0 {
                Some(CooldownSource::WeaponReload)
            } else if self.ability_index == 1 {
                Some(CooldownSource::AbilityCooldown)
            } else {
                None
            }),
    {
        if self.ability_index == 0 {
            Some(CooldownSource::WeaponReload)
        } else if self.ability_index == 1 {
            Some(CooldownSource::AbilityCooldown)
        } else {
            None
        }
    }
}

/// Identifies player one and player two in game.
#[derive(Clone, Copy, Debug, PartialEq, Eq, Structural)]
pub enum PlayerIDComponent {
    One,
    Two,
}

/// Identifies the first and second ability slot.
#[derive(Clone, Copy, Debug, PartialEq, Eq, Structural)]
pub enum AbilitySlotIDComponent {
    One,
    Two,
}

impl PlayerIDComponent {
    /// The player's slot index.
    pub fn index(&self) -> (r: usize)
        ensures
            r == (match *self {
                PlayerIDComponent::One => 0usize,
                PlayerIDComponent::Two => 1usize,
            }),
    {
        match *self {
            PlayerIDComponent::One => 0,
            PlayerIDComponent::Two => 1,
        }
    }

    /// Whether the HUD is mirrored: player two's HUD, on the right of the
    /// arena, is.
    pub fn has_flipped_ui(&self) -> (r: bool)
        ensures
            r == (*self == PlayerIDComponent::Two),
    {
        match *self {
            PlayerIDComponent::One => false,
            PlayerIDComponent::Two => true,
        }
    }
}

/// Whether the HUD of the player in slot `player_index` is mirrored: odd
/// slots sit on the right of the arena.
pub fn is_flipped_slot(player_index: usize) -> (r: bool)
    ensures
        r == (player_index % 2 == 1),
{
    player_index % 2 == 1
}

/// A column of a player's HUD.
#[derive(Clone, Copy, Debug, PartialEq, Eq, Structural)]
pub enum PlayerUiSection {
    /// Health, shields and armor.
    Inner,
    /// The ability slots.
    Outer,
}

/// The columns of a player's HUD from left to right: the bars always face
/// the arena, so a mirrored HUD starts with them.
pub fn player_ui_sections(flipped: bool) -> (r: [PlayerUiSection; 2])
    ensures
        r@ == (if flipped {
            seq![PlayerUiSection::Inner, PlayerUiSection::Outer]
        } else {
            seq![PlayerUiSection::Outer, PlayerUiSection::Inner]
        }),
{
    let r = if flipped {
        [PlayerUiSection::Inner, PlayerUiSection::Outer]
    } else {
        [PlayerUiSection::Outer, PlayerUiSection::Inner]
    };
    r
}

/// The ability slots of the outer column, bottom to top.
pub fn ability_slots() -> (r: [AbilitySlotIDComponent; 2])
    ensures
        r@ == seq![AbilitySlotIDComponent::One, AbilitySlotIDComponent::Two],
{
    [AbilitySlotIDComponent::One, AbilitySlotIDComponent::Two]
}

/// The frame image of an ability slot, facing the arena.
pub open spec fn ability_slot_texture_of(is_flipped: bool) -> Seq<char> {
    if is_flipped {
        "texture/ability_square_right.png"@
    } else {
        "texture/ability_square_left.png"@
    }
}

/// The frame image of an ability slot, facing the arena.
pub fn ability_slot_texture(is_flipped: bool) -> (r: &'static str)
    ensures
        r@ == ability_slot_texture_of(is_flipped),
{
    if is_flipped {
        "texture/ability_square_right.png"
    } else {
        "texture/ability_square_left.png"
    }
}

/// The icon of a character's ability in the given slot (0 is the first slot,
/// any other index the second).
pub open spec fn ability_icon_texture_of(ability_index: usize, character: CharacterType) -> Seq<char> {
    if ability_index == 0 {
        match character {
            CharacterType::Captain => "texture/blast_ability.png"@,
            CharacterType::Juggernaut => "texture/bullet_ability.png"@,
        }
    } else {
        match character {
            CharacterType::Captain => "texture/megablast_ability.png"@,
            CharacterType::Juggernaut => "texture/charge_ability.png"@,
        }
    }
}

/// The icon of a character's ability in the given slot.
pub fn ability_icon_texture(ability_index: usize, character: CharacterType) -> (r: &'static str)
    ensures
        r@ == ability_icon_texture_of(ability_index, character),
{
    if ability_index == 0 {
        match character {
            CharacterType::Captain => "texture/blast_ability.png",
            CharacterType::Juggernaut => "texture/bullet_ability.png",
        }
    } else {
        match character {
            CharacterType::Captain => "texture/megablast_ability.png",
            CharacterType::Juggernaut => "texture/charge_ability.png",
        }
    }
}

/// The character whose HUD is drawn for the player in slot `id`: none when
/// the slot is empty (then no HUD is drawn).
pub fn player_ui_character(players: &PlayersResource, id: PlayerIDComponent) -> (r: Option<
    CharacterType,
>)
    requires
        (match id {
            PlayerIDComponent::One => 0int,
            PlayerIDComponent::Two => 1int,
        }) < players.player_data@.len(),
    ensures
        r == (match players.player_data@[match id {
            PlayerIDComponent::One => 0int,
            PlayerIDComponent::Two => 1int,
        }] {
            Some(d) => Some(d.character),
            None => None::<CharacterType>,
        }),
{
    match players.player_data[id.index()] {
        Some(d) => Some(d.character),
        None => None,
    }
}

} // verus!
