//! Players, the characters they pick and the input devices they play with.
use vstd::prelude::*;

verus! {

/// The playable characters, in the order in which the character selection
/// carousel presents them.
#[derive(Clone, Copy, Debug, PartialEq, Eq, Structural)]
pub enum CharacterType {
    Captain,
    Juggernaut,
}

/// Every playable character, in declaration order.
pub open spec fn all_characters() -> Seq<CharacterType> {
    seq![CharacterType::Captain, CharacterType::Juggernaut]
}

impl CharacterType {
    /// Every playable character, in declaration order.
    pub fn all() -> (r: Vec<CharacterType>)
        ensures
            r@ == all_characters(),
    {
        let mut v: Vec<CharacterType> = Vec::new();
        v.push(CharacterType::Captain);
        v.push(CharacterType::Juggernaut);
        v
    }
}

impl Default for CharacterType {
    /// A freshly joined player starts with the captain.
    fn default() -> (r: Self)
        ensures
            r == CharacterType::Captain,
    {
        CharacterType::Captain
    }
}

/// The device a player plays with: the keyboard, or the gamepad with the
/// given id.
#[derive(Clone, Copy, Debug, PartialEq, Eq, Structural)]
pub enum PlayerInput {
    Keyboard,
    Gamepad(usize),
}

impl PlayerInput {
    /// The gamepad id, for a gamepad player.
    pub fn gamepad_id(&self) -> (r: Option<usize>)
        ensures
            r == (match *self {
                PlayerInput::Gamepad(id) => Some(id),
                PlayerInput::Keyboard => None::<usize>,
            }),
    {
        match *self {
            PlayerInput::Gamepad(id) => Some(id),
            PlayerInput::Keyboard => None,
        }
    }
}

/// What is known of a joined player.
#[derive(Clone, Copy, Debug, PartialEq, Eq, Structural)]
pub struct PlayerData {
    pub character: CharacterType,
    pub input: PlayerInput,
}

/// Sent when a player joins; `player_idx` is the player's slot.
#[derive(Clone, Copy, Debug, PartialEq, Eq, Structural)]
pub struct PlayerJoinEvent {
    pub player_idx: u8,
    pub input: PlayerInput,
}

/// The player slots; a slot holds `None` where no player plays.
pub struct PlayersResource {
    pub player_data: Vec<Option<PlayerData>>,
}

/// The inputs of the occupied slots, in slot order.
pub open spec fn inputs_of(slots: Seq<Option<PlayerData>>) -> Seq<PlayerInput>
    decreases slots.len(),
{
    if slots.len() == 0 {
        Seq::empty()
    } else {
        let rest = inputs_of(slots.drop_last());
        match slots.last() {
            Some(d) => rest.push(d.input),
            None => rest,
        }
    }
}

/// Whether `input` occurs in `inputs`.
pub fn contains_input(inputs: &Vec<PlayerInput>, input: PlayerInput) -> (r: bool)
    ensures
        r == inputs@.contains(input),
{
    let mut i: usize = 0;
    while i < inputs.len()
        invariant
            i <= inputs.len(),
            forall|j: int| 0 <= j < i ==> inputs@[j] != input,
        decreases inputs.len() - i,
    {
        if inputs[i] == input {
            return true;
        }
        i = i + 1;
    }
    false
}

impl PlayersResource {
    /// No player slots.
    pub fn new() -> (r: Self)
        ensures
            r.player_data@ == Seq::<Option<PlayerData>>::empty(),
    {
        PlayersResource { player_data: Vec::new() }
    }

    /// The inputs already taken by a player, in slot order.
    pub fn get_used_inputs(&self) -> (r: Vec<PlayerInput>)
        ensures
            r@ == inputs_of(self.player_data@),
    {
        let mut used: Vec<PlayerInput> = Vec::new();
        let mut i: usize = 0;
        while i < self.player_data.len()
            invariant
                i <= self.player_data.len(),
                used@ == inputs_of(self.player_data@.take(i as int)),
            decreases self.player_data.len() - i,
        {
            assert(self.player_data@.take(i + 1).drop_last() == self.player_data@.take(i as int));
            match self.player_data[i] {
                Some(d) => used.push(d.input),
                None => {},
            }
            i = i + 1;
        }
        assert(self.player_data@.take(self.player_data.len() as int) == self.player_data@);
        used
    }

    /// A player joins with `input`: a new slot with the default character is
    /// appended, and the event names that slot by its index (as a byte).
    pub fn join(&mut self, input: PlayerInput) -> (event: PlayerJoinEvent)
        requires
            old(self).player_data.len() % 256 != 255,
        ensures
            final(self).player_data@ == old(self).player_data@.push(
                Some(PlayerData { character: CharacterType::Captain, input }),
            ),
            event.player_idx == old(self).player_data.len() % 256,
            event.input == input,
    {
        self.player_data.push(Some(PlayerData { character: CharacterType::default(), input }));
        let len_byte: u8 = (self.player_data.len() % 256) as u8;
        PlayerJoinEvent { player_idx: len_byte - 1, input }
    }

    /// Sets the character of the player in slot `player_idx`, when that slot
    /// exists and is occupied; otherwise nothing changes.
    pub fn set_character(&mut self, player_idx: u8, character: CharacterType)
        ensures
            final(self).player_data@ == (if player_idx < old(self).player_data.len()
                && old(self).player_data@[player_idx as int] is Some {
                old(self).player_data@.update(
                    player_idx as int,
                    Some(PlayerData {
                        character,
                        input: old(self).player_data@[player_idx as int]->Some_0.input,
                    }),
                )
            } else {
                old(self).player_data@
            }),
    {
        let i = player_idx as usize;
        if i < self.player_data.len() {
            match self.player_data[i] {
                Some(d) => {
                    self.player_data.set(i, Some(PlayerData { character, input: d.input }));
                },
                None => {},
            }
        }
    }
}

/// Law: after a player joins with `input`, the used inputs are the former
/// ones followed by `input`.
pub proof fn law_join_uses_input(slots: Seq<Option<PlayerData>>, input: PlayerInput)
    ensures
        inputs_of(slots.push(Some(PlayerData { character: CharacterType::Captain, input })))
            == inputs_of(slots).push(input),
{
    assert(slots.push(Some(PlayerData { character: CharacterType::Captain, input })).drop_last()
        == slots);
}

/// Law: changing a player's character leaves the used inputs unchanged.
pub proof fn law_character_change_keeps_inputs(
    slots: Seq<Option<PlayerData>>,
    i: int,
    character: CharacterType,
)
    requires
        0 <= i < slots.len(),
        slots[i] is Some,
    ensures
        inputs_of(
            slots.update(
                i,
                Some(PlayerData { character, input: slots[i]->Some_0.input }),
            ),
        ) == inputs_of(slots),
    decreases slots.len(),
{
    let new = slots.update(i, Some(PlayerData { character, input: slots[i]->Some_0.input }));
    if i == slots.len() - 1 {
        assert(new.drop_last() == slots.drop_last());
    } else {
        law_character_change_keeps_inputs(slots.drop_last(), i, character);
        assert(new.drop_last() == slots.drop_last().update(
            i,
            Some(PlayerData { character, input: slots[i]->Some_0.input }),
        ));
    }
}

} // verus!
