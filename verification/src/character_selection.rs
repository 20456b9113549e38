//! Character selection screen: players join with a device, browse the
//! characters, and mark themselves ready; when every joined player is ready
//! the run starts.
use vstd::prelude::*;

use crate::button::ButtonActionType;
use crate::input::{is_release, Interaction, MenuAction};
use crate::player::{contains_input, PlayerData, PlayerInput, PlayersResource};

verus! {

/// The top row holds the first two player slots, the bottom row the rest.
pub open spec fn join_rows(max_players: u8) -> (Seq<u8>, Seq<u8>) {
    let top_len: int = if max_players < 2 { max_players as int } else { 2 };
    (
        Seq::new(top_len as nat, |i: int| i as u8),
        Seq::new((max_players - top_len) as nat, |i: int| (i + 2) as u8),
    )
}

/// The player slots laid out in the top row (the first two) and in the bottom
/// row (the rest), for a game of `max_players` players.
pub fn player_join_rows(max_players: u8) -> (r: (Vec<u8>, Vec<u8>))
    ensures
        r.0@ == join_rows(max_players).0,
        r.1@ == join_rows(max_players).1,
{
    let mut top: Vec<u8> = Vec::new();
    let mut bottom: Vec<u8> = Vec::new();
    let mut i: u8 = 0;
    while i < max_players
        invariant
            i <= max_players,
            top@.len() == (if i < 2 { i as int } else { 2 }),
            bottom@.len() == (if i < 2 { 0 } else { i - 2 }),
            forall|k: int| 0 <= k < top@.len() ==> top@[k] == k,
            forall|k: int| 0 <= k < bottom@.len() ==> bottom@[k] == k + 2,
        decreases max_players - i,
    {
        if top.len() <= 1 {
            top.push(i);
        } else {
            bottom.push(i);
        }
        i = i + 1;
    }
    assert(top@ == join_rows(max_players).0);
    assert(bottom@ == join_rows(max_players).1);
    (top, bottom)
}

/// What the join button observed on one frame.
pub struct JoinInput {
    /// The join button's interaction, when the join button exists.
    pub join_button: Option<Interaction>,
    /// The join button's interaction on the previous frame, as last stored.
    pub stored_interaction: Interaction,
    /// Whether a menu explorer saw the keyboard join action just released.
    pub keyboard_join_released: bool,
    /// The gamepad of the first pending gamepad button event, read when a
    /// menu explorer exists.
    pub gamepad_event: Option<usize>,
    /// Whether a menu explorer saw the gamepad join action just released.
    pub gamepad_join_released: bool,
}

/// What the join logic decides on one frame.
pub struct JoinDecision {
    /// The devices that join, in order (keyboard, gamepad, pointer).
    pub joins: Vec<PlayerInput>,
    /// The interaction to store for the next frame.
    pub stored_interaction: Interaction,
}

/// The devices joining this frame. The inputs already in use are read once,
/// before any join of this frame.
pub open spec fn joins_of(input: JoinInput, used: Seq<PlayerInput>, max_players: u8) -> Seq<
    PlayerInput,
> {
    if input.join_button is Some && used.len() < max_players {
        let kb = if input.keyboard_join_released && !used.contains(PlayerInput::Keyboard) {
            seq![PlayerInput::Keyboard]
        } else {
            Seq::empty()
        };
        let gp = match input.gamepad_event {
            Some(id) => if input.gamepad_join_released && !used.contains(
                PlayerInput::Gamepad(id),
            ) {
                seq![PlayerInput::Gamepad(id)]
            } else {
                Seq::empty()
            },
            None => Seq::empty(),
        };
        let mouse = if is_release(input.join_button->Some_0, input.stored_interaction)
            && !used.contains(PlayerInput::Keyboard) {
            seq![PlayerInput::Keyboard]
        } else {
            Seq::empty()
        };
        kb + gp + mouse
    } else {
        Seq::empty()
    }
}

/// The interaction stored for the next frame: it is only updated while the
/// join button exists and a slot is free.
pub open spec fn stored_after(input: JoinInput, used: Seq<PlayerInput>, max_players: u8) -> Interaction {
    if input.join_button is Some && used.len() < max_players {
        input.join_button->Some_0
    } else {
        input.stored_interaction
    }
}

/// Decides which devices join on this frame: the keyboard when its join
/// action was released, the gamepad of the pending event when its join
/// action was released, and the keyboard again when the pointer clicked the
/// join button; each only if the device is not already in use and while
/// fewer than `max_players` players have joined.
pub fn player_join_decision(input: &JoinInput, used: &Vec<PlayerInput>, max_players: u8) -> (r:
    JoinDecision)
    ensures
        r.joins@ == joins_of(*input, used@, max_players),
        r.stored_interaction == stored_after(*input, used@, max_players),
        r.joins@.len() > 0 && !input.keyboard_join_released && !input.gamepad_join_released
            ==> input.join_button == Some(Interaction::Hovered) && input.stored_interaction
            == Interaction::Pressed,
        input.join_button == Some(Interaction::Hovered) && input.stored_interaction
            == Interaction::Pressed && used@.len() < max_players && !used@.contains(
            PlayerInput::Keyboard,
        ) ==> r.joins@.len() > 0 && r.joins@.last() == PlayerInput::Keyboard,
{
    let mut joins: Vec<PlayerInput> = Vec::new();
    match input.join_button {
        Some(current) => {
            if used.len() < max_players as usize {
                let keyboard_used = contains_input(used, PlayerInput::Keyboard);
                if input.keyboard_join_released && !keyboard_used {
                    joins.push(PlayerInput::Keyboard);
                }
                match input.gamepad_event {
                    Some(id) => {
                        if input.gamepad_join_released && !contains_input(
                            used,
                            PlayerInput::Gamepad(id),
                        ) {
                            joins.push(PlayerInput::Gamepad(id));
                        }
                    },
                    None => {},
                }
                let released = current == Interaction::Hovered && input.stored_interaction
                    == Interaction::Pressed;
                if released && !keyboard_used {
                    joins.push(PlayerInput::Keyboard);
                }
                JoinDecision { joins, stored_interaction: current }
            } else {
                JoinDecision { joins, stored_interaction: input.stored_interaction }
            }
        },
        None => JoinDecision { joins, stored_interaction: input.stored_interaction },
    }
}

/// The slot of the first player using the keyboard.
pub open spec fn first_keyboard(used: Seq<PlayerInput>) -> Option<int>
    decreases used.len(),
{
    if used.len() == 0 {
        None
    } else if used[0] == PlayerInput::Keyboard {
        Some(0)
    } else {
        match first_keyboard(used.drop_first()) {
            Some(i) => Some(i + 1),
            None => None,
        }
    }
}

/// The position (as a byte) of the first keyboard player among the used
/// inputs.
pub fn keyboard_player_index(used: &Vec<PlayerInput>) -> (r: Option<u8>)
    ensures
        r == (match first_keyboard(used@) {
            Some(i) => Some(i as u8),
            None => None::<u8>,
        }),
{
    let mut i: usize = 0;
    while i < used.len()
        invariant
            i <= used.len(),
            forall|j: int| 0 <= j < i ==> used@[j] != PlayerInput::Keyboard,
        decreases used.len() - i,
    {
        if used[i] == PlayerInput::Keyboard {
            proof {
                lemma_first_keyboard(used@, i as int);
            }
            return Some(#[verifier::truncate] (i as u8));
        }
        i = i + 1;
    }
    proof {
        lemma_first_keyboard(used@, i as int);
    }
    None
}

/// Scanning past non-keyboard inputs: the first keyboard position is found
/// where the scan stops.
proof fn lemma_first_keyboard(used: Seq<PlayerInput>, i: int)
    requires
        0 <= i <= used.len(),
        forall|j: int| 0 <= j < i ==> used[j] != PlayerInput::Keyboard,
    ensures
        i < used.len() && used[i] == PlayerInput::Keyboard ==> first_keyboard(used) == Some(i),
        i == used.len() ==> first_keyboard(used) is None,
    decreases i,
{
    if i > 0 {
        let t = used.drop_first();
        assert forall|j: int| 0 <= j < i - 1 implies t[j] != PlayerInput::Keyboard by {
            assert(t[j] == used[j + 1]);
        }
        lemma_first_keyboard(t, i - 1);
    }
}

/// Whether an input is a gamepad.
pub open spec fn is_gamepad(input: PlayerInput) -> bool {
    input is Gamepad
}

/// The positions (as bytes) of the gamepad players among the used inputs, in
/// order.
pub open spec fn gamepad_positions(used: Seq<PlayerInput>) -> Seq<u8>
    decreases used.len(),
{
    if used.len() == 0 {
        Seq::empty()
    } else {
        let rest = gamepad_positions(used.drop_last());
        if is_gamepad(used.last()) {
            rest.push(((used.len() - 1) as int) as u8)
        } else {
            rest
        }
    }
}

/// The positions (as bytes) of the gamepad players among the used inputs.
pub fn gamepad_player_indices(used: &Vec<PlayerInput>) -> (r: Vec<u8>)
    ensures
        r@ == gamepad_positions(used@),
{
    let mut idxs: Vec<u8> = Vec::new();
    let mut i: usize = 0;
    while i < used.len()
        invariant
            i <= used.len(),
            idxs@ == gamepad_positions(used@.take(i as int)),
        decreases used.len() - i,
    {
        assert(used@.take(i + 1).drop_last() == used@.take(i as int));
        match used[i] {
            PlayerInput::Gamepad(_) => idxs.push(#[verifier::truncate] (i as u8)),
            PlayerInput::Keyboard => {},
        }
        i = i + 1;
    }
    assert(used@.take(used.len() as int) == used@);
    idxs
}

/// The button event that a just-released menu action of player `player_idx`
/// produces: gamepad players use the gamepad bindings, the others the
/// keyboard bindings.
pub open spec fn action_event(action: MenuAction, player_idx: u8, gamepad_player: bool) -> Option<
    ButtonActionType,
> {
    if gamepad_player {
        match action {
            MenuAction::PlayerReadyGamepad => Some(ButtonActionType::CharacterSelectReady(player_idx)),
            MenuAction::NavigateLeftGamepad => Some(ButtonActionType::CharacterSelectLeft(player_idx)),
            MenuAction::NavigateRightGamepad => Some(
                ButtonActionType::CharacterSelectRight(player_idx),
            ),
            _ => None,
        }
    } else {
        match action {
            MenuAction::PlayerReadyKeyboard => Some(
                ButtonActionType::CharacterSelectReady(player_idx),
            ),
            MenuAction::NavigateLeftKeyboard => Some(ButtonActionType::CharacterSelectLeft(player_idx)),
            MenuAction::NavigateRightKeyboard => Some(
                ButtonActionType::CharacterSelectRight(player_idx),
            ),
            _ => None,
        }
    }
}

/// The button event for a just-released menu action of player `player_idx`,
/// given the positions of the gamepad players.
pub fn menu_action_event(action: MenuAction, player_idx: u8, gamepad_idxs: &Vec<u8>) -> (r: Option<
    ButtonActionType,
>)
    ensures
        r == action_event(action, player_idx, gamepad_idxs@.contains(player_idx)),
        !gamepad_idxs@.contains(player_idx) ==> {
            &&& action == MenuAction::NavigateRightKeyboard ==> r == Some(
                ButtonActionType::CharacterSelectRight(player_idx),
            )
            &&& action == MenuAction::NavigateLeftKeyboard ==> r == Some(
                ButtonActionType::CharacterSelectLeft(player_idx),
            )
            &&& action == MenuAction::PlayerReadyKeyboard ==> r == Some(
                ButtonActionType::CharacterSelectReady(player_idx),
            )
            &&& action != MenuAction::NavigateRightKeyboard && action
                != MenuAction::NavigateLeftKeyboard && action != MenuAction::PlayerReadyKeyboard
                ==> r is None
        },
        gamepad_idxs@.contains(player_idx) ==> {
            &&& action == MenuAction::NavigateRightGamepad ==> r == Some(
                ButtonActionType::CharacterSelectRight(player_idx),
            )
            &&& action == MenuAction::NavigateLeftGamepad ==> r == Some(
                ButtonActionType::CharacterSelectLeft(player_idx),
            )
            &&& action == MenuAction::PlayerReadyGamepad ==> r == Some(
                ButtonActionType::CharacterSelectReady(player_idx),
            )
            &&& action != MenuAction::NavigateRightGamepad && action
                != MenuAction::NavigateLeftGamepad && action != MenuAction::PlayerReadyGamepad
                ==> r is None
        },
{
    let mut is_gamepad_player = false;
    let mut i: usize = 0;
    while i < gamepad_idxs.len()
        invariant
            i <= gamepad_idxs.len(),
            is_gamepad_player == (exists|j: int| 0 <= j < i && gamepad_idxs@[j] == player_idx),
        decreases gamepad_idxs.len() - i,
    {
        if gamepad_idxs[i] == player_idx {
            is_gamepad_player = true;
        }
        i = i + 1;
    }
    if is_gamepad_player {
        match action {
            MenuAction::PlayerReadyGamepad => Some(ButtonActionType::CharacterSelectReady(player_idx)),
            MenuAction::NavigateLeftGamepad => Some(ButtonActionType::CharacterSelectLeft(player_idx)),
            MenuAction::NavigateRightGamepad => Some(
                ButtonActionType::CharacterSelectRight(player_idx),
            ),
            _ => None,
        }
    } else {
        match action {
            MenuAction::PlayerReadyKeyboard => Some(
                ButtonActionType::CharacterSelectReady(player_idx),
            ),
            MenuAction::NavigateLeftKeyboard => Some(ButtonActionType::CharacterSelectLeft(player_idx)),
            MenuAction::NavigateRightKeyboard => Some(
                ButtonActionType::CharacterSelectRight(player_idx),
            ),
            _ => None,
        }
    }
}

/// The player index that a character selection button (left, right or
/// ready) belongs to.
pub open spec fn selection_button_player(action: ButtonActionType) -> Option<u8> {
    match action {
        ButtonActionType::CharacterSelectLeft(i) => Some(i),
        ButtonActionType::CharacterSelectRight(i) => Some(i),
        ButtonActionType::CharacterSelectReady(i) => Some(i),
        _ => None,
    }
}

/// The interactions of the keyboard player's left, right and ready buttons on
/// the previous frame, one entry per player slot.
pub struct MouseClickMemory {
    pub right: [Interaction; 4],
    pub left: [Interaction; 4],
    pub ready: [Interaction; 4],
}

impl MouseClickMemory {
    /// Nothing pressed or hovered yet.
    pub fn new() -> (r: Self)
        ensures
            forall|i: int| 0 <= i < 4 ==> r.right@[i] == Interaction::Idle,
            forall|i: int| 0 <= i < 4 ==> r.left@[i] == Interaction::Idle,
            forall|i: int| 0 <= i < 4 ==> r.ready@[i] == Interaction::Idle,
    {
        MouseClickMemory {
            right: [Interaction::Idle, Interaction::Idle, Interaction::Idle, Interaction::Idle],
            left: [Interaction::Idle, Interaction::Idle, Interaction::Idle, Interaction::Idle],
            ready: [Interaction::Idle, Interaction::Idle, Interaction::Idle, Interaction::Idle],
        }
    }

    /// Observes one button of the keyboard player (player `keyboard_idx`):
    /// left, right and ready buttons of that player store their interaction
    /// and report their action when the pointer was just released over them;
    /// other buttons are ignored.
    pub fn observe(&mut self, keyboard_idx: u8, action: ButtonActionType, interaction: Interaction) -> (r:
        Option<ButtonActionType>)
        requires
            selection_button_player(action) == Some(keyboard_idx) ==> keyboard_idx < 4,
        ensures
            selection_button_player(action) != Some(keyboard_idx) ==> r is None && *final(self)
                == *old(self),
            action matches ButtonActionType::CharacterSelectRight(i) ==> i == keyboard_idx ==> {
                &&& final(self).right@ == old(self).right@.update(i as int, interaction)
                &&& final(self).left@ == old(self).left@
                &&& final(self).ready@ == old(self).ready@
                &&& r == (if is_release(interaction, old(self).right@[i as int]) {
                    Some(action)
                } else {
                    None
                })
            },
            action matches ButtonActionType::CharacterSelectLeft(i) ==> i == keyboard_idx ==> {
                &&& final(self).left@ == old(self).left@.update(i as int, interaction)
                &&& final(self).right@ == old(self).right@
                &&& final(self).ready@ == old(self).ready@
                &&& r == (if is_release(interaction, old(self).left@[i as int]) {
                    Some(action)
                } else {
                    None
                })
            },
            action matches ButtonActionType::CharacterSelectReady(i) ==> i == keyboard_idx ==> {
                &&& final(self).ready@ == old(self).ready@.update(i as int, interaction)
                &&& final(self).right@ == old(self).right@
                &&& final(self).left@ == old(self).left@
                &&& r == (if is_release(interaction, old(self).ready@[i as int]) {
                    Some(action)
                } else {
                    None
                })
            },
    {
        match action {
            ButtonActionType::CharacterSelectRight(i) => {
                if i != keyboard_idx {
                    return None;
                }
                let before = self.right[i as usize];
                self.right[i as usize] = interaction;
                if interaction == Interaction::Hovered && before == Interaction::Pressed {
                    Some(action)
                } else {
                    None
                }
            },
            ButtonActionType::CharacterSelectLeft(i) => {
                if i != keyboard_idx {
                    return None;
                }
                let before = self.left[i as usize];
                self.left[i as usize] = interaction;
                if interaction == Interaction::Hovered && before == Interaction::Pressed {
                    Some(action)
                } else {
                    None
                }
            },
            ButtonActionType::CharacterSelectReady(i) => {
                if i != keyboard_idx {
                    return None;
                }
                let before = self.ready[i as usize];
                self.ready[i as usize] = interaction;
                if interaction == Interaction::Hovered && before == Interaction::Pressed {
                    Some(action)
                } else {
                    None
                }
            },
            _ => None,
        }
    }
}

/// Tracks whether the player of a slot has pressed ready.
#[derive(Clone, Copy, Debug, PartialEq, Eq, Structural)]
pub struct PlayerReadyNode {
    pub player_idx: u8,
    pub is_ready: bool,
}

impl PlayerReadyNode {
    /// A player that is not ready yet.
    pub fn new(player_idx: u8) -> (r: Self)
        ensures
            r.player_idx == player_idx,
            !r.is_ready,
    {
        PlayerReadyNode { player_idx, is_ready: false }
    }

    /// Applies a button event: the ready event of this node's player marks it
    /// ready. Returns whether the node just became ready (its button is then
    /// recolored).
    pub fn apply_ready_event(&mut self, action: ButtonActionType) -> (became_ready: bool)
        ensures
            became_ready == (action == ButtonActionType::CharacterSelectReady(old(self).player_idx)
                && !old(self).is_ready),
            final(self).player_idx == old(self).player_idx,
            final(self).is_ready == (old(self).is_ready || action
                == ButtonActionType::CharacterSelectReady(old(self).player_idx)),
    {
        match action {
            ButtonActionType::CharacterSelectReady(i) => {
                if i == self.player_idx && !self.is_ready {
                    self.is_ready = true;
                    true
                } else {
                    false
                }
            },
            _ => false,
        }
    }
}

/// Every ready node whose player slot exists is ready, and at least one slot
/// exists.
pub open spec fn all_ready(slots: Seq<Option<PlayerData>>, nodes: Seq<PlayerReadyNode>) -> bool {
    slots.len() != 0 && forall|k: int|
        0 <= k < nodes.len() ==> nodes[k].is_ready || nodes[k].player_idx >= slots.len()
}

/// Whether the run may start: some player slot exists and the ready node of
/// every existing slot is ready.
pub fn all_players_ready(players: &PlayersResource, nodes: &Vec<PlayerReadyNode>) -> (r: bool)
    ensures
        r == all_ready(players.player_data@, nodes@),
{
    let mut ready = true;
    let mut i: usize = 0;
    while i < nodes.len()
        invariant
            i <= nodes.len(),
            ready == (forall|k: int|
                0 <= k < i ==> nodes@[k].is_ready || nodes@[k].player_idx
                    >= players.player_data@.len()),
        decreases nodes.len() - i,
    {
        let node = nodes[i];
        let exists = (node.player_idx as usize) < players.player_data.len();
        if !node.is_ready && exists {
            ready = false;
        }
        i = i + 1;
    }
    players.player_data.len() != 0 && ready
}

/// The first ready node of player `player_idx`.
pub open spec fn node_of(nodes: Seq<PlayerReadyNode>, player_idx: u8) -> Option<PlayerReadyNode>
    decreases nodes.len(),
{
    if nodes.len() == 0 {
        None
    } else if nodes[0].player_idx == player_idx {
        Some(nodes[0])
    } else {
        node_of(nodes.drop_first(), player_idx)
    }
}

/// A player may browse the characters while their ready node exists and is
/// not ready.
pub fn carousel_accepts_input(nodes: &Vec<PlayerReadyNode>, player_idx: u8) -> (r: bool)
    ensures
        r == (node_of(nodes@, player_idx) matches Some(n) && !n.is_ready),
{
    let mut i: usize = 0;
    assert(nodes@.skip(0) == nodes@);
    while i < nodes.len()
        invariant
            i <= nodes.len(),
            node_of(nodes@, player_idx) == node_of(nodes@.skip(i as int), player_idx),
        decreases nodes.len() - i,
    {
        assert(nodes@.skip(i as int).drop_first() == nodes@.skip(i + 1));
        if nodes[i].player_idx == player_idx {
            return !nodes[i].is_ready;
        }
        i = i + 1;
    }
    false
}

/// The first position in `slots` that holds `player_idx`.
pub open spec fn slot_position(slots: Seq<u8>, player_idx: u8) -> Option<int>
    decreases slots.len(),
{
    if slots.len() == 0 {
        None
    } else if slots[0] == player_idx {
        Some(0)
    } else {
        match slot_position(slots.drop_first(), player_idx) {
            Some(i) => Some(i + 1),
            None => None,
        }
    }
}

/// The position of the first slot (in the order the slots are listed) that
/// belongs to player `player_idx`.
pub fn find_slot(slots: &Vec<u8>, player_idx: u8) -> (r: Option<usize>)
    ensures
        r == (match slot_position(slots@, player_idx) {
            Some(i) => Some(i as usize),
            None => None::<usize>,
        }),
        r matches Some(i) ==> i < slots@.len() && slots@[i as int] == player_idx,
{
    let mut i: usize = 0;
    while i < slots.len()
        invariant
            i <= slots.len(),
            forall|j: int| 0 <= j < i ==> slots@[j] != player_idx,
        decreases slots.len() - i,
    {
        if slots[i] == player_idx {
            proof {
                lemma_slot_position(slots@, player_idx, i as int);
            }
            return Some(i);
        }
        i = i + 1;
    }
    proof {
        lemma_slot_position(slots@, player_idx, i as int);
    }
    None
}

/// Scanning past other slots: the first matching position is found where
/// the scan stops.
proof fn lemma_slot_position(slots: Seq<u8>, player_idx: u8, i: int)
    requires
        0 <= i <= slots.len(),
        forall|j: int| 0 <= j < i ==> slots[j] != player_idx,
    ensures
        i < slots.len() && slots[i] == player_idx ==> slot_position(slots, player_idx) == Some(i),
        i == slots.len() ==> slot_position(slots, player_idx) is None,
    decreases i,
{
    if i > 0 {
        let t = slots.drop_first();
        assert forall|j: int| 0 <= j < i - 1 implies t[j] != player_idx by {
            assert(t[j] == slots[j + 1]);
        }
        lemma_slot_position(t, player_idx, i - 1);
    }
}

/// Where the join button goes once player `player_idx` has joined.
#[derive(Clone, Copy, Debug, PartialEq, Eq, Structural)]
pub struct JoinUiUpdate {
    /// The center slot of the joined player, which gets the carousel and loses
    /// the join button.
    pub joined_slot: Option<usize>,
    /// The center slot of the next player, which gets the join button; when
    /// there is none, every slot is taken and the join button is despawned.
    pub next_slot: Option<usize>,
}

/// Where the join button goes once player `player_idx` has joined, given the
/// player indices of the center slots in query order.
pub fn join_ui_update(player_idx: u8, center_slots: &Vec<u8>) -> (r: JoinUiUpdate)
    requires
        player_idx < 255,
    ensures
        r.joined_slot == (match slot_position(center_slots@, player_idx) {
            Some(i) => Some(i as usize),
            None => None::<usize>,
        }),
        r.next_slot == (match slot_position(center_slots@, (player_idx + 1) as u8) {
            Some(i) => Some(i as usize),
            None => None::<usize>,
        }),
{
    JoinUiUpdate {
        joined_slot: find_slot(center_slots, player_idx),
        next_slot: find_slot(center_slots, player_idx + 1),
    }
}

/// Law: a device already in use never joins, and nobody joins once
/// `max_players` players are in.
pub proof fn law_joins_only_free_devices(input: JoinInput, used: Seq<PlayerInput>, max_players: u8)
    ensures
        forall|k: int|
            0 <= k < joins_of(input, used, max_players).len() ==> !used.contains(
                #[trigger] joins_of(input, used, max_players)[k],
            ),
        used.len() >= max_players ==> joins_of(input, used, max_players).len() == 0,
{
    let j = joins_of(input, used, max_players);
    assert forall|k: int| 0 <= k < j.len() implies !used.contains(#[trigger] j[k]) by {
        if input.join_button is Some && used.len() < max_players {
            let kb = if input.keyboard_join_released && !used.contains(PlayerInput::Keyboard) {
                seq![PlayerInput::Keyboard]
            } else {
                Seq::empty()
            };
            let gp = match input.gamepad_event {
                Some(id) => if input.gamepad_join_released && !used.contains(
                    PlayerInput::Gamepad(id),
                ) {
                    seq![PlayerInput::Gamepad(id)]
                } else {
                    Seq::empty()
                },
                None => Seq::empty(),
            };
            let mouse = if is_release(input.join_button->Some_0, input.stored_interaction)
                && !used.contains(PlayerInput::Keyboard) {
                seq![PlayerInput::Keyboard]
            } else {
                Seq::empty()
            };
            assert(j == kb + gp + mouse);
            if k < kb.len() {
                assert(j[k] == kb[k]);
            } else if k < kb.len() + gp.len() {
                assert(j[k] == gp[k - kb.len()]);
            } else {
                assert(j[k] == mouse[k - kb.len() - gp.len()]);
            }
        }
    }
}

/// Law: without a keyboard or gamepad join input, a device joins only on a
/// click of the join button (the pointer released over it: pressed on the
/// previous frame, hovered now); merely hovering it joins nobody. Such a
/// click joins the keyboard while it is free and a slot is left.
pub proof fn law_pointer_joins_only_on_release(
    input: JoinInput,
    used: Seq<PlayerInput>,
    max_players: u8,
)
    ensures
        joins_of(input, used, max_players).len() > 0 && !input.keyboard_join_released
            && !input.gamepad_join_released ==> input.join_button == Some(Interaction::Hovered)
            && input.stored_interaction == Interaction::Pressed,
        input.join_button == Some(Interaction::Hovered) && input.stored_interaction
            == Interaction::Pressed && used.len() < max_players && !used.contains(
            PlayerInput::Keyboard,
        ) ==> joins_of(input, used, max_players).len() > 0 && joins_of(
            input,
            used,
            max_players,
        ).last() == PlayerInput::Keyboard,
{
}

/// Law: a character selection action moves the carousel in the direction it
/// names, for the player who acted: a keyboard player's right, left and ready
/// keys give that player's right, left and ready events, and a gamepad
/// player's gamepad bindings do the same; the other device's bindings give
/// nothing.
pub proof fn law_event_names_action_direction(player_idx: u8)
    ensures
        action_event(MenuAction::NavigateRightKeyboard, player_idx, false) == Some(
            ButtonActionType::CharacterSelectRight(player_idx),
        ),
        action_event(MenuAction::NavigateLeftKeyboard, player_idx, false) == Some(
            ButtonActionType::CharacterSelectLeft(player_idx),
        ),
        action_event(MenuAction::PlayerReadyKeyboard, player_idx, false) == Some(
            ButtonActionType::CharacterSelectReady(player_idx),
        ),
        action_event(MenuAction::NavigateRightGamepad, player_idx, true) == Some(
            ButtonActionType::CharacterSelectRight(player_idx),
        ),
        action_event(MenuAction::NavigateLeftGamepad, player_idx, true) == Some(
            ButtonActionType::CharacterSelectLeft(player_idx),
        ),
        action_event(MenuAction::PlayerReadyGamepad, player_idx, true) == Some(
            ButtonActionType::CharacterSelectReady(player_idx),
        ),
        action_event(MenuAction::NavigateRightGamepad, player_idx, false) is None,
        action_event(MenuAction::NavigateLeftGamepad, player_idx, false) is None,
        action_event(MenuAction::NavigateRightKeyboard, player_idx, true) is None,
        action_event(MenuAction::NavigateLeftKeyboard, player_idx, true) is None,
{
}

/// Readiness after a button event.
pub open spec fn ready_after(node: PlayerReadyNode, action: ButtonActionType) -> bool {
    node.is_ready || action == ButtonActionType::CharacterSelectReady(node.player_idx)
}

/// Law: readiness, once set, is never cleared by a button event, and a ready
/// player's carousel ignores the left and right buttons.
pub proof fn law_ready_is_final(node: PlayerReadyNode, action: ButtonActionType, nodes: Seq<PlayerReadyNode>)
    requires
        node.is_ready,
        node_of(nodes, node.player_idx) == Some(node),
    ensures
        ready_after(node, action),
        !(node_of(nodes, node.player_idx) matches Some(n) && !n.is_ready),
{
}

/// Law: the run never starts without players.
pub proof fn law_no_start_without_players(nodes: Seq<PlayerReadyNode>)
    ensures
        !all_ready(Seq::<Option<PlayerData>>::empty(), nodes),
{
}

/// Law: once every node of an existing slot is ready, the run starts, and a
/// single node of an existing slot that is not ready holds it back.
pub proof fn law_start_needs_every_player(
    slots: Seq<Option<PlayerData>>,
    nodes: Seq<PlayerReadyNode>,
    k: int,
)
    requires
        0 <= k < nodes.len(),
        nodes[k].player_idx < slots.len(),
        !nodes[k].is_ready,
    ensures
        !all_ready(slots, nodes),
{
}

/// Law: the two rows of the join screen hold every player slot once, in
/// order: the top row followed by the bottom row is `0, 1, ..., max - 1`.
pub proof fn law_rows_cover_every_slot(max_players: u8)
    ensures
        (join_rows(max_players).0 + join_rows(max_players).1).len() == max_players,
        forall|i: int|
            0 <= i < max_players ==> (join_rows(max_players).0 + join_rows(max_players).1)[i] == i,
{
}

} // verus!
