//! Selection state machine of the main menu.
use vstd::prelude::*;

use crate::audio::SoundEffectType;
use crate::button::ButtonActionType;
use crate::input::{Interaction, MenuAction};

verus! {

/// Tags the root node of the main menu.
pub struct MainMenuUI;

/// The largest value an `i16` button index may take; results of
/// [`wrapped_modulo_add`] are reduced below it.
pub open spec fn button_idx_max() -> int {
    32767
}

/// `val1 + epsilon`, reduced (Euclidean remainder) by `modulo` read as a
/// signed `isize`, then reduced by `i16::MAX`.
pub open spec fn wrapped_modulo_add_spec(val1: int, epsilon: int, modulo: usize) -> int {
    ((val1 + epsilon) % ((modulo as isize) as int)) % button_idx_max()
}

/// Roughly `(val1 + epsilon) % modulo`, except that the result is kept
/// non-negative and small: `0 <= result < modulo` (for a modulo that fits an
/// `isize`) and `result < i16::MAX`.
pub fn wrapped_modulo_add(val1: i16, epsilon: i8, modulo: usize) -> (r: i16)
    requires
        modulo != 0,
    ensures
        r as int == wrapped_modulo_add_spec(val1 as int, epsilon as int, modulo),
        0 <= r < button_idx_max(),
{
    let m: isize = #[verifier::truncate] (modulo as isize);
    let mi: i128 = m as i128;
    let a: i128 = if mi < 0 { -mi } else { mi };
    assert(a > 0) by {
        assert((modulo as isize) as int != 0) by (bit_vector)
            requires modulo != 0usize;
    }
    let x: i128 = val1 as i128 + epsilon as i128;
    let y: i128 = x + 32896 * a;
    let r1: u128 = (y as u128) % (a as u128);
    proof {
        vstd::arithmetic::div_mod::lemma_mod_multiples_vanish(32896, x as int, a as int);
        lemma_mod_by_negated(x as int, mi as int, a as int);
    }
    let r2: u128 = r1 % 32767;
    r2 as i16
}

/// The Euclidean remainder only depends on the divisor's magnitude.
proof fn lemma_mod_by_negated(x: int, d: int, a: int)
    requires
        a > 0,
        d == a || d == -a,
    ensures
        x % d == x % a,
{
    if d == -a {
        let q = x / a;
        let r = x % a;
        vstd::arithmetic::div_mod::lemma_fundamental_div_mod(x, a);
        assert(x == d * (-q) + r) by (nonlinear_arith)
            requires x == a * q + r, d == -a;
        vstd::arithmetic::div_mod::lemma_fundamental_div_mod(x, d);
        let q2 = x / d;
        let r2 = x % d;
        assert(0 <= r2 < a);
        assert(0 <= r < a);
        assert(d * (q2 - (-q)) == r - r2) by (nonlinear_arith)
            requires x == d * q2 + r2, x == d * (-q) + r;
        if q2 != -q {
            assert(q2 - (-q) >= 1 || q2 - (-q) <= -1);
            assert(d * (q2 - (-q)) >= a || d * (q2 - (-q)) <= -a) by (nonlinear_arith)
                requires d == -a, a > 0, q2 - (-q) >= 1 || q2 - (-q) <= -1;
        }
    }
}

/// `-1` for `true` (move up the menu), `1` for `false` (move down).
pub fn bool_to_plus_minus_1(val: bool) -> (r: i8)
    ensures
        r == (if val { -1i8 } else { 1i8 }),
{
    match val {
        true => -1,
        false => 1,
    }
}

/// The buttons of the main menu, top to bottom.
pub open spec fn menu_order() -> Seq<ButtonActionType> {
    seq![
        ButtonActionType::EnterCharacterSelection,
        ButtonActionType::EnterOptions,
        ButtonActionType::EnterCompendium,
        ButtonActionType::QuitGame,
    ]
}

/// The buttons of the main menu, top to bottom.
pub fn main_menu_button_order() -> (r: [ButtonActionType; 4])
    ensures
        r@ == menu_order(),
{
    [
        ButtonActionType::EnterCharacterSelection,
        ButtonActionType::EnterOptions,
        ButtonActionType::EnterCompendium,
        ButtonActionType::QuitGame,
    ]
}

/// The row of `action` on the main menu, if it is a main menu button.
pub open spec fn menu_position(action: ButtonActionType) -> Option<i16> {
    match action {
        ButtonActionType::EnterCharacterSelection => Some(0i16),
        ButtonActionType::EnterOptions => Some(1i16),
        ButtonActionType::EnterCompendium => Some(2i16),
        ButtonActionType::QuitGame => Some(3i16),
        _ => None,
    }
}

/// The row of `action` on the main menu, if it is a main menu button.
pub fn main_menu_position(action: ButtonActionType) -> (r: Option<i16>)
    ensures
        r == menu_position(action),
        r matches Some(i) ==> 0 <= i < 4 && menu_order()[i as int] == action,
        r is None ==> !menu_order().contains(action),
{
    let order = main_menu_button_order();
    let mut i: usize = 0;
    while i < 4
        invariant
            i <= 4,
            order@ == menu_order(),
            forall|j: int| 0 <= j < i ==> order@[j] != action,
        decreases 4 - i,
    {
        if order[i] == action {
            return Some(i as i16);
        }
        i = i + 1;
    }
    assert(forall|j: int| 0 <= j < 4 ==> menu_order()[j] != action);
    None
}

/// Why a main menu button is selected.
#[derive(Clone, Copy, Debug, PartialEq, Eq, Structural)]
pub enum ButtonSelectionCause {
    /// The pointer hovers the button.
    MouseOver,
    /// The up/down inputs moved the selection to the button.
    UpDownInputs,
}

/// The selected row of the main menu and why it is selected, if any.
pub type Selection = Option<(i16, ButtonSelectionCause)>;

/// A selection names a row of the menu.
pub open spec fn selection_in_menu(s: Selection) -> bool {
    s matches Some((idx, _)) ==> 0 <= idx < 4
}

/// The selection on the next frame, from the current selection, the first
/// up (`true`) or down (`false`) input of this frame, and the button the
/// pointer hovers. Hovering wins over everything else.
pub open spec fn next_selection(
    current: Selection,
    arrow: Option<bool>,
    hovered: Option<ButtonActionType>,
) -> Selection {
    match hovered {
        Some(h) => match menu_position(h) {
            Some(i) => Some((i, ButtonSelectionCause::MouseOver)),
            None => None,
        },
        None => match (current, arrow) {
            (None, Some(_)) => Some((0i16, ButtonSelectionCause::UpDownInputs)),
            (Some((_, ButtonSelectionCause::MouseOver)), None) => None,
            (Some((idx, _)), Some(up)) => Some(
                (
                    wrapped_modulo_add_spec(idx as int, if up { -1 } else { 1 }, 4) as i16,
                    ButtonSelectionCause::UpDownInputs,
                ),
            ),
            (None, None) => None,
            (x, _) => x,
        },
    }
}

/// The sound played when the selection changes between two frames.
pub open spec fn selection_sound(old: Selection, new: Selection) -> Option<SoundEffectType> {
    match (old, new) {
        (Some(_), None) => Some(SoundEffectType::ButtonRelease),
        (Some((o, _)), Some((n, _))) => if o != n {
            Some(SoundEffectType::ButtonSelect)
        } else {
            None
        },
        (None, Some(_)) => Some(SoundEffectType::ButtonSelect),
        (None, None) => None,
    }
}

/// The button of the selected row.
pub open spec fn selected_button(s: Selection) -> Option<ButtonActionType> {
    match s {
        Some((idx, _)) => Some(menu_order()[(idx as int) % 4]),
        None => None,
    }
}

/// The button activated this frame: a button that the pointer just pressed,
/// or else the selected button when the confirm input was just released.
pub open spec fn activated_button(
    current: Selection,
    confirm_released: bool,
    first_pressed: Option<ButtonActionType>,
) -> Option<ButtonActionType> {
    match first_pressed {
        Some(b) => Some(b),
        None => if confirm_released {
            selected_button(current)
        } else {
            None
        },
    }
}

/// The first of the just-pressed actions that moves up (`true`) or down
/// (`false`) the menu.
pub open spec fn arrow_of(actions: Seq<MenuAction>) -> Option<bool>
    decreases actions.len(),
{
    if actions.len() == 0 {
        None
    } else {
        match actions[0] {
            MenuAction::NavigateUpKeyboard | MenuAction::NavigateUpGamepad => Some(true),
            MenuAction::NavigateDownKeyboard | MenuAction::NavigateDownGamepad => Some(false),
            _ => arrow_of(actions.drop_first()),
        }
    }
}

/// The first of the just-pressed actions that moves up (`true`) or down
/// (`false`) the menu.
pub fn arrow_input(just_pressed: &Vec<MenuAction>) -> (r: Option<bool>)
    ensures
        r == arrow_of(just_pressed@),
{
    let mut i: usize = 0;
    assert(just_pressed@.skip(0) == just_pressed@);
    while i < just_pressed.len()
        invariant
            i <= just_pressed.len(),
            arrow_of(just_pressed@) == arrow_of(just_pressed@.skip(i as int)),
        decreases just_pressed.len() - i,
    {
        assert(just_pressed@.skip(i as int).drop_first() == just_pressed@.skip(i + 1));
        match just_pressed[i] {
            MenuAction::NavigateUpKeyboard | MenuAction::NavigateUpGamepad => {
                return Some(true);
            },
            MenuAction::NavigateDownKeyboard | MenuAction::NavigateDownGamepad => {
                return Some(false);
            },
            _ => {},
        }
        i = i + 1;
    }
    None
}

/// The action of the first button whose interaction is `wanted`.
pub open spec fn first_with(buttons: Seq<(ButtonActionType, Interaction)>, wanted: Interaction) -> Option<
    ButtonActionType,
>
    decreases buttons.len(),
{
    if buttons.len() == 0 {
        None
    } else if buttons[0].1 == wanted {
        Some(buttons[0].0)
    } else {
        first_with(buttons.drop_first(), wanted)
    }
}

/// The action of the first button whose interaction is `wanted`.
pub fn first_button_with(buttons: &Vec<(ButtonActionType, Interaction)>, wanted: Interaction) -> (r:
    Option<ButtonActionType>)
    ensures
        r == first_with(buttons@, wanted),
{
    let mut i: usize = 0;
    assert(buttons@.skip(0) == buttons@);
    while i < buttons.len()
        invariant
            i <= buttons.len(),
            first_with(buttons@, wanted) == first_with(buttons@.skip(i as int), wanted),
        decreases buttons.len() - i,
    {
        assert(buttons@.skip(i as int).drop_first() == buttons@.skip(i + 1));
        let (action, interaction) = buttons[i];
        if interaction == wanted {
            return Some(action);
        }
        i = i + 1;
    }
    None
}

/// What the main menu observed on one frame.
pub struct MainMenuInput {
    /// The first button the pointer hovers.
    pub hovered: Option<ButtonActionType>,
    /// The first up (`true`) or down (`false`) input just pressed; `None`
    /// also when no menu explorer exists.
    pub arrow: Option<bool>,
    /// Whether the confirm input was just released (`false` when no menu
    /// explorer exists).
    pub confirm_released: bool,
    /// The first button whose interaction just changed to pressed.
    pub first_pressed: Option<ButtonActionType>,
}

/// What the main menu does on one frame.
pub struct MainMenuFrame {
    /// The selection sound to play, if any.
    pub selection_sound: Option<SoundEffectType>,
    /// The button activated this frame; its event is sent together with the
    /// confirm sound.
    pub activated: Option<ButtonActionType>,
    /// The button drawn as selected from now on.
    pub highlighted: Option<ButtonActionType>,
}

/// The main menu's selection between frames.
pub struct MainMenuUIState {
    current_selected_button_and_cause: Selection,
}

impl View for MainMenuUIState {
    type V = Selection;

    closed spec fn view(&self) -> Selection {
        self.current_selected_button_and_cause
    }
}

impl MainMenuUIState {
    #[verifier::type_invariant]
    closed spec fn inv(&self) -> bool {
        selection_in_menu(self.current_selected_button_and_cause)
    }

    /// Nothing is selected.
    pub fn new() -> (r: Self)
        ensures
            r@ is None,
    {
        MainMenuUIState { current_selected_button_and_cause: None }
    }

    /// The current selection.
    pub fn selection(&self) -> (r: Selection)
        ensures
            r == self@,
            selection_in_menu(r),
    {
        proof {
            use_type_invariant(self);
        }
        self.current_selected_button_and_cause
    }

    /// Advances the menu by one frame: computes the next selection, the sound
    /// to play, the activated button and the button to draw as selected.
    pub fn step(&mut self, input: &MainMenuInput) -> (frame: MainMenuFrame)
        ensures
            final(self)@ == next_selection(old(self)@, input.arrow, input.hovered),
            selection_in_menu(final(self)@),
            frame.selection_sound == selection_sound(old(self)@, final(self)@),
            frame.activated == activated_button(
                old(self)@,
                input.confirm_released,
                input.first_pressed,
            ),
            frame.highlighted == selected_button(final(self)@),
            input.first_pressed matches Some(b) ==> frame.activated == Some(b),
            input.first_pressed is None && !input.confirm_released ==> frame.activated is None,
            input.first_pressed is None && input.confirm_released ==> frame.activated == (match old(
                self,
            )@ {
                Some((i, _)) => Some(menu_order()[i as int]),
                None => None::<ButtonActionType>,
            }),
    {
        proof {
            use_type_invariant(&*self);
        }
        let current = self.current_selected_button_and_cause;
        let order = main_menu_button_order();

        let confirmed: Option<ButtonActionType> = match current {
            Some((idx, _)) => if input.confirm_released {
                Some(order[(idx as usize) % 4])
            } else {
                None
            },
            None => None,
        };

        let next: Selection = match input.hovered {
            Some(h) => match main_menu_position(h) {
                Some(i) => Some((i, ButtonSelectionCause::MouseOver)),
                None => None,
            },
            None => match (current, input.arrow) {
                (None, Some(_)) => Some((0, ButtonSelectionCause::UpDownInputs)),
                (Some((_, ButtonSelectionCause::MouseOver)), None) => None,
                (Some((idx, _)), Some(up)) => Some(
                    (
                        wrapped_modulo_add(idx, bool_to_plus_minus_1(up), 4),
                        ButtonSelectionCause::UpDownInputs,
                    ),
                ),
                (None, None) => None,
                (x, _) => x,
            },
        };

        let sound: Option<SoundEffectType> = match (current, next) {
            (Some(_), None) => Some(SoundEffectType::ButtonRelease),
            (Some((o, _)), Some((n, _))) => if o != n {
                Some(SoundEffectType::ButtonSelect)
            } else {
                None
            },
            (None, Some(_)) => Some(SoundEffectType::ButtonSelect),
            (None, None) => None,
        };

        let activated = match input.first_pressed {
            Some(b) => Some(b),
            None => confirmed,
        };

        let highlighted: Option<ButtonActionType> = match next {
            Some((idx, _)) => Some(order[(idx % 4) as usize]),
            None => None,
        };

        self.current_selected_button_and_cause = next;
        MainMenuFrame { selection_sound: sound, activated, highlighted }
    }
}

/// The sprite-sheet frame of a main menu button: `1` (pressed look) for the
/// highlighted button, `0` for the others.
pub open spec fn texture_index_of(highlighted: Option<ButtonActionType>, action: ButtonActionType) -> usize {
    if highlighted == Some(action) {
        1
    } else {
        0
    }
}

/// The sprite-sheet frame of a main menu button: `1` (pressed look) for the
/// highlighted button, `0` for the others.
pub fn button_texture_index(highlighted: Option<ButtonActionType>, action: ButtonActionType) -> (r:
    usize)
    ensures
        r == texture_index_of(highlighted, action),
{
    match highlighted {
        Some(h) => if h == action {
            1
        } else {
            0
        },
        None => 0,
    }
}

/// The selected row, if any.
pub open spec fn row_of(s: Selection) -> Option<i16> {
    match s {
        Some((idx, _)) => Some(idx),
        None => None,
    }
}

/// Moving one row, by the wrapped addition on the four-button menu.
pub open spec fn move_row(idx: int, up: bool) -> int {
    wrapped_modulo_add_spec(idx, if up { -1 } else { 1 }, 4)
}

/// Law: for a divisor that fits an `isize`, the wrapped sum lies in
/// `0..modulo` (and below `i16::MAX`).
pub proof fn law_wrapped_modulo_add_in_range(val1: i16, epsilon: i8, modulo: usize)
    requires
        0 < modulo <= isize::MAX,
    ensures
        0 <= wrapped_modulo_add_spec(val1 as int, epsilon as int, modulo) < modulo,
        0 <= wrapped_modulo_add_spec(val1 as int, epsilon as int, modulo) < button_idx_max(),
{
    assert((modulo as isize) as int == modulo as int);
}

/// Law: on the main menu, moving up one row then down one row, or down then
/// up, returns to the row one started from.
pub proof fn law_up_down_inverse(idx: i16, up: bool)
    requires
        0 <= idx < 4,
    ensures
        move_row(move_row(idx as int, up), !up) == idx,
{
    assert((4usize as isize) as int == 4) by (bit_vector);
}

/// Law: four moves in the same direction return to the row one started from.
pub proof fn law_four_moves_cycle(idx: i16, up: bool)
    requires
        0 <= idx < 4,
    ensures
        move_row(move_row(move_row(move_row(idx as int, up), up), up), up) == idx,
{
    assert((4usize as isize) as int == 4) by (bit_vector);
}

/// Law: whatever the inputs, the selection always names one of the menu's
/// rows (or nothing).
pub proof fn law_selection_stays_in_menu(
    current: Selection,
    arrow: Option<bool>,
    hovered: Option<ButtonActionType>,
)
    requires
        selection_in_menu(current),
    ensures
        selection_in_menu(next_selection(current, arrow, hovered)),
{
    assert((4usize as isize) as int == 4) by (bit_vector);
}

/// Law: hovering a menu button selects that button, whatever was selected
/// before and whatever the arrow inputs.
pub proof fn law_hover_wins(current: Selection, arrow: Option<bool>, hovered: ButtonActionType)
    requires
        menu_order().contains(hovered),
    ensures
        selected_button(next_selection(current, arrow, Some(hovered))) == Some(hovered),
{
    let i = choose|i: int| 0 <= i < 4 && menu_order()[i] == hovered;
    assert(menu_order()[i] == hovered);
}

/// Law: a sound is played exactly when the selected row changes (including
/// when a selection appears or disappears).
pub proof fn law_sound_iff_row_changes(old: Selection, new: Selection)
    ensures
        selection_sound(old, new) is Some <==> row_of(old) != row_of(new),
{
}

/// Law: exactly zero or one button looks pressed: two different buttons
/// never both show the pressed frame, and when a row is selected its button
/// does.
pub proof fn law_at_most_one_pressed_look(s: Selection, a: ButtonActionType, b: ButtonActionType)
    requires
        selection_in_menu(s),
    ensures
        texture_index_of(selected_button(s), a) == 1 && texture_index_of(selected_button(s), b)
            == 1 ==> a == b,
        s is Some ==> texture_index_of(selected_button(s), selected_button(s)->Some_0) == 1,
{
}

/// Law: confirming activates the button that was drawn as selected when the
/// frame began, unless a click names another button; with nothing selected
/// and no click, confirming does nothing.
pub proof fn law_confirm_activates_shown_button(current: Selection, clicked: Option<ButtonActionType>)
    ensures
        clicked is None ==> activated_button(current, true, clicked) == selected_button(current),
        clicked matches Some(b) ==> activated_button(current, true, clicked) == Some(b),
        activated_button(current, false, None) is None,
{
}

/// Law: a button that the pointer just pressed is activated in that frame,
/// whether or not the confirm input was released too; with no click and no
/// confirm, nothing is activated.
pub proof fn law_click_activates_whatever_confirm(
    current: Selection,
    confirm_released: bool,
    clicked: ButtonActionType,
)
    ensures
        activated_button(current, confirm_released, Some(clicked)) == Some(clicked),
        activated_button(current, false, None) is None,
{
}

/// Law: with nothing hovered and no arrow input, a selection made by the
/// arrows stays as it is.
pub proof fn law_idle_keeps_arrow_selection(idx: i16)
    ensures
        next_selection(Some((idx, ButtonSelectionCause::UpDownInputs)), None, None) == Some(
            (idx, ButtonSelectionCause::UpDownInputs),
        ),
{
}

/// Law: with nothing hovered and no arrow input, a selection made by
/// hovering is dropped.
pub proof fn law_unhover_clears_selection(idx: i16)
    ensures
        next_selection(Some((idx, ButtonSelectionCause::MouseOver)), None, None) is None,
{
}

} // verus!
