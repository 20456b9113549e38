//! The character carousel of a player on the character selection screen: a
//! ring of characters that the left and right buttons rotate; three of them
//! are visible, the middle one is the player's pick.
use vstd::prelude::*;

use std::collections::VecDeque;

use crate::button::ButtonActionType;
use crate::player::{all_characters, CharacterType};

verus! {

broadcast use vstd::std_specs::vecdeque::group_vec_dequeue_axioms;

/// The ring after moving its last character to the front.
pub open spec fn rotated_right(s: Seq<CharacterType>) -> Seq<CharacterType> {
    if s.len() == 0 {
        s
    } else {
        seq![s.last()] + s.drop_last()
    }
}

/// The ring after moving its first character to the back.
pub open spec fn rotated_left(s: Seq<CharacterType>) -> Seq<CharacterType> {
    if s.len() == 0 {
        s
    } else {
        s.drop_first().push(s[0])
    }
}

/// The three visible characters: the last (left), the first (middle, the
/// pick) and the second (right); there are none when fewer than two
/// characters are in the ring.
pub open spec fn visible_of(s: Seq<CharacterType>) -> Option<Seq<CharacterType>> {
    if s.len() >= 2 {
        Some(seq![s.last(), s[0], s[1]])
    } else {
        None
    }
}

/// A carousel of playable characters for player `player_idx`.
pub struct CharacterCarousel {
    pub player_idx: u8,
    pub characters: VecDeque<CharacterType>,
}

impl CharacterCarousel {
    /// A carousel holding every character in declaration order.
    pub fn new(player_idx: u8) -> (r: Self)
        ensures
            r.player_idx == player_idx,
            r.characters@ == all_characters(),
    {
        let mut characters: VecDeque<CharacterType> = VecDeque::new();
        characters.push_back(CharacterType::Captain);
        characters.push_back(CharacterType::Juggernaut);
        CharacterCarousel { player_idx, characters }
    }

    /// Rotates the character list to the right: the last character moves to
    /// the front.
    pub fn rotate_right(&mut self)
        ensures
            final(self).characters@ == rotated_right(old(self).characters@),
            final(self).player_idx == old(self).player_idx,
    {
        if let Some(last_element) = self.characters.pop_back() {
            self.characters.push_front(last_element);
        }
    }

    /// Rotates the character list to the left: the first character moves to
    /// the back.
    pub fn rotate_left(&mut self)
        ensures
            final(self).characters@ == rotated_left(old(self).characters@),
            final(self).player_idx == old(self).player_idx,
    {
        if let Some(first_element) = self.characters.pop_front() {
            self.characters.push_back(first_element);
        }
    }

    /// The three visible characters (left, middle, right).
    pub fn get_visible_characters(&self) -> (r: Option<[CharacterType; 3]>)
        ensures
            r.is_some() == visible_of(self.characters@).is_some(),
            r matches Some(a) ==> a@ == visible_of(self.characters@)->Some_0,
    {
        let n = self.characters.len();
        if n >= 2 {
            let left = self.characters[n - 1];
            let middle = self.characters[0];
            let right = self.characters[1];
            let r = [left, middle, right];
            assert(r@ == seq![left, middle, right]);
            Some(r)
        } else {
            None
        }
    }

    /// Applies a button event: this player's right button rotates right, the
    /// left button rotates left, and the new visible characters are returned;
    /// any other event leaves the carousel as it is and returns `None`.
    pub fn handle_button(&mut self, action: ButtonActionType) -> (r: Option<[CharacterType; 3]>)
        ensures
            final(self).player_idx == old(self).player_idx,
            final(self).characters@ == (match action {
                ButtonActionType::CharacterSelectRight(i) => if i == old(self).player_idx {
                    rotated_right(old(self).characters@)
                } else {
                    old(self).characters@
                },
                ButtonActionType::CharacterSelectLeft(i) => if i == old(self).player_idx {
                    rotated_left(old(self).characters@)
                } else {
                    old(self).characters@
                },
                _ => old(self).characters@,
            }),
            (action == ButtonActionType::CharacterSelectRight(old(self).player_idx) || action
                == ButtonActionType::CharacterSelectLeft(old(self).player_idx)) ==> (r.is_some()
                == visible_of(final(self).characters@).is_some() && (r matches Some(a) ==> a@
                == visible_of(final(self).characters@)->Some_0)),
            !(action == ButtonActionType::CharacterSelectRight(old(self).player_idx) || action
                == ButtonActionType::CharacterSelectLeft(old(self).player_idx)) ==> r is None,
    {
        match action {
            ButtonActionType::CharacterSelectRight(i) => {
                if i == self.player_idx {
                    self.rotate_right();
                    self.get_visible_characters()
                } else {
                    None
                }
            },
            ButtonActionType::CharacterSelectLeft(i) => {
                if i == self.player_idx {
                    self.rotate_left();
                    self.get_visible_characters()
                } else {
                    None
                }
            },
            _ => None,
        }
    }
}

/// Rotating right `n` times.
pub open spec fn rotated_right_n(s: Seq<CharacterType>, n: nat) -> Seq<CharacterType>
    decreases n,
{
    if n == 0 {
        s
    } else {
        rotated_right(rotated_right_n(s, (n - 1) as nat))
    }
}

/// Law: a left rotation undoes a right rotation, and a right rotation undoes
/// a left rotation.
pub proof fn law_rotations_undo_each_other(s: Seq<CharacterType>)
    ensures
        rotated_left(rotated_right(s)) == s,
        rotated_right(rotated_left(s)) == s,
{
    if s.len() > 0 {
        assert(rotated_left(rotated_right(s)) =~= s);
        assert(rotated_right(rotated_left(s)) =~= s);
    }
}

/// Law: rotating keeps the same characters, each as often as before.
pub proof fn law_rotation_keeps_characters(s: Seq<CharacterType>)
    ensures
        rotated_right(s).to_multiset() == s.to_multiset(),
        rotated_left(s).to_multiset() == s.to_multiset(),
        rotated_right(s).len() == s.len(),
        rotated_left(s).len() == s.len(),
{
    broadcast use vstd::multiset::group_multiset_axioms;
    if s.len() > 0 {
        let first = seq![s[0]];
        let last = seq![s.last()];
        assert(rotated_right(s) == last + s.drop_last());
        vstd::seq_lib::lemma_multiset_commutative(last, s.drop_last());
        vstd::seq_lib::lemma_multiset_commutative(s.drop_last(), last);
        assert(s.drop_last() + last == s);
        assert(last.to_multiset().add(s.drop_last().to_multiset()) =~= s.drop_last().to_multiset().add(
            last.to_multiset(),
        ));
        assert(rotated_left(s) == s.drop_first() + first);
        vstd::seq_lib::lemma_multiset_commutative(s.drop_first(), first);
        vstd::seq_lib::lemma_multiset_commutative(first, s.drop_first());
        assert(first + s.drop_first() == s);
        assert(first.to_multiset().add(s.drop_first().to_multiset()) =~= s.drop_first().to_multiset().add(
            first.to_multiset(),
        ));
    }
}

/// Law: rotating right as many times as there are characters returns to the
/// start.
pub proof fn law_full_turn(s: Seq<CharacterType>)
    ensures
        rotated_right_n(s, s.len()) == s,
{
    lemma_rotated_right_n(s, s.len());
    assert(s.skip(0) + s.take(0) =~= s);
}

/// Rotating right `n <= len` times moves the last `n` characters to the
/// front.
proof fn lemma_rotated_right_n(s: Seq<CharacterType>, n: nat)
    requires
        n <= s.len(),
    ensures
        rotated_right_n(s, n) == s.skip(s.len() - n) + s.take(s.len() - n),
    decreases n,
{
    if n == 0 {
        assert(s.skip(s.len() as int) + s.take(s.len() as int) =~= s);
    } else {
        lemma_rotated_right_n(s, (n - 1) as nat);
        let prev = s.skip(s.len() - (n - 1)) + s.take(s.len() - (n - 1));
        let k = s.len() - n;
        assert(prev.len() == s.len());
        assert(prev.last() == s[k]);
        assert(seq![prev.last()] + prev.drop_last() =~= s.skip(k) + s.take(k));
    }
}

/// Law: pressing right brings the left visible character to the middle;
/// pressing left brings the right visible character to the middle.
pub proof fn law_rotation_moves_neighbour_to_middle(s: Seq<CharacterType>)
    requires
        s.len() >= 2,
    ensures
        visible_of(rotated_right(s))->Some_0[1] == visible_of(s)->Some_0[0],
        visible_of(rotated_left(s))->Some_0[1] == visible_of(s)->Some_0[2],
{
}

} // verus!
