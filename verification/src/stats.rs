//! The texts listing how many mobs of each kind were destroyed.
use vstd::prelude::*;

use std::collections::HashMap;

verus! {

broadcast use vstd::std_specs::hash::group_hash_axioms;

/// The character of a decimal digit.
pub open spec fn digit_char(d: nat) -> char {
    if d == 0 {
        '0'
    } else if d == 1 {
        '1'
    } else if d == 2 {
        '2'
    } else if d == 3 {
        '3'
    } else if d == 4 {
        '4'
    } else if d == 5 {
        '5'
    } else if d == 6 {
        '6'
    } else if d == 7 {
        '7'
    } else if d == 8 {
        '8'
    } else {
        '9'
    }
}

/// The decimal digits of `n`, most significant first, without leading zeros.
pub open spec fn decimal(n: nat) -> Seq<char>
    decreases n,
{
    if n < 10 {
        seq![digit_char(n)]
    } else {
        decimal(n / 10).push(digit_char(n % 10))
    }
}

/// The decimal form of a count, as `ToString::to_string` on `usize`
/// writes it: the digits of the number, most significant first, with no
/// sign, padding or separator. Its contract says exactly that.
#[verifier::external_body]
fn count_text(n: usize) -> (r: String)
    ensures
        r@ == decimal(n as nat),
{
    n.to_string()
}

/// One line of the listing: `"<mob>: <count>"`.
pub open spec fn kill_line(entry: (String, usize)) -> Seq<char> {
    entry.0@ + ": "@ + decimal(entry.1 as nat)
}

/// The lines of the listing joined with newlines.
pub open spec fn kill_lines(entries: Seq<(String, usize)>) -> Seq<char>
    decreases entries.len(),
{
    if entries.len() == 0 {
        Seq::empty()
    } else if entries.len() == 1 {
        kill_line(entries[0])
    } else {
        kill_lines(entries.drop_last()) + "\n"@ + kill_line(entries.last())
    }
}

/// Formats mob/kill-count pairs, one `"<mob>: <count>"` line per pair, in
/// the order given, joined with newlines.
pub fn pprint_mob_kils_from_data(data: &Vec<(String, usize)>) -> (r: String)
    ensures
        r@ == kill_lines(data@),
{
    let mut out = String::new();
    let mut i: usize = 0;
    while i < data.len()
        invariant
            i <= data.len(),
            out@ == kill_lines(data@.take(i as int)),
        decreases data.len() - i,
    {
        assert(data@.take(i + 1).drop_last() == data@.take(i as int));
        let (mob, count) = &data[i];
        if i != 0 {
            out.append("\n");
        }
        out.append(mob.as_str());
        out.append(": ");
        let digits = count_text(*count);
        out.append(digits.as_str());
        proof {
            if i == 0 {
                assert(data@.take(1) == seq![data@[0]]);
            }
        }
        i = i + 1;
    }
    assert(data@.take(data.len() as int) == data@);
    out
}

/// The listing for the user `user_id`: `"No mobs killed"` when the user has
/// no record, otherwise the user's mob/kill-count lines.
pub fn pprint_mob_kills_from_data(data: &HashMap<isize, Vec<(String, usize)>>, user_id: isize) -> (r:
    String)
    ensures
        r@ == (if data@.contains_key(user_id) {
            kill_lines(data@[user_id]@)
        } else {
            "No mobs killed"@
        }),
{
    match data.get(&user_id) {
        None => String::from_str("No mobs killed"),
        Some(counts) => pprint_mob_kils_from_data(counts),
    }
}

} // verus!
