//! Reading the player's typed answers: the action menu, a direction, a
//! target. Prompting and reading lines stay with the program; these
//! functions decide what a trimmed line means.

use vstd::prelude::*;

use crate::spatial::position::{dir_offset, Direction};
use crate::text::{ascii_lower_char, ascii_lowercase, parse_usize, usize_literal};

verus! {

/// Actions the player can take during their turn.
#[derive(Debug, Clone, Copy, PartialEq, Eq, Structural)]
pub enum PlayerAction {
    /// Move one square in the given direction.
    Move(Direction),
    /// Attack the enemy at the given index of the enemy list.
    Attack(usize),
    /// End the turn, forfeiting any remaining actions.
    EndTurn,
    /// Quit the game.
    Quit,
}

/// An entry of the action menu.
#[derive(Debug, Clone, Copy, PartialEq, Eq, Structural)]
pub enum MenuChoice {
    Move,
    Attack,
    EndTurn,
    Quit,
    /// Anything else.
    Invalid,
}

/// An answer to the direction prompt.
#[derive(Debug, Clone, Copy, PartialEq, Eq, Structural)]
pub enum DirectionInput {
    Chosen(Direction),
    /// "back" or "cancel".
    Cancelled,
    /// Anything else.
    Invalid,
}

/// An answer to the target prompt.
#[derive(Debug, Clone, Copy, PartialEq, Eq, Structural)]
pub enum TargetInput {
    /// The enemy index of the chosen list entry.
    Chosen(usize),
    /// "back", "cancel" or "0".
    Cancelled,
    /// A number outside the list.
    OutOfRange,
    /// Not a number.
    Invalid,
}

/// `c` with an ASCII capital turned into its small letter.
pub fn to_ascii_lower(c: char) -> (r: char)
    ensures
        r == ascii_lower_char(c),
{
    if 'A' <= c && c <= 'Z' {
        let b = c as u8;
        (b + 32) as char
    } else {
        c
    }
}

/// `input` equals `word` once its ASCII letters are lowercased.
pub fn equals_ignoring_ascii_case(input: &str, word: &str) -> (r: bool)
    ensures
        r == (ascii_lowercase(input@) == word@),
{
    let n = input.unicode_len();
    let m = word.unicode_len();
    if n != m {
        proof {
            assert(ascii_lowercase(input@).len() == input@.len());
        }
        return false;
    }
    for i in 0..n
        invariant
            n == input@.len(),
            m == word@.len(),
            n == m,
            forall|j: int| 0 <= j < i ==> ascii_lower_char(input@[j]) == word@[j],
    {
        if to_ascii_lower(input.get_char(i)) != word.get_char(i) {
            proof {
                assert(ascii_lowercase(input@)[i as int] != word@[i as int]);
            }
            return false;
        }
    }
    proof {
        assert(ascii_lowercase(input@) =~= word@);
    }
    true
}

/// What the first character of a menu answer selects.
pub open spec fn menu_choice_of(c: char) -> MenuChoice {
    let l = ascii_lower_char(c);
    if l == 'm' {
        MenuChoice::Move
    } else if l == 'a' {
        MenuChoice::Attack
    } else if l == 'e' {
        MenuChoice::EndTurn
    } else if l == 'q' {
        MenuChoice::Quit
    } else {
        MenuChoice::Invalid
    }
}

/// The menu entry a trimmed answer selects, by its first letter in either
/// case; `None` for an empty answer.
pub fn parse_menu_choice(line: &str) -> (r: Option<MenuChoice>)
    ensures
        r == (if line@.len() == 0 {
            None
        } else {
            Some(menu_choice_of(line@[0]))
        }),
{
    if line.unicode_len() == 0 {
        return None;
    }
    let c = to_ascii_lower(line.get_char(0));
    let choice = if c == 'm' {
        MenuChoice::Move
    } else if c == 'a' {
        MenuChoice::Attack
    } else if c == 'e' {
        MenuChoice::EndTurn
    } else if c == 'q' {
        MenuChoice::Quit
    } else {
        MenuChoice::Invalid
    };
    Some(choice)
}

/// What a direction answer means, compared without regard to ASCII case.
pub open spec fn direction_input_of(s: Seq<char>) -> DirectionInput {
    let l = ascii_lowercase(s);
    if l == "n"@ || l == "north"@ {
        DirectionInput::Chosen(Direction::North)
    } else if l == "s"@ || l == "south"@ {
        DirectionInput::Chosen(Direction::South)
    } else if l == "e"@ || l == "east"@ {
        DirectionInput::Chosen(Direction::East)
    } else if l == "w"@ || l == "west"@ {
        DirectionInput::Chosen(Direction::West)
    } else if l == "ne"@ || l == "northeast"@ {
        DirectionInput::Chosen(Direction::NorthEast)
    } else if l == "nw"@ || l == "northwest"@ {
        DirectionInput::Chosen(Direction::NorthWest)
    } else if l == "se"@ || l == "southeast"@ {
        DirectionInput::Chosen(Direction::SouthEast)
    } else if l == "sw"@ || l == "southwest"@ {
        DirectionInput::Chosen(Direction::SouthWest)
    } else if l == "back"@ || l == "cancel"@ {
        DirectionInput::Cancelled
    } else {
        DirectionInput::Invalid
    }
}

/// What a trimmed answer to the direction prompt means: a direction by
/// letter or name, a cancellation, or nothing valid; `None` for an empty
/// answer.
pub fn parse_direction(input: &str) -> (r: Option<DirectionInput>)
    ensures
        r == (if input@.len() == 0 {
            None
        } else {
            Some(direction_input_of(input@))
        }),
{
    if input.unicode_len() == 0 {
        return None;
    }
    let d = if equals_ignoring_ascii_case(input, "n") || equals_ignoring_ascii_case(input, "north") {
        DirectionInput::Chosen(Direction::North)
    } else if equals_ignoring_ascii_case(input, "s") || equals_ignoring_ascii_case(input, "south") {
        DirectionInput::Chosen(Direction::South)
    } else if equals_ignoring_ascii_case(input, "e") || equals_ignoring_ascii_case(input, "east") {
        DirectionInput::Chosen(Direction::East)
    } else if equals_ignoring_ascii_case(input, "w") || equals_ignoring_ascii_case(input, "west") {
        DirectionInput::Chosen(Direction::West)
    } else if equals_ignoring_ascii_case(input, "ne") || equals_ignoring_ascii_case(
        input,
        "northeast",
    ) {
        DirectionInput::Chosen(Direction::NorthEast)
    } else if equals_ignoring_ascii_case(input, "nw") || equals_ignoring_ascii_case(
        input,
        "northwest",
    ) {
        DirectionInput::Chosen(Direction::NorthWest)
    } else if equals_ignoring_ascii_case(input, "se") || equals_ignoring_ascii_case(
        input,
        "southeast",
    ) {
        DirectionInput::Chosen(Direction::SouthEast)
    } else if equals_ignoring_ascii_case(input, "sw") || equals_ignoring_ascii_case(
        input,
        "southwest",
    ) {
        DirectionInput::Chosen(Direction::SouthWest)
    } else if equals_ignoring_ascii_case(input, "back") || equals_ignoring_ascii_case(
        input,
        "cancel",
    ) {
        DirectionInput::Cancelled
    } else {
        DirectionInput::Invalid
    };
    Some(d)
}

/// The only adjacent enemy, chosen without asking, when there is exactly one.
pub fn only_target(adjacent_enemies: &[(usize, String)]) -> (r: Option<usize>)
    ensures
        r == (if adjacent_enemies@.len() == 1 {
            Some(adjacent_enemies@[0].0)
        } else {
            None
        }),
{
    if adjacent_enemies.len() == 1 {
        Some(adjacent_enemies[0].0)
    } else {
        None
    }
}

/// What an answer to the target prompt means, over a list of `count`
/// entries whose enemy indices are `indices`.
pub open spec fn target_input_of(s: Seq<char>, indices: Seq<usize>) -> TargetInput {
    let l = ascii_lowercase(s);
    if l == "back"@ || l == "cancel"@ || l == "0"@ {
        TargetInput::Cancelled
    } else {
        match usize_literal(s) {
            Some(n) => if 1 <= n <= indices.len() {
                TargetInput::Chosen(indices[n - 1])
            } else {
                TargetInput::OutOfRange
            },
            None => TargetInput::Invalid,
        }
    }
}

/// The enemy indices of a list of (index, name) pairs.
pub open spec fn indices_of(adjacent: Seq<(usize, String)>) -> Seq<usize> {
    adjacent.map_values(|p: (usize, String)| p.0)
}

/// What a trimmed answer to the target prompt means: the enemy of the
/// numbered entry (counting from 1), a cancellation, a number outside the
/// list, or not a number; `None` for an empty answer.
pub fn parse_target(input: &str, adjacent_enemies: &[(usize, String)]) -> (r: Option<TargetInput>)
    ensures
        r == (if input@.len() == 0 {
            None
        } else {
            Some(target_input_of(input@, indices_of(adjacent_enemies@)))
        }),
{
    if input.unicode_len() == 0 {
        return None;
    }
    if equals_ignoring_ascii_case(input, "back") || equals_ignoring_ascii_case(input, "cancel")
        || equals_ignoring_ascii_case(input, "0") {
        return Some(TargetInput::Cancelled);
    }
    // Lowercasing leaves digits and '+' alone, so the number reads the same.
    let t = match parse_usize(input) {
        Some(n) => {
            if n >= 1 && n <= adjacent_enemies.len() {
                TargetInput::Chosen(adjacent_enemies[n - 1].0)
            } else {
                TargetInput::OutOfRange
            }
        },
        None => TargetInput::Invalid,
    };
    Some(t)
}

/// A direction answer names the direction it spells, by its letters or its
/// full name in any ASCII case, and that direction steps the way the compass
/// word says: north one square up (y - 1), south down (y + 1), east right
/// (x + 1), west left (x - 1), and the diagonals both ways at once. "back"
/// and "cancel" cancel.
pub proof fn lemma_direction_words(s: Seq<char>)
    ensures
        ascii_lowercase(s) == "n"@ || ascii_lowercase(s) == "north"@ ==> direction_input_of(s)
            == DirectionInput::Chosen(Direction::North) && dir_offset(Direction::North) == (0int, -1int),
        ascii_lowercase(s) == "s"@ || ascii_lowercase(s) == "south"@ ==> direction_input_of(s)
            == DirectionInput::Chosen(Direction::South) && dir_offset(Direction::South) == (0int, 1int),
        ascii_lowercase(s) == "e"@ || ascii_lowercase(s) == "east"@ ==> direction_input_of(s)
            == DirectionInput::Chosen(Direction::East) && dir_offset(Direction::East) == (1int, 0int),
        ascii_lowercase(s) == "w"@ || ascii_lowercase(s) == "west"@ ==> direction_input_of(s)
            == DirectionInput::Chosen(Direction::West) && dir_offset(Direction::West) == (-1int, 0int),
        ascii_lowercase(s) == "ne"@ || ascii_lowercase(s) == "northeast"@ ==> direction_input_of(s)
            == DirectionInput::Chosen(Direction::NorthEast) && dir_offset(Direction::NorthEast) == (1int, -1int),
        ascii_lowercase(s) == "nw"@ || ascii_lowercase(s) == "northwest"@ ==> direction_input_of(s)
            == DirectionInput::Chosen(Direction::NorthWest) && dir_offset(Direction::NorthWest) == (-1int, -1int),
        ascii_lowercase(s) == "se"@ || ascii_lowercase(s) == "southeast"@ ==> direction_input_of(s)
            == DirectionInput::Chosen(Direction::SouthEast) && dir_offset(Direction::SouthEast) == (1int, 1int),
        ascii_lowercase(s) == "sw"@ || ascii_lowercase(s) == "southwest"@ ==> direction_input_of(s)
            == DirectionInput::Chosen(Direction::SouthWest) && dir_offset(Direction::SouthWest) == (-1int, 1int),
        ascii_lowercase(s) == "back"@ || ascii_lowercase(s) == "cancel"@ ==> direction_input_of(s)
            == DirectionInput::Cancelled,
{
    reveal_strlit("n");
    reveal_strlit("north");
    reveal_strlit("s");
    reveal_strlit("south");
    reveal_strlit("e");
    reveal_strlit("east");
    reveal_strlit("w");
    reveal_strlit("west");
    reveal_strlit("ne");
    reveal_strlit("northeast");
    reveal_strlit("nw");
    reveal_strlit("northwest");
    reveal_strlit("se");
    reveal_strlit("southeast");
    reveal_strlit("sw");
    reveal_strlit("southwest");
    reveal_strlit("back");
    reveal_strlit("cancel");
    // Each word differs from every word checked before it, by length or by a letter.
    assert("north"@.len() != "n"@.len());
    assert("s"@[0] != "n"@[0]
        && "s"@.len() != "north"@.len());
    assert("south"@.len() != "n"@.len()
        && "south"@[0] != "north"@[0]
        && "south"@.len() != "s"@.len());
    assert("e"@[0] != "n"@[0]
        && "e"@.len() != "north"@.len()
        && "e"@[0] != "s"@[0]
        && "e"@.len() != "south"@.len());
    assert("east"@.len() != "n"@.len()
        && "east"@.len() != "north"@.len()
        && "east"@.len() != "s"@.len()
        && "east"@.len() != "south"@.len()
        && "east"@.len() != "e"@.len());
    assert("w"@[0] != "n"@[0]
        && "w"@.len() != "north"@.len()
        && "w"@[0] != "s"@[0]
        && "w"@.len() != "south"@.len()
        && "w"@[0] != "e"@[0]
        && "w"@.len() != "east"@.len());
    assert("west"@.len() != "n"@.len()
        && "west"@.len() != "north"@.len()
        && "west"@.len() != "s"@.len()
        && "west"@.len() != "south"@.len()
        && "west"@.len() != "e"@.len()
        && "west"@[0] != "east"@[0]
        && "west"@.len() != "w"@.len());
    assert("ne"@.len() != "n"@.len()
        && "ne"@.len() != "north"@.len()
        && "ne"@.len() != "s"@.len()
        && "ne"@.len() != "south"@.len()
        && "ne"@.len() != "e"@.len()
        && "ne"@.len() != "east"@.len()
        && "ne"@.len() != "w"@.len()
        && "ne"@.len() != "west"@.len());
    assert("northeast"@.len() != "n"@.len()
        && "northeast"@.len() != "north"@.len()
        && "northeast"@.len() != "s"@.len()
        && "northeast"@.len() != "south"@.len()
        && "northeast"@.len() != "e"@.len()
        && "northeast"@.len() != "east"@.len()
        && "northeast"@.len() != "w"@.len()
        && "northeast"@.len() != "west"@.len()
        && "northeast"@.len() != "ne"@.len());
    assert("nw"@.len() != "n"@.len()
        && "nw"@.len() != "north"@.len()
        && "nw"@.len() != "s"@.len()
        && "nw"@.len() != "south"@.len()
        && "nw"@.len() != "e"@.len()
        && "nw"@.len() != "east"@.len()
        && "nw"@.len() != "w"@.len()
        && "nw"@.len() != "west"@.len()
        && "nw"@[1] != "ne"@[1]
        && "nw"@.len() != "northeast"@.len());
    assert("northwest"@.len() != "n"@.len()
        && "northwest"@.len() != "north"@.len()
        && "northwest"@.len() != "s"@.len()
        && "northwest"@.len() != "south"@.len()
        && "northwest"@.len() != "e"@.len()
        && "northwest"@.len() != "east"@.len()
        && "northwest"@.len() != "w"@.len()
        && "northwest"@.len() != "west"@.len()
        && "northwest"@.len() != "ne"@.len()
        && "northwest"@[5] != "northeast"@[5]
        && "northwest"@.len() != "nw"@.len());
    assert("se"@.len() != "n"@.len()
        && "se"@.len() != "north"@.len()
        && "se"@.len() != "s"@.len()
        && "se"@.len() != "south"@.len()
        && "se"@.len() != "e"@.len()
        && "se"@.len() != "east"@.len()
        && "se"@.len() != "w"@.len()
        && "se"@.len() != "west"@.len()
        && "se"@[0] != "ne"@[0]
        && "se"@.len() != "northeast"@.len()
        && "se"@[0] != "nw"@[0]
        && "se"@.len() != "northwest"@.len());
    assert("southeast"@.len() != "n"@.len()
        && "southeast"@.len() != "north"@.len()
        && "southeast"@.len() != "s"@.len()
        && "southeast"@.len() != "south"@.len()
        && "southeast"@.len() != "e"@.len()
        && "southeast"@.len() != "east"@.len()
        && "southeast"@.len() != "w"@.len()
        && "southeast"@.len() != "west"@.len()
        && "southeast"@.len() != "ne"@.len()
        && "southeast"@[0] != "northeast"@[0]
        && "southeast"@.len() != "nw"@.len()
        && "southeast"@[0] != "northwest"@[0]
        && "southeast"@.len() != "se"@.len());
    assert("sw"@.len() != "n"@.len()
        && "sw"@.len() != "north"@.len()
        && "sw"@.len() != "s"@.len()
        && "sw"@.len() != "south"@.len()
        && "sw"@.len() != "e"@.len()
        && "sw"@.len() != "east"@.len()
        && "sw"@.len() != "w"@.len()
        && "sw"@.len() != "west"@.len()
        && "sw"@[0] != "ne"@[0]
        && "sw"@.len() != "northeast"@.len()
        && "sw"@[0] != "nw"@[0]
        && "sw"@.len() != "northwest"@.len()
        && "sw"@[1] != "se"@[1]
        && "sw"@.len() != "southeast"@.len());
    assert("southwest"@.len() != "n"@.len()
        && "southwest"@.len() != "north"@.len()
        && "southwest"@.len() != "s"@.len()
        && "southwest"@.len() != "south"@.len()
        && "southwest"@.len() != "e"@.len()
        && "southwest"@.len() != "east"@.len()
        && "southwest"@.len() != "w"@.len()
        && "southwest"@.len() != "west"@.len()
        && "southwest"@.len() != "ne"@.len()
        && "southwest"@[0] != "northeast"@[0]
        && "southwest"@.len() != "nw"@.len()
        && "southwest"@[0] != "northwest"@[0]
        && "southwest"@.len() != "se"@.len()
        && "southwest"@[5] != "southeast"@[5]
        && "southwest"@.len() != "sw"@.len());
    assert("back"@.len() != "n"@.len()
        && "back"@.len() != "north"@.len()
        && "back"@.len() != "s"@.len()
        && "back"@.len() != "south"@.len()
        && "back"@.len() != "e"@.len()
        && "back"@[0] != "east"@[0]
        && "back"@.len() != "w"@.len()
        && "back"@[0] != "west"@[0]
        && "back"@.len() != "ne"@.len()
        && "back"@.len() != "northeast"@.len()
        && "back"@.len() != "nw"@.len()
        && "back"@.len() != "northwest"@.len()
        && "back"@.len() != "se"@.len()
        && "back"@.len() != "southeast"@.len()
        && "back"@.len() != "sw"@.len()
        && "back"@.len() != "southwest"@.len());
    assert("cancel"@.len() != "n"@.len()
        && "cancel"@.len() != "north"@.len()
        && "cancel"@.len() != "s"@.len()
        && "cancel"@.len() != "south"@.len()
        && "cancel"@.len() != "e"@.len()
        && "cancel"@.len() != "east"@.len()
        && "cancel"@.len() != "w"@.len()
        && "cancel"@.len() != "west"@.len()
        && "cancel"@.len() != "ne"@.len()
        && "cancel"@.len() != "northeast"@.len()
        && "cancel"@.len() != "nw"@.len()
        && "cancel"@.len() != "northwest"@.len()
        && "cancel"@.len() != "se"@.len()
        && "cancel"@.len() != "southeast"@.len()
        && "cancel"@.len() != "sw"@.len()
        && "cancel"@.len() != "southwest"@.len()
        && "cancel"@.len() != "back"@.len());
}


/// A menu answer is read by its first letter in either case: M moves, A
/// attacks, E ends the turn, Q quits; any other letter is invalid.
pub proof fn lemma_menu_letters(c: char)
    ensures
        c == 'm' || c == 'M' ==> menu_choice_of(c) == MenuChoice::Move,
        c == 'a' || c == 'A' ==> menu_choice_of(c) == MenuChoice::Attack,
        c == 'e' || c == 'E' ==> menu_choice_of(c) == MenuChoice::EndTurn,
        c == 'q' || c == 'Q' ==> menu_choice_of(c) == MenuChoice::Quit,
        !(c == 'm' || c == 'M' || c == 'a' || c == 'A' || c == 'e' || c == 'E' || c == 'q' || c == 'Q')
            ==> menu_choice_of(c) == MenuChoice::Invalid,
{
}

} // verus!
