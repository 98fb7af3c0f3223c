//! A board game's turn: what a roll of the dice makes the player do, under
//! three versions of the rules. Each version names what happens on a 3 and
//! on a 7, and has one rule for every other roll.

use vstd::prelude::*;

verus! {

/// What a player does on a turn.
#[derive(Debug, Clone, Copy, PartialEq, Eq, Structural)]
pub enum Action {
    /// The player gets a new fancy hat and does not move.
    AddFancyHat,
    /// The player loses a fancy hat and does not move.
    RemoveFancyHat,
    /// The player moves by that many spaces.
    MovePlayer(u8),
    /// The player rolls again.
    Reroll,
}

/// The first rules: a 3 gives a hat, a 7 takes one, and any other roll
/// moves the player by the number rolled.
pub open spec fn move_rule(dice_roll: u8) -> Action {
    if dice_roll == 3 {
        Action::AddFancyHat
    } else if dice_roll == 7 {
        Action::RemoveFancyHat
    } else {
        Action::MovePlayer(dice_roll)
    }
}

/// The second rules: a 3 gives a hat, a 7 takes one, and any other roll
/// has the player roll again, whatever the number.
pub open spec fn reroll_rule(dice_roll: u8) -> Action {
    if dice_roll == 3 {
        Action::AddFancyHat
    } else if dice_roll == 7 {
        Action::RemoveFancyHat
    } else {
        Action::Reroll
    }
}

/// The third rules: a 3 gives a hat, a 7 takes one, and on any other roll
/// nothing happens.
pub open spec fn idle_rule(dice_roll: u8) -> Option<Action> {
    if dice_roll == 3 {
        Some(Action::AddFancyHat)
    } else if dice_roll == 7 {
        Some(Action::RemoveFancyHat)
    } else {
        None
    }
}

/// Plays a roll under the first rules. The last branch takes every roll
/// that the two above it do not name, and keeps the number.
pub fn play_move(dice_roll: u8) -> (action: Action)
    ensures
        action == move_rule(dice_roll),
{
    match dice_roll {
        3 => Action::AddFancyHat,
        7 => Action::RemoveFancyHat,
        other => Action::MovePlayer(other),
    }
}

/// Plays a roll under the second rules. The last branch takes every roll
/// that the two above it do not name, and drops the number.
pub fn play_reroll(dice_roll: u8) -> (action: Action)
    ensures
        action == reroll_rule(dice_roll),
{
    match dice_roll {
        3 => Action::AddFancyHat,
        7 => Action::RemoveFancyHat,
        _ => Action::Reroll,
    }
}

/// Plays a roll under the third rules. The last branch takes every roll
/// that the two above it do not name, and does nothing.
pub fn play_idle(dice_roll: u8) -> (action: Option<Action>)
    ensures
        action == idle_rule(dice_roll),
{
    match dice_roll {
        3 => Some(Action::AddFancyHat),
        7 => Some(Action::RemoveFancyHat),
        _ => None,
    }
}

/// Plays a roll of 9 under the first rules: the player moves nine spaces.
pub fn catch_all_patterns() -> (action: Action)
    ensures
        action == Action::MovePlayer(9),
{
    let dice_roll: u8 = 9;
    play_move(dice_roll)
}

/// Plays a roll of 9 under the second rules: the player rolls again.
pub fn catch_all_patterns_underscore_placeholder() -> (action: Action)
    ensures
        action == Action::Reroll,
{
    let dice_roll: u8 = 9;
    play_reroll(dice_roll)
}

/// Plays a roll of 9 under the third rules: nothing happens.
pub fn catch_all_patterns_noop_catchall() -> (action: Option<Action>)
    ensures
        action is None,
{
    let dice_roll: u8 = 9;
    play_idle(dice_roll)
}

/// Under each version of the rules the catch-all branch is taken on
/// exactly the rolls that no branch above it names, and a named branch is
/// taken on its own roll, never the catch-all.
pub proof fn lemma_catch_all_takes_the_rest(dice_roll: u8)
    ensures
        move_rule(dice_roll) is MovePlayer <==> dice_roll != 3 && dice_roll != 7,
        move_rule(dice_roll) is MovePlayer ==> move_rule(dice_roll)->MovePlayer_0 == dice_roll,
        reroll_rule(dice_roll) is Reroll <==> dice_roll != 3 && dice_roll != 7,
        idle_rule(dice_roll) is None <==> dice_roll != 3 && dice_roll != 7,
        dice_roll == 3 ==> move_rule(dice_roll) == Action::AddFancyHat
            && reroll_rule(dice_roll) == Action::AddFancyHat
            && idle_rule(dice_roll) == Some(Action::AddFancyHat),
        dice_roll == 7 ==> move_rule(dice_roll) == Action::RemoveFancyHat
            && reroll_rule(dice_roll) == Action::RemoveFancyHat
            && idle_rule(dice_roll) == Some(Action::RemoveFancyHat),
{
}

} // verus!
