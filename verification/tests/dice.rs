use enums::dice::{
    catch_all_patterns, catch_all_patterns_noop_catchall,
    catch_all_patterns_underscore_placeholder, play_idle, play_move, play_reroll, Action,
};

#[test]
fn a_roll_of_nine_moves_the_player_nine_spaces() {
    assert_eq!(catch_all_patterns(), Action::MovePlayer(9));
}

#[test]
fn a_roll_of_nine_rolls_again() {
    assert_eq!(catch_all_patterns_underscore_placeholder(), Action::Reroll);
}

#[test]
fn a_roll_of_nine_does_nothing() {
    assert_eq!(catch_all_patterns_noop_catchall(), None);
}

#[test]
fn named_rolls_take_their_own_branch() {
    assert_eq!(play_move(3), Action::AddFancyHat);
    assert_eq!(play_move(7), Action::RemoveFancyHat);
    assert_eq!(play_reroll(3), Action::AddFancyHat);
    assert_eq!(play_reroll(7), Action::RemoveFancyHat);
    assert_eq!(play_idle(3), Some(Action::AddFancyHat));
    assert_eq!(play_idle(7), Some(Action::RemoveFancyHat));
}

#[test]
fn every_other_roll_takes_the_catch_all() {
    for roll in 0..=u8::MAX {
        if roll == 3 || roll == 7 {
            continue;
        }
        assert_eq!(play_move(roll), Action::MovePlayer(roll));
        assert_eq!(play_reroll(roll), Action::Reroll);
        assert_eq!(play_idle(roll), None);
    }
}

#[test]
fn the_catch_all_keeps_the_number_rolled() {
    assert_eq!(play_move(0), Action::MovePlayer(0));
    assert_eq!(play_move(4), Action::MovePlayer(4));
    assert_eq!(play_move(6), Action::MovePlayer(6));
    assert_eq!(play_move(8), Action::MovePlayer(8));
    assert_eq!(play_move(255), Action::MovePlayer(255));
}
