use enums::state_quarter::{
    match_control_flow_patterns, quarter_state, round_with, value_in_cents_state_quarters, Coin2,
    StateQuarterRound,
};
use enums::us_state::UsState;

#[test]
fn each_coin_of_the_second_set_has_the_worth_of_its_own_branch() {
    assert_eq!(value_in_cents_state_quarters(&Coin2::Penny), 1);
    assert_eq!(value_in_cents_state_quarters(&Coin2::Nickel), 5);
    assert_eq!(value_in_cents_state_quarters(&Coin2::Dime), 10);
    assert_eq!(
        value_in_cents_state_quarters(&Coin2::Quarter(UsState::Alaska)),
        25
    );
}

#[test]
fn a_virginia_quarter_is_worth_25_and_shows_virginia() {
    let coin = Coin2::Quarter(UsState::Virginia);
    assert_eq!(value_in_cents_state_quarters(&coin), 25);
    assert_eq!(quarter_state(&coin), Some(UsState::Virginia));
}

#[test]
fn a_texas_quarter_is_worth_25_and_shows_texas() {
    let coin = Coin2::Quarter(UsState::Texas);
    assert_eq!(value_in_cents_state_quarters(&coin), 25);
    assert_eq!(quarter_state(&coin), Some(UsState::Texas));
}

#[test]
fn every_state_comes_back_out_of_its_quarter() {
    for state in UsState::variants() {
        let coin = Coin2::Quarter(state);
        assert_eq!(quarter_state(&coin), Some(state));
        assert_eq!(value_in_cents_state_quarters(&coin), 25);
    }
}

#[test]
fn coins_without_a_state_show_none() {
    assert_eq!(quarter_state(&Coin2::Penny), None);
    assert_eq!(quarter_state(&Coin2::Nickel), None);
    assert_eq!(quarter_state(&Coin2::Dime), None);
}

#[test]
fn second_coin_set_is_enumerated_with_the_default_quarter() {
    assert_eq!(
        Coin2::variants(),
        vec![
            Coin2::Penny,
            Coin2::Nickel,
            Coin2::Dime,
            Coin2::Quarter(UsState::Virginia)
        ]
    );
    assert_eq!(Coin2::variants(), Coin2::variants());
}

#[test]
fn the_default_state_is_virginia() {
    assert_eq!(UsState::default(), UsState::Virginia);
}

#[test]
fn states_are_enumerated_in_declaration_order() {
    let states = UsState::variants();
    assert_eq!(states.len(), 50);
    assert_eq!(states[0], UsState::Alabama);
    assert_eq!(states[1], UsState::Alaska);
    assert_eq!(states[10], UsState::Hawaii);
    assert_eq!(states[28], UsState::NewHampshire);
    assert_eq!(states[42], UsState::Texas);
    assert_eq!(states[45], UsState::Virginia);
    assert_eq!(states[49], UsState::Wyoming);
    let names: Vec<String> = states.iter().map(|state| format!("{:?}", state)).collect();
    let mut sorted = names.clone();
    sorted.sort();
    assert_eq!(names, sorted);
}

#[test]
fn state_enumeration_has_each_tag_once() {
    let states = UsState::variants();
    for (i, a) in states.iter().enumerate() {
        for (j, b) in states.iter().enumerate() {
            assert_eq!(a == b, i == j);
        }
    }
}

#[test]
fn state_enumeration_can_be_repeated() {
    assert_eq!(UsState::variants(), UsState::variants());
}

#[test]
fn state_quarter_round_with_a_given_coin_is_exact() {
    let shown = round_with(Coin2::Quarter(UsState::Texas));
    assert_eq!(
        shown,
        StateQuarterRound {
            penny: (Coin2::Penny, 1),
            nickel: (Coin2::Nickel, 5),
            dime: (Coin2::Dime, 10),
            quarter: (Coin2::Quarter(UsState::Virginia), 25),
            random_coin: (Coin2::Quarter(UsState::Texas), 25),
        }
    );
    assert_eq!(round_with(Coin2::Nickel).random_coin, (Coin2::Nickel, 5));
}

#[test]
fn match_control_flow_patterns_values_the_four_coins_and_the_drawn_one() {
    let shown = match_control_flow_patterns();
    assert_eq!(shown.penny, (Coin2::Penny, 1));
    assert_eq!(shown.nickel, (Coin2::Nickel, 5));
    assert_eq!(shown.dime, (Coin2::Dime, 10));
    assert_eq!(shown.quarter, (Coin2::Quarter(UsState::Virginia), 25));
    let (coin, cents) = shown.random_coin;
    assert_eq!(cents, value_in_cents_state_quarters(&coin));
    assert_eq!(shown, round_with(coin));
}

#[test]
fn match_control_flow_patterns_draws_every_tag_and_more_than_one_state() {
    let mut seen = [false; 4];
    let mut other_state = false;
    for _ in 0..4000 {
        let (coin, cents) = match_control_flow_patterns().random_coin;
        assert_eq!(cents, value_in_cents_state_quarters(&coin));
        match coin {
            Coin2::Penny => seen[0] = true,
            Coin2::Nickel => seen[1] = true,
            Coin2::Dime => seen[2] = true,
            Coin2::Quarter(state) => {
                seen[3] = true;
                assert!(UsState::variants().contains(&state));
                if state != UsState::Virginia {
                    other_state = true;
                }
            }
        }
    }
    assert_eq!(seen, [true; 4]);
    assert!(other_state);
}
