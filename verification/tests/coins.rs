use enums::coin::{is_lucky, match_control_flow, round_with, value_in_cents, Coin, CoinRound};

#[test]
fn each_coin_has_the_worth_of_its_own_branch() {
    assert_eq!(value_in_cents(&Coin::Penny), 1);
    assert_eq!(value_in_cents(&Coin::Nickel), 5);
    assert_eq!(value_in_cents(&Coin::Dime), 10);
    assert_eq!(value_in_cents(&Coin::Quarter), 25);
}

#[test]
fn no_two_coins_have_the_same_worth() {
    let coins = Coin::variants();
    for a in &coins {
        for b in &coins {
            assert_eq!(value_in_cents(a) == value_in_cents(b), a == b);
        }
    }
}

#[test]
fn only_a_penny_is_lucky() {
    assert!(is_lucky(&Coin::Penny));
    assert!(!is_lucky(&Coin::Nickel));
    assert!(!is_lucky(&Coin::Dime));
    assert!(!is_lucky(&Coin::Quarter));
}

#[test]
fn coins_are_enumerated_in_declaration_order() {
    assert_eq!(
        Coin::variants(),
        vec![Coin::Penny, Coin::Nickel, Coin::Dime, Coin::Quarter]
    );
}

#[test]
fn coin_enumeration_has_each_tag_once() {
    let coins = Coin::variants();
    assert_eq!(coins.len(), 4);
    for tag in [Coin::Penny, Coin::Nickel, Coin::Dime, Coin::Quarter] {
        assert_eq!(coins.iter().filter(|coin| **coin == tag).count(), 1);
    }
}

#[test]
fn coin_enumeration_can_be_repeated() {
    let first = Coin::variants();
    let second = Coin::variants();
    assert_eq!(first, second);
    assert_eq!(first.len(), 4);
}

#[test]
fn round_with_a_given_coin_is_exact() {
    let shown = round_with(Coin::Dime);
    assert_eq!(
        shown,
        CoinRound {
            penny: (Coin::Penny, 1),
            nickel: (Coin::Nickel, 5),
            dime: (Coin::Dime, 10),
            quarter: (Coin::Quarter, 25),
            random_coin: (Coin::Dime, 10),
        }
    );
    assert_eq!(round_with(Coin::Penny).random_coin, (Coin::Penny, 1));
    assert_eq!(round_with(Coin::Nickel).random_coin, (Coin::Nickel, 5));
    assert_eq!(round_with(Coin::Quarter).random_coin, (Coin::Quarter, 25));
}

#[test]
fn match_control_flow_values_the_four_coins_and_the_drawn_one() {
    let shown = match_control_flow();
    assert_eq!(shown.penny, (Coin::Penny, 1));
    assert_eq!(shown.nickel, (Coin::Nickel, 5));
    assert_eq!(shown.dime, (Coin::Dime, 10));
    assert_eq!(shown.quarter, (Coin::Quarter, 25));
    let (coin, cents) = shown.random_coin;
    assert!(Coin::variants().contains(&coin));
    assert_eq!(cents, value_in_cents(&coin));
    assert!(cents == 1 || cents == 5 || cents == 10 || cents == 25);
}

#[test]
fn match_control_flow_draws_every_coin_sooner_or_later() {
    let mut seen = [false; 4];
    for _ in 0..2000 {
        let (coin, cents) = match_control_flow().random_coin;
        assert_eq!(cents, value_in_cents(&coin));
        match coin {
            Coin::Penny => seen[0] = true,
            Coin::Nickel => seen[1] = true,
            Coin::Dime => seen[2] = true,
            Coin::Quarter => seen[3] = true,
        }
    }
    assert_eq!(seen, [true; 4]);
}
