//! US coins whose quarters carry the state that they were minted for.

use crate::sampling::choose_from;
use crate::us_state::UsState;
use rand::thread_rng;
use vstd::prelude::*;

verus! {

/// A US coin. A quarter carries its state; the other coins carry nothing.
#[derive(Debug, Clone, Copy, PartialEq, Eq, Structural)]
pub enum Coin2 {
    Penny,
    Nickel,
    Dime,
    Quarter(UsState),
}

/// The coins that [`match_control_flow_patterns`] looked at, each with its
/// worth in cents.
#[derive(Debug, Clone, Copy, PartialEq, Eq)]
pub struct StateQuarterRound {
    pub penny: (Coin2, u8),
    pub nickel: (Coin2, u8),
    pub dime: (Coin2, u8),
    pub quarter: (Coin2, u8),
    pub random_coin: (Coin2, u8),
}

impl StateQuarterRound {
    /// The round in which the coin drawn at random is `random_coin`.
    pub open spec fn of(random_coin: Coin2) -> StateQuarterRound {
        StateQuarterRound {
            penny: (Coin2::Penny, 1),
            nickel: (Coin2::Nickel, 5),
            dime: (Coin2::Dime, 10),
            quarter: (Coin2::Quarter(UsState::Virginia), 25),
            random_coin: (random_coin, random_coin.cents()),
        }
    }
}

impl Coin2 {
    /// What the coin is worth, in cents.
    pub open spec fn cents(self) -> u8 {
        match self {
            Coin2::Penny => 1,
            Coin2::Nickel => 5,
            Coin2::Dime => 10,
            Coin2::Quarter(_) => 25,
        }
    }

    /// The state that the coin carries, if it carries one.
    pub open spec fn state(self) -> Option<UsState> {
        match self {
            Coin2::Penny => None,
            Coin2::Nickel => None,
            Coin2::Dime => None,
            Coin2::Quarter(state) => Some(state),
        }
    }

    /// The place of the coin's tag in the order of declaration, counted from 0.
    pub open spec fn ordinal(self) -> int {
        match self {
            Coin2::Penny => 0,
            Coin2::Nickel => 1,
            Coin2::Dime => 2,
            Coin2::Quarter(_) => 3,
        }
    }

    /// Every tag once, in the order of declaration. The quarter that
    /// stands for its tag carries the default state.
    pub open spec fn all() -> Seq<Coin2> {
        seq![Coin2::Penny, Coin2::Nickel, Coin2::Dime, Coin2::Quarter(UsState::Virginia)]
    }

    /// Lists the tags: a fresh list at every call, always the same one.
    pub fn variants() -> (tags: Vec<Coin2>)
        ensures
            tags@ == Coin2::all(),
    {
        vec![Coin2::Penny, Coin2::Nickel, Coin2::Dime, Coin2::Quarter(UsState::default())]
    }
}

/// Tells which coin it is and returns its worth in cents, whatever state a
/// quarter carries.
pub fn value_in_cents_state_quarters(coin: &Coin2) -> (cents: u8)
    ensures
        cents == coin.cents(),
{
    match coin {
        Coin2::Penny => 1,
        Coin2::Nickel => 5,
        Coin2::Dime => 10,
        Coin2::Quarter(_state) => 25,
    }
}

/// Takes the state out of a quarter, as it was put in. Other coins have none.
pub fn quarter_state(coin: &Coin2) -> (state: Option<UsState>)
    ensures
        state == coin.state(),
{
    match coin {
        Coin2::Penny => None,
        Coin2::Nickel => None,
        Coin2::Dime => None,
        Coin2::Quarter(state) => Some(*state),
    }
}

/// Values a penny, a nickel, a dime, a quarter of the default state, and
/// the coin `random_coin`.
pub fn round_with(random_coin: Coin2) -> (shown: StateQuarterRound)
    ensures
        shown == StateQuarterRound::of(random_coin),
{
    let penny = Coin2::Penny;
    let nickel = Coin2::Nickel;
    let dime = Coin2::Dime;
    let quarter = Coin2::Quarter(UsState::default());

    StateQuarterRound {
        penny: (penny, value_in_cents_state_quarters(&penny)),
        nickel: (nickel, value_in_cents_state_quarters(&nickel)),
        dime: (dime, value_in_cents_state_quarters(&dime)),
        quarter: (quarter, value_in_cents_state_quarters(&quarter)),
        random_coin: (random_coin, value_in_cents_state_quarters(&random_coin)),
    }
}

/// Values a penny, a nickel, a dime, a quarter of the default state, and
/// one coin drawn at random from the enumeration. Where the draw gives a
/// quarter, its state is drawn at random from the fifty.
///
/// Which coin is drawn is open; the round is that of the coin drawn.
pub fn match_control_flow_patterns() -> (shown: StateQuarterRound)
    ensures
        shown.random_coin.0 is Quarter || Coin2::all().contains(shown.random_coin.0),
        shown.random_coin.0 matches Coin2::Quarter(state) ==> UsState::all().contains(state),
        shown == StateQuarterRound::of(shown.random_coin.0),
{
    let mut rng = thread_rng();
    let vec_coins = Coin2::variants();
    let mut random_coin = *choose_from(&vec_coins, &mut rng).unwrap();
    let vec_states = UsState::variants();

    match random_coin {
        Coin2::Penny => {},
        Coin2::Nickel => {},
        Coin2::Dime => {},
        Coin2::Quarter(_) => {
            let random_state = choose_from(&vec_states, &mut rng).unwrap();
            random_coin = Coin2::Quarter(*random_state);
        },
    }

    round_with(random_coin)
}

/// A quarter is worth 25 cents whatever its state, and gives back the
/// state that it was made with.
pub proof fn lemma_quarter_keeps_its_state(state: UsState)
    ensures
        Coin2::Quarter(state).cents() == 25,
        Coin2::Quarter(state).state() == Some(state),
{
}

/// Only a quarter carries a state, and the state tells which quarter it is.
pub proof fn lemma_state_tells_the_quarter(coin: Coin2, state: UsState)
    ensures
        coin.state() == Some(state) <==> coin == Coin2::Quarter(state),
{
}

/// The enumeration holds four coins, one for each tag, each at the place
/// of its tag's declaration and nowhere else.
pub proof fn lemma_enumeration_is_exact()
    ensures
        Coin2::all().len() == 4,
        forall|coin: Coin2|
            0 <= coin.ordinal() < 4 && Coin2::all()[coin.ordinal()].ordinal() == coin.ordinal(),
        forall|i: int| 0 <= i < 4 ==> (#[trigger] Coin2::all()[i]).ordinal() == i,
        Coin2::all().no_duplicates(),
{
}

/// Two enumerations give the same list.
pub proof fn lemma_enumeration_repeats(first: Vec<Coin2>, second: Vec<Coin2>)
    requires
        call_ensures(Coin2::variants, (), first),
        call_ensures(Coin2::variants, (), second),
    ensures
        first@ == second@,
{
}

} // verus!
