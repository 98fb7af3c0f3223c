//! US coins and what each is worth.

use crate::sampling::choose_from;
use rand::thread_rng;
use vstd::prelude::*;

verus! {

/// A US coin, known by its tag alone.
#[derive(Debug, Clone, Copy, PartialEq, Eq, Structural)]
pub enum Coin {
    Penny,
    Nickel,
    Dime,
    Quarter,
}

/// The coins that [`match_control_flow`] looked at, each with its worth in
/// cents.
#[derive(Debug, Clone, Copy, PartialEq, Eq)]
pub struct CoinRound {
    pub penny: (Coin, u8),
    pub nickel: (Coin, u8),
    pub dime: (Coin, u8),
    pub quarter: (Coin, u8),
    pub random_coin: (Coin, u8),
}

impl CoinRound {
    /// The round in which the coin drawn at random is `random_coin`.
    pub open spec fn of(random_coin: Coin) -> CoinRound {
        CoinRound {
            penny: (Coin::Penny, 1),
            nickel: (Coin::Nickel, 5),
            dime: (Coin::Dime, 10),
            quarter: (Coin::Quarter, 25),
            random_coin: (random_coin, random_coin.cents()),
        }
    }
}

impl Coin {
    /// What the coin is worth, in cents.
    pub open spec fn cents(self) -> u8 {
        match self {
            Coin::Penny => 1,
            Coin::Nickel => 5,
            Coin::Dime => 10,
            Coin::Quarter => 25,
        }
    }

    /// The place of the coin's tag in the order of declaration, counted from 0.
    pub open spec fn ordinal(self) -> int {
        match self {
            Coin::Penny => 0,
            Coin::Nickel => 1,
            Coin::Dime => 2,
            Coin::Quarter => 3,
        }
    }

    /// Every tag once, in the order of declaration.
    pub open spec fn all() -> Seq<Coin> {
        seq![Coin::Penny, Coin::Nickel, Coin::Dime, Coin::Quarter]
    }

    /// Lists the tags: a fresh list at every call, always the same one.
    pub fn variants() -> (tags: Vec<Coin>)
        ensures
            tags@ == Coin::all(),
    {
        vec![Coin::Penny, Coin::Nickel, Coin::Dime, Coin::Quarter]
    }
}

/// Tells which coin it is and returns its worth in cents.
pub fn value_in_cents(coin: &Coin) -> (cents: u8)
    ensures
        cents == coin.cents(),
{
    match coin {
        Coin::Penny => 1,
        Coin::Nickel => 5,
        Coin::Dime => 10,
        Coin::Quarter => 25,
    }
}

/// Whether finding this coin is worth a remark: it is for a penny, and for
/// no other coin.
pub fn is_lucky(coin: &Coin) -> (lucky: bool)
    ensures
        lucky <==> coin is Penny,
{
    match coin {
        Coin::Penny => true,
        Coin::Nickel => false,
        Coin::Dime => false,
        Coin::Quarter => false,
    }
}

/// Values a penny, a nickel, a dime, a quarter, and the coin `random_coin`.
pub fn round_with(random_coin: Coin) -> (shown: CoinRound)
    ensures
        shown == CoinRound::of(random_coin),
{
    let penny = Coin::Penny;
    let nickel = Coin::Nickel;
    let dime = Coin::Dime;
    let quarter = Coin::Quarter;

    CoinRound {
        penny: (penny, value_in_cents(&penny)),
        nickel: (nickel, value_in_cents(&nickel)),
        dime: (dime, value_in_cents(&dime)),
        quarter: (quarter, value_in_cents(&quarter)),
        random_coin: (random_coin, value_in_cents(&random_coin)),
    }
}

/// Values a penny, a nickel, a dime, a quarter, and one coin drawn at
/// random from the enumeration.
///
/// Which coin is drawn is open; the round is that of the coin drawn.
pub fn match_control_flow() -> (shown: CoinRound)
    ensures
        Coin::all().contains(shown.random_coin.0),
        shown == CoinRound::of(shown.random_coin.0),
{
    let mut rng = thread_rng();
    let vec_coins = Coin::variants();
    let random_coin = choose_from(&vec_coins, &mut rng).unwrap();

    round_with(*random_coin)
}

/// The enumeration holds four tags, each tag at the place of its declaration
/// and nowhere else.
pub proof fn lemma_enumeration_is_exact()
    ensures
        Coin::all().len() == 4,
        forall|coin: Coin| 0 <= coin.ordinal() < 4 && Coin::all()[coin.ordinal()] == coin,
        forall|i: int| 0 <= i < 4 ==> (#[trigger] Coin::all()[i]).ordinal() == i,
        Coin::all().no_duplicates(),
{
}

/// Two enumerations give the same list.
pub proof fn lemma_enumeration_repeats(first: Vec<Coin>, second: Vec<Coin>)
    requires
        call_ensures(Coin::variants, (), first),
        call_ensures(Coin::variants, (), second),
    ensures
        first@ == second@,
{
}

/// The worth tells the tag: no two tags share a branch of [`value_in_cents`].
pub proof fn lemma_worth_tells_the_tag(a: Coin, b: Coin)
    requires
        a.cents() == b.cents(),
    ensures
        a == b,
{
}

} // verus!
