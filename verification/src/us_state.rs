//! The fifty states of the Union, one tag each.

use vstd::prelude::*;

verus! {

/// A state of the Union.
#[derive(Debug, Clone, Copy, PartialEq, Eq, Structural)]
pub enum UsState {
    Alabama,
    Alaska,
    Arizona,
    Arkansas,
    California,
    Colorado,
    Connecticut,
    Delaware,
    Florida,
    Georgia,
    Hawaii,
    Idaho,
    Illinois,
    Indiana,
    Iowa,
    Kansas,
    Kentucky,
    Louisiana,
    Maine,
    Maryland,
    Massachusetts,
    Michigan,
    Minnesota,
    Mississippi,
    Missouri,
    Montana,
    Nebraska,
    Nevada,
    NewHampshire,
    NewJersey,
    NewMexico,
    NewYork,
    NorthCarolina,
    NorthDakota,
    Ohio,
    Oklahoma,
    Oregon,
    Pennsylvania,
    RhodeIsland,
    SouthCarolina,
    SouthDakota,
    Tennessee,
    Texas,
    Utah,
    Vermont,
    Virginia,
    Washington,
    WestVirginia,
    Wisconsin,
    Wyoming,
}

impl UsState {
    /// The place of the state's tag in the order of declaration, counted from 0.
    pub open spec fn ordinal(self) -> int {
        match self {
            UsState::Alabama => 0,
            UsState::Alaska => 1,
            UsState::Arizona => 2,
            UsState::Arkansas => 3,
            UsState::California => 4,
            UsState::Colorado => 5,
            UsState::Connecticut => 6,
            UsState::Delaware => 7,
            UsState::Florida => 8,
            UsState::Georgia => 9,
            UsState::Hawaii => 10,
            UsState::Idaho => 11,
            UsState::Illinois => 12,
            UsState::Indiana => 13,
            UsState::Iowa => 14,
            UsState::Kansas => 15,
            UsState::Kentucky => 16,
            UsState::Louisiana => 17,
            UsState::Maine => 18,
            UsState::Maryland => 19,
            UsState::Massachusetts => 20,
            UsState::Michigan => 21,
            UsState::Minnesota => 22,
            UsState::Mississippi => 23,
            UsState::Missouri => 24,
            UsState::Montana => 25,
            UsState::Nebraska => 26,
            UsState::Nevada => 27,
            UsState::NewHampshire => 28,
            UsState::NewJersey => 29,
            UsState::NewMexico => 30,
            UsState::NewYork => 31,
            UsState::NorthCarolina => 32,
            UsState::NorthDakota => 33,
            UsState::Ohio => 34,
            UsState::Oklahoma => 35,
            UsState::Oregon => 36,
            UsState::Pennsylvania => 37,
            UsState::RhodeIsland => 38,
            UsState::SouthCarolina => 39,
            UsState::SouthDakota => 40,
            UsState::Tennessee => 41,
            UsState::Texas => 42,
            UsState::Utah => 43,
            UsState::Vermont => 44,
            UsState::Virginia => 45,
            UsState::Washington => 46,
            UsState::WestVirginia => 47,
            UsState::Wisconsin => 48,
            UsState::Wyoming => 49,
        }
    }

    /// Every tag once, in the order of declaration.
    pub open spec fn all() -> Seq<UsState> {
        seq![
            UsState::Alabama,
            UsState::Alaska,
            UsState::Arizona,
            UsState::Arkansas,
            UsState::California,
            UsState::Colorado,
            UsState::Connecticut,
            UsState::Delaware,
            UsState::Florida,
            UsState::Georgia,
            UsState::Hawaii,
            UsState::Idaho,
            UsState::Illinois,
            UsState::Indiana,
            UsState::Iowa,
            UsState::Kansas,
            UsState::Kentucky,
            UsState::Louisiana,
            UsState::Maine,
            UsState::Maryland,
            UsState::Massachusetts,
            UsState::Michigan,
            UsState::Minnesota,
            UsState::Mississippi,
            UsState::Missouri,
            UsState::Montana,
            UsState::Nebraska,
            UsState::Nevada,
            UsState::NewHampshire,
            UsState::NewJersey,
            UsState::NewMexico,
            UsState::NewYork,
            UsState::NorthCarolina,
            UsState::NorthDakota,
            UsState::Ohio,
            UsState::Oklahoma,
            UsState::Oregon,
            UsState::Pennsylvania,
            UsState::RhodeIsland,
            UsState::SouthCarolina,
            UsState::SouthDakota,
            UsState::Tennessee,
            UsState::Texas,
            UsState::Utah,
            UsState::Vermont,
            UsState::Virginia,
            UsState::Washington,
            UsState::WestVirginia,
            UsState::Wisconsin,
            UsState::Wyoming,
        ]
    }

    /// Lists the tags: a fresh list at every call, always the same one.
    pub fn variants() -> (tags: Vec<UsState>)
        ensures
            tags@ == UsState::all(),
    {
        vec![
            UsState::Alabama,
            UsState::Alaska,
            UsState::Arizona,
            UsState::Arkansas,
            UsState::California,
            UsState::Colorado,
            UsState::Connecticut,
            UsState::Delaware,
            UsState::Florida,
            UsState::Georgia,
            UsState::Hawaii,
            UsState::Idaho,
            UsState::Illinois,
            UsState::Indiana,
            UsState::Iowa,
            UsState::Kansas,
            UsState::Kentucky,
            UsState::Louisiana,
            UsState::Maine,
            UsState::Maryland,
            UsState::Massachusetts,
            UsState::Michigan,
            UsState::Minnesota,
            UsState::Mississippi,
            UsState::Missouri,
            UsState::Montana,
            UsState::Nebraska,
            UsState::Nevada,
            UsState::NewHampshire,
            UsState::NewJersey,
            UsState::NewMexico,
            UsState::NewYork,
            UsState::NorthCarolina,
            UsState::NorthDakota,
            UsState::Ohio,
            UsState::Oklahoma,
            UsState::Oregon,
            UsState::Pennsylvania,
            UsState::RhodeIsland,
            UsState::SouthCarolina,
            UsState::SouthDakota,
            UsState::Tennessee,
            UsState::Texas,
            UsState::Utah,
            UsState::Vermont,
            UsState::Virginia,
            UsState::Washington,
            UsState::WestVirginia,
            UsState::Wisconsin,
            UsState::Wyoming,
        ]
    }
}

/// The state whose quarters are the likeliest find stands for all of them
/// where one has to be named.
impl Default for UsState {
    fn default() -> (state: UsState)
        ensures
            state == UsState::Virginia,
    {
        UsState::Virginia
    }
}

/// The enumeration holds fifty tags, each tag at the place of its declaration
/// and nowhere else.
pub proof fn lemma_enumeration_is_exact()
    ensures
        UsState::all().len() == 50,
        forall|state: UsState|
            0 <= state.ordinal() < 50 && UsState::all()[state.ordinal()] == state,
        forall|i: int| 0 <= i < 50 ==> (#[trigger] UsState::all()[i]).ordinal() == i,
        UsState::all().no_duplicates(),
{
}

/// Two enumerations give the same list.
pub proof fn lemma_enumeration_repeats(first: Vec<UsState>, second: Vec<UsState>)
    requires
        call_ensures(UsState::variants, (), first),
        call_ensures(UsState::variants, (), second),
    ensures
        first@ == second@,
{
}

} // verus!
