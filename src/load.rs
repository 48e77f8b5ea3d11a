use vstd::prelude::*;
use crate::card_data::{CardData, CardSet};

verus! {

/// Relies on rand's `SliceRandom::shuffle`, driven by `thread_rng`: it only
/// swaps cards, so the same cards come back in some order.
#[verifier::external_body]
fn shuffle_randomly(cards: Vec<CardData>) -> (r: Vec<CardData>)
    ensures
        r@.len() == cards@.len(),
        r@.to_multiset() == cards@.to_multiset(),
{
    let mut cards = cards;
    rand::seq::SliceRandom::shuffle(cards.as_mut_slice(), &mut rand::thread_rng());
    cards
}

/// The cards in a random order when `shuffle_cards` is set, else as given.
pub fn shuffle(data: Vec<CardData>, shuffle_cards: bool) -> (r: Vec<CardData>)
    ensures
        r@.len() == data@.len(),
        r@.to_multiset() == data@.to_multiset(),
        !shuffle_cards ==> r@ == data@,
{
    if shuffle_cards {
        shuffle_randomly(data)
    } else {
        data
    }
}

/// Name of a deck read from standard input.
pub open spec fn deck_name(input_file: Option<&str>) -> Seq<char> {
    match input_file {
        Some(path) => path@,
        None => "stdin"@,
    }
}

/// Opens the deck read from `input_file`, or from standard input when there
/// is none, named after its source; the cards are shuffled first when asked.
pub fn read_card_set(input_file: Option<&str>, cards: Vec<CardData>, shuffle_cards: bool) -> (r:
    CardSet)
    ensures
        r.name@ == deck_name(input_file),
        r.cards@.len() == cards@.len(),
        r.cards@.to_multiset() == cards@.to_multiset(),
        !shuffle_cards ==> r.cards@ == cards@,
        r.at_start(),
{
    let cards = shuffle(cards, shuffle_cards);
    match input_file {
        Some(path) => CardSet::new(path, cards),
        None => CardSet::new("stdin", cards),
    }
}

} // verus!
