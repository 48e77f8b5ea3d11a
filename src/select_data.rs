use vstd::prelude::*;
use crate::card_data::CardSet;

verus! {

/// The decks offered for selection and the index of the chosen one.
#[derive(Debug)]
pub struct SelectData {
    pub card_sets: Vec<CardSet>,
    pub selected_set: usize,
}

impl SelectData {
    /// The chosen deck, if the index points into the list.
    pub open spec fn selected(&self) -> Option<CardSet> {
        if self.selected_set < self.card_sets@.len() {
            Some(self.card_sets@[self.selected_set as int])
        } else {
            None
        }
    }

    /// Offers the given decks, the first one chosen.
    pub fn new(card_sets: Vec<CardSet>) -> (r: Self)
        ensures
            r.card_sets@ == card_sets@,
            r.selected_set == 0,
    {
        SelectData { card_sets, selected_set: 0 }
    }

    pub fn get_selected_set(&self) -> (r: Option<&CardSet>)
        ensures
            match r {
                Some(set) => self.selected() == Some(*set),
                None => self.selected() is None,
            },
    {
        if self.selected_set < self.card_sets.len() {
            Some(&self.card_sets[self.selected_set])
        } else {
            None
        }
    }

    pub fn get_selected_set_mut(&mut self) -> (r: Option<&mut CardSet>)
        ensures
            match r {
                Some(set) => old(self).selected() == Some(*set),
                None => old(self).selected() is None,
            },
    {
        if self.selected_set < self.card_sets.len() {
            Some(&mut self.card_sets[self.selected_set])
        } else {
            None
        }
    }

    /// Each deck's name with its index, in list order.
    pub fn get_sets_name_and_idx(&self) -> (r: Vec<(String, usize)>)
        ensures
            r@.len() == self.card_sets@.len(),
            forall|i: int|
                0 <= i < r@.len() ==> #[trigger] r@[i].0@ == self.card_sets@[i].name@ && r@[i].1
                    == i,
    {
        let mut r: Vec<(String, usize)> = Vec::new();
        let mut idx: usize = 0;
        while idx < self.card_sets.len()
            invariant
                idx <= self.card_sets@.len(),
                r@.len() == idx,
                forall|i: int|
                    0 <= i < idx ==> #[trigger] r@[i].0@ == self.card_sets@[i].name@ && r@[i].1
                        == i,
            decreases self.card_sets@.len() - idx,
        {
            r.push((self.card_sets[idx].name.clone(), idx));
            idx = idx + 1;
        }
        r
    }
}

} // verus!
