use vstd::prelude::*;
use vstd::utf8::encode_utf8;

verus! {

/// Main text shown when the deck holds no card.
pub const EMPTY_SET: &'static str = "EMPTY SET";

/// The text behind an optional `&str`.
pub open spec fn text_of(o: Option<&str>) -> Option<Seq<char>> {
    match o {
        Some(t) => Some(t@),
        None => None,
    }
}

/// Rows that an optional field takes: none when hidden, one when the prefixed
/// text (counted in bytes) fits the width, two when it wraps.
pub open spec fn row_weight(text: Option<Seq<char>>, width: int, prefix_len: int) -> int {
    match text {
        Some(t) => if prefix_len + encode_utf8(t).len() <= width {
            1
        } else {
            2
        },
        None => 0,
    }
}

/// One flashcard: a term with its translation and the auxiliary fields.
#[derive(Debug, PartialEq, PartialOrd)]
pub struct CardData {
    pub word: String,
    pub translated: String,
    pub explanation: String,
    pub pronunciation: String,
    pub sentence: String,
}

/// A named deck of cards, the cursor over it and the display flags.
#[derive(Debug)]
pub struct CardSet {
    pub name: String,
    pub cards: Vec<CardData>,
    pub current_card: usize,
    pub reversed: bool,
    pub show_pronunciation: bool,
    pub show_description: bool,
    pub show_example: bool,
    pub show_title: bool,
    pub show_hints: bool,
    pub zen_mode: bool,
}

impl CardSet {
    /// A deck as it is opened: on its first card, front side up, outside zen
    /// mode, with pronunciation, title and hints shown and the description and
    /// example hidden.
    pub open spec fn at_start(&self) -> bool {
        &&& self.current_card == 0
        &&& !self.reversed
        &&& self.show_pronunciation
        &&& !self.show_description
        &&& !self.show_example
        &&& self.show_title
        &&& self.show_hints
        &&& !self.zen_mode
    }

    /// The card under the cursor, if the cursor points into the deck.
    pub open spec fn current(&self) -> Option<CardData> {
        if self.current_card < self.cards@.len() {
            Some(self.cards@[self.current_card as int])
        } else {
            None
        }
    }

    /// The term, or its translation while reversed, or the sentinel of an
    /// empty deck.
    pub open spec fn main_text(&self) -> Seq<char> {
        match self.current() {
            Some(card) => if self.reversed {
                card.translated@
            } else {
                card.word@
            },
            None => EMPTY_SET@,
        }
    }

    /// The deck name, while the title bar is shown.
    pub open spec fn title_view(&self) -> Option<Seq<char>> {
        if self.show_title && !self.zen_mode {
            Some(self.name@)
        } else {
            None
        }
    }

    /// Whether the hints bar is shown.
    pub open spec fn hints_visible(&self) -> bool {
        self.show_hints && !self.zen_mode
    }

    /// Whether a card field guarded by `flag` is on screen: only on the front
    /// side of an existing card, outside zen mode.
    pub open spec fn field_visible(&self, flag: bool) -> bool {
        flag && !self.zen_mode && !self.reversed && self.current() is Some
    }

    /// The current card's pronunciation, while shown.
    pub open spec fn pronunciation_view(&self) -> Option<Seq<char>> {
        if self.field_visible(self.show_pronunciation) {
            Some(self.current()->0.pronunciation@)
        } else {
            None
        }
    }

    /// The current card's description, while shown.
    pub open spec fn description_view(&self) -> Option<Seq<char>> {
        if self.field_visible(self.show_description) {
            Some(self.current()->0.explanation@)
        } else {
            None
        }
    }

    /// The current card's example sentence, while shown.
    pub open spec fn example_view(&self) -> Option<Seq<char>> {
        if self.field_visible(self.show_example) {
            Some(self.current()->0.sentence@)
        } else {
            None
        }
    }

    /// Signed balance of the rows above (negative) and below (positive) the
    /// main term.
    pub open spec fn view_weight(&self, width: int, desc_prefix: int, example_prefix: int) -> int {
        (if self.title_view() is Some {
            -1int
        } else {
            0
        }) + (if self.hints_visible() {
            1int
        } else {
            0
        }) + row_weight(self.description_view(), width, desc_prefix) + row_weight(
            self.example_view(),
            width,
            example_prefix,
        )
    }

    /// The state after `next_card`.
    pub open spec fn after_next(self) -> CardSet {
        CardSet {
            current_card: if self.current_card + 1 < self.cards@.len() {
                (self.current_card + 1) as usize
            } else {
                self.current_card
            },
            ..self
        }
    }

    /// The state after `prev_card`.
    pub open spec fn after_prev(self) -> CardSet {
        CardSet {
            current_card: if self.current_card > 0 {
                (self.current_card - 1) as usize
            } else {
                self.current_card
            },
            ..self
        }
    }

    /// The state after `reverse_current_card`.
    pub open spec fn after_reverse(self) -> CardSet {
        CardSet { reversed: !self.reversed, ..self }
    }

    /// The state after `toggle_zen_mode`.
    pub open spec fn after_toggle_zen(self) -> CardSet {
        CardSet { zen_mode: !self.zen_mode, ..self }
    }

    /// Leaving zen mode through a field toggle: every optional field is
    /// switched off first. Outside zen mode nothing changes.
    pub open spec fn zen_cleared(self) -> CardSet {
        if self.zen_mode {
            CardSet {
                show_pronunciation: false,
                show_description: false,
                show_example: false,
                show_title: false,
                show_hints: false,
                zen_mode: false,
                ..self
            }
        } else {
            self
        }
    }

    /// The state after `toggle_show_pronunciation`: nothing changes while
    /// reversed.
    pub open spec fn after_toggle_pronunciation(self) -> CardSet {
        if self.reversed {
            self
        } else {
            let s = self.zen_cleared();
            CardSet { show_pronunciation: !s.show_pronunciation, ..s }
        }
    }

    /// The state after `toggle_show_description`: nothing changes while
    /// reversed.
    pub open spec fn after_toggle_description(self) -> CardSet {
        if self.reversed {
            self
        } else {
            let s = self.zen_cleared();
            CardSet { show_description: !s.show_description, ..s }
        }
    }

    /// The state after `toggle_show_example`: nothing changes while reversed.
    pub open spec fn after_toggle_example(self) -> CardSet {
        if self.reversed {
            self
        } else {
            let s = self.zen_cleared();
            CardSet { show_example: !s.show_example, ..s }
        }
    }

    /// The state after `toggle_show_title`.
    pub open spec fn after_toggle_title(self) -> CardSet {
        let s = self.zen_cleared();
        CardSet { show_title: !s.show_title, ..s }
    }

    /// The state after `toggle_show_hints`.
    pub open spec fn after_toggle_hints(self) -> CardSet {
        let s = self.zen_cleared();
        CardSet { show_hints: !s.show_hints, ..s }
    }

    /// Opens a deck of the given cards under the given name.
    pub fn new(name: &str, cards: Vec<CardData>) -> (r: Self)
        ensures
            r.name@ == name@,
            r.cards@ == cards@,
            r.at_start(),
    {
        CardSet {
            name: name.to_owned(),
            cards,
            current_card: 0,
            reversed: false,
            show_pronunciation: true,
            show_description: false,
            show_example: false,
            show_title: true,
            show_hints: true,
            zen_mode: false,
        }
    }

    /// The layout weight for a viewport `width` columns wide, with the given
    /// lengths of the description and example prefixes.
    pub fn count_view_weight(&self, width: usize, desc_prefix: usize, example_prefix: usize) -> (r:
        i32)
        ensures
            r == self.view_weight(width as int, desc_prefix as int, example_prefix as int),
    {
        let mut weight: i32 = 0;
        if self.get_title().is_some() {
            weight -= 1;
        }
        if self.show_hints() {
            weight += 1;
        }
        weight += multirow_with_prefix(self.get_desc(), width, desc_prefix);
        weight += multirow_with_prefix(self.get_example(), width, example_prefix);
        weight
    }

    /// The card under the cursor.
    fn get_current_card(&self) -> (r: Option<&CardData>)
        ensures
            match r {
                Some(card) => self.current() == Some(*card),
                None => self.current() is None,
            },
    {
        if self.current_card < self.cards.len() {
            Some(&self.cards[self.current_card])
        } else {
            None
        }
    }

    /// The text in the middle of the screen.
    pub fn get_main_text(&self) -> (r: &str)
        ensures
            r@ == self.main_text(),
    {
        match self.get_current_card() {
            Some(card) => {
                if self.reversed {
                    card.translated.as_str()
                } else {
                    card.word.as_str()
                }
            },
            None => EMPTY_SET,
        }
    }

    /// The deck name for the title bar, unless it is hidden.
    pub fn get_title(&self) -> (r: Option<&str>)
        ensures
            text_of(r) == self.title_view(),
    {
        if self.show_title && !self.zen_mode {
            Some(self.name.as_str())
        } else {
            None
        }
    }

    /// Whether the hints bar is on screen.
    pub fn show_hints(&self) -> (r: bool)
        ensures
            r == self.hints_visible(),
    {
        self.show_hints && !self.zen_mode
    }

    /// The pronunciation row's text, unless it is hidden.
    pub fn get_pronunciation(&self) -> (r: Option<&str>)
        ensures
            text_of(r) == self.pronunciation_view(),
    {
        match self.get_current_card() {
            Some(card) => if self.show_pronunciation && !self.zen_mode && !self.reversed {
                Some(card.pronunciation.as_str())
            } else {
                None
            },
            None => None,
        }
    }

    /// The description row's text, unless it is hidden.
    pub fn get_desc(&self) -> (r: Option<&str>)
        ensures
            text_of(r) == self.description_view(),
    {
        match self.get_current_card() {
            Some(card) => if self.show_description && !self.zen_mode && !self.reversed {
                Some(card.explanation.as_str())
            } else {
                None
            },
            None => None,
        }
    }

    /// The example row's text, unless it is hidden.
    pub fn get_example(&self) -> (r: Option<&str>)
        ensures
            text_of(r) == self.example_view(),
    {
        match self.get_current_card() {
            Some(card) => if self.show_example && !self.zen_mode && !self.reversed {
                Some(card.sentence.as_str())
            } else {
                None
            },
            None => None,
        }
    }

    /// A field toggle in zen mode first leaves zen mode with every optional
    /// element switched off.
    fn exit_zen_mode_and_turn_optional_elems_off(&mut self)
        ensures
            *final(self) == old(self).zen_cleared(),
    {
        if self.zen_mode {
            self.show_pronunciation = false;
            self.show_description = false;
            self.show_example = false;
            self.show_title = false;
            self.show_hints = false;
            self.zen_mode = false;
        }
    }

    /// Shows or hides the pronunciation, unless the card is reversed; in zen mode, leaves zen mode
    /// showing only that element.
    pub fn toggle_show_pronunciation(&mut self)
        ensures
            *final(self) == old(self).after_toggle_pronunciation(),
    {
        if !self.reversed {
            self.exit_zen_mode_and_turn_optional_elems_off();
            self.show_pronunciation = !self.show_pronunciation;
        }
    }

    /// Shows or hides the description, unless the card is reversed; in zen mode, leaves zen mode
    /// showing only that element.
    pub fn toggle_show_description(&mut self)
        ensures
            *final(self) == old(self).after_toggle_description(),
    {
        if !self.reversed {
            self.exit_zen_mode_and_turn_optional_elems_off();
            self.show_description = !self.show_description;
        }
    }

    /// Shows or hides the example sentence, unless the card is reversed; in zen mode, leaves zen mode
    /// showing only that element.
    pub fn toggle_show_example(&mut self)
        ensures
            *final(self) == old(self).after_toggle_example(),
    {
        if !self.reversed {
            self.exit_zen_mode_and_turn_optional_elems_off();
            self.show_example = !self.show_example;
        }
    }

    /// Shows or hides the title bar; in zen mode, leaves zen mode
    /// showing only that element.
    pub fn toggle_show_title(&mut self)
        ensures
            *final(self) == old(self).after_toggle_title(),
    {
        self.exit_zen_mode_and_turn_optional_elems_off();
        self.show_title = !self.show_title;
    }

    /// Shows or hides the hints bar; in zen mode, leaves zen mode
    /// showing only that element.
    pub fn toggle_show_hints(&mut self)
        ensures
            *final(self) == old(self).after_toggle_hints(),
    {
        self.exit_zen_mode_and_turn_optional_elems_off();
        self.show_hints = !self.show_hints;
    }

    /// Enters or leaves zen mode; the stored flags are kept.
    pub fn toggle_zen_mode(&mut self)
        ensures
            *final(self) == old(self).after_toggle_zen(),
    {
        self.zen_mode = !self.zen_mode;
    }

    /// Flips the card between its term and its translation.
    pub fn reverse_current_card(&mut self)
        ensures
            *final(self) == old(self).after_reverse(),
    {
        self.reversed = !self.reversed;
    }

    /// Moves to the next card; stays put on the last one.
    pub fn next_card(&mut self)
        ensures
            *final(self) == old(self).after_next(),
    {
        if self.current_card < self.cards.len() && self.cards.len() - self.current_card > 1 {
            self.current_card = self.current_card + 1;
        }
    }

    /// Moves to the previous card; stays put on the first one.
    pub fn prev_card(&mut self)
        ensures
            *final(self) == old(self).after_prev(),
    {
        if self.current_card > 0 {
            self.current_card = self.current_card - 1;
        }
    }

    /// Number of cards in the deck.
    pub fn cards_len(&self) -> (r: usize)
        ensures
            r == self.cards@.len(),
    {
        self.cards.len()
    }
}

/// Height of the spacer that takes up a signed weight: the weight itself when
/// it is positive, else nothing. The spacer above the term gets the weight, the
/// one below gets its negation.
pub fn spacer_height(weight: i32) -> (r: usize)
    ensures
        r == if weight > 0 {
            weight as int
        } else {
            0
        },
{
    if weight > 0 {
        weight as usize
    } else {
        0
    }
}

/// Rows taken by an optional field; see `row_weight`.
fn multirow_with_prefix(item: Option<&str>, width: usize, prefix_len: usize) -> (r: i32)
    ensures
        r == row_weight(text_of(item), width as int, prefix_len as int),
{
    match item {
        Some(text) => {
            let len = text.as_bytes().len();
            if len <= width && prefix_len <= width - len {
                1
            } else {
                2
            }
        },
        None => 0,
    }
}

} // verus!
