//! Laws of the card view state, stated over the transitions that the commands
//! of `CardSet` perform.
use vstd::prelude::*;
use vstd::utf8::encode_utf8;
use crate::card_data::CardSet;

verus! {

/// From a card that has a successor, `next` then `prev` returns to the same
/// state.
pub proof fn lemma_next_then_prev(s: CardSet)
    requires
        s.cards@.len() <= usize::MAX,
        s.current_card + 1 < s.cards@.len(),
    ensures
        s.after_next().after_prev() == s,
{
}

/// From a card that has a predecessor, `prev` then `next` returns to the same
/// state.
pub proof fn lemma_prev_then_next(s: CardSet)
    requires
        0 < s.current_card < s.cards@.len(),
    ensures
        s.after_prev().after_next() == s,
{
}

/// On the first card `prev` changes nothing, so repeating it changes nothing.
pub proof fn lemma_prev_on_first_card(s: CardSet)
    requires
        s.current_card == 0,
    ensures
        s.after_prev() == s,
        s.after_prev().after_prev() == s.after_prev(),
{
}

/// On the last card `next` changes nothing, so repeating it changes nothing.
pub proof fn lemma_next_on_last_card(s: CardSet)
    requires
        s.current_card + 1 == s.cards@.len(),
    ensures
        s.after_next() == s,
        s.after_next().after_next() == s.after_next(),
{
}

/// Outside zen mode, toggling any of the five visibility flags twice restores
/// the state (while reversed, the card-field toggles change nothing at all).
pub proof fn lemma_toggle_twice(s: CardSet)
    requires
        !s.zen_mode,
    ensures
        s.after_toggle_pronunciation().after_toggle_pronunciation() == s,
        s.after_toggle_description().after_toggle_description() == s,
        s.after_toggle_example().after_toggle_example() == s,
        s.after_toggle_title().after_toggle_title() == s,
        s.after_toggle_hints().after_toggle_hints() == s,
{
}

/// Entering and leaving zen mode restores the state, and with it every
/// accessor's output.
pub proof fn lemma_zen_round_trip(s: CardSet)
    ensures
        s.after_toggle_zen().after_toggle_zen() == s,
        s.after_toggle_zen().after_toggle_zen().title_view() == s.title_view(),
        s.after_toggle_zen().after_toggle_zen().hints_visible() == s.hints_visible(),
        s.after_toggle_zen().after_toggle_zen().pronunciation_view() == s.pronunciation_view(),
        s.after_toggle_zen().after_toggle_zen().description_view() == s.description_view(),
        s.after_toggle_zen().after_toggle_zen().example_view() == s.example_view(),
        s.after_toggle_zen().after_toggle_zen().main_text() == s.main_text(),
{
}

/// In zen mode every optional element is hidden, whatever the flags hold.
pub proof fn lemma_zen_hides_everything(s: CardSet)
    requires
        s.zen_mode,
    ensures
        s.title_view() is None,
        !s.hints_visible(),
        s.pronunciation_view() is None,
        s.description_view() is None,
        s.example_view() is None,
{
}

/// Whether the state shows no optional element but those allowed.
pub open spec fn shows_only(
    t: CardSet,
    title: bool,
    hints: bool,
    pronunciation: bool,
    description: bool,
    example: bool,
) -> bool {
    &&& !t.zen_mode
    &&& !title ==> t.title_view() is None
    &&& !hints ==> !t.hints_visible()
    &&& !pronunciation ==> t.pronunciation_view() is None
    &&& !description ==> t.description_view() is None
    &&& !example ==> t.example_view() is None
}

/// In zen mode, toggling the title leaves zen mode and shows the title alone.
pub proof fn lemma_zen_override_title(s: CardSet)
    requires
        s.zen_mode,
    ensures
        shows_only(s.after_toggle_title(), true, false, false, false, false),
        s.after_toggle_title().title_view() == Some(s.name@),
{
}

/// In zen mode, toggling the hints leaves zen mode and shows the hints alone.
pub proof fn lemma_zen_override_hints(s: CardSet)
    requires
        s.zen_mode,
    ensures
        shows_only(s.after_toggle_hints(), false, true, false, false, false),
        s.after_toggle_hints().hints_visible(),
{
}

/// In zen mode on the front side, toggling the pronunciation leaves zen mode
/// and shows the pronunciation alone.
pub proof fn lemma_zen_override_pronunciation(s: CardSet)
    requires
        s.zen_mode,
        !s.reversed,
    ensures
        shows_only(s.after_toggle_pronunciation(), false, false, true, false, false),
        s.current() matches Some(card) ==> s.after_toggle_pronunciation().pronunciation_view()
            == Some(card.pronunciation@),
{
}

/// In zen mode on the front side, toggling the description leaves zen mode
/// and shows the description alone.
pub proof fn lemma_zen_override_description(s: CardSet)
    requires
        s.zen_mode,
        !s.reversed,
    ensures
        shows_only(s.after_toggle_description(), false, false, false, true, false),
        s.current() matches Some(card) ==> s.after_toggle_description().description_view()
            == Some(card.explanation@),
{
}

/// In zen mode on the front side, toggling the example leaves zen mode and
/// shows the example alone.
pub proof fn lemma_zen_override_example(s: CardSet)
    requires
        s.zen_mode,
        !s.reversed,
    ensures
        shows_only(s.after_toggle_example(), false, false, false, false, true),
        s.current() matches Some(card) ==> s.after_toggle_example().example_view() == Some(
            card.sentence@,
        ),
{
}

/// While the card is reversed, the card-field toggles change nothing.
pub proof fn lemma_reversed_blocks_field_toggles(s: CardSet)
    requires
        s.reversed,
    ensures
        s.after_toggle_pronunciation() == s,
        s.after_toggle_description() == s,
        s.after_toggle_example() == s,
{
}

/// The title alone tilts the weight up by one.
pub proof fn lemma_weight_title_only(s: CardSet, width: int, desc_prefix: int, example_prefix: int)
    requires
        !s.zen_mode,
        s.show_title,
        !s.show_hints,
        !s.show_description,
        !s.show_example,
    ensures
        s.view_weight(width, desc_prefix, example_prefix) == -1,
{
}

/// The hints bar alone tilts the weight down by one.
pub proof fn lemma_weight_hints_only(s: CardSet, width: int, desc_prefix: int, example_prefix: int)
    requires
        !s.zen_mode,
        !s.show_title,
        s.show_hints,
        !s.show_description,
        !s.show_example,
    ensures
        s.view_weight(width, desc_prefix, example_prefix) == 1,
{
}

/// A shown description alone tilts the weight down by one row when its
/// prefixed text fits the width, by two when it does not.
pub proof fn lemma_weight_description_only(
    s: CardSet,
    width: int,
    desc_prefix: int,
    example_prefix: int,
)
    requires
        !s.zen_mode,
        !s.reversed,
        s.current() is Some,
        !s.show_title,
        !s.show_hints,
        s.show_description,
        !s.show_example,
    ensures
        desc_prefix + encode_utf8(s.current()->0.explanation@).len() <= width ==> s.view_weight(
            width,
            desc_prefix,
            example_prefix,
        ) == 1,
        desc_prefix + encode_utf8(s.current()->0.explanation@).len() > width ==> s.view_weight(
            width,
            desc_prefix,
            example_prefix,
        ) == 2,
{
}

/// A shown example alone tilts the weight down by one row when its prefixed
/// text fits the width, by two when it does not.
pub proof fn lemma_weight_example_only(
    s: CardSet,
    width: int,
    desc_prefix: int,
    example_prefix: int,
)
    requires
        !s.zen_mode,
        !s.reversed,
        s.current() is Some,
        !s.show_title,
        !s.show_hints,
        !s.show_description,
        s.show_example,
    ensures
        example_prefix + encode_utf8(s.current()->0.sentence@).len() <= width ==> s.view_weight(
            width,
            desc_prefix,
            example_prefix,
        ) == 1,
        example_prefix + encode_utf8(s.current()->0.sentence@).len() > width ==> s.view_weight(
            width,
            desc_prefix,
            example_prefix,
        ) == 2,
{
}

} // verus!
