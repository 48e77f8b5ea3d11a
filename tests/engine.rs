use worm::card_data::{spacer_height, CardData, CardSet};

fn card(word: &str, translated: &str, explanation: &str, sentence: &str) -> CardData {
    CardData {
        word: word.to_string(),
        translated: translated.to_string(),
        explanation: explanation.to_string(),
        pronunciation: format!("/{}/", word),
        sentence: sentence.to_string(),
    }
}

fn deck(n: usize) -> CardSet {
    let cards = (0..n)
        .map(|i| card(&format!("w{}", i), &format!("t{}", i), "desc", "example"))
        .collect();
    CardSet::new("deck", cards)
}

fn hide_all(set: &mut CardSet) {
    set.show_pronunciation = false;
    set.show_description = false;
    set.show_example = false;
    set.show_title = false;
    set.show_hints = false;
}

#[test]
fn alpaca_llama_scenario() {
    let mut set = CardSet::new(
        "animals",
        vec![card("alpaca", "alpaka", "", ""), card("llama", "lama", "", "")],
    );
    assert!(set.show_pronunciation && !set.show_description && !set.show_example);
    assert!(set.show_title && set.show_hints && !set.zen_mode && !set.reversed);
    assert_eq!("alpaca", set.get_main_text());
    set.reverse_current_card();
    assert_eq!("alpaka", set.get_main_text());
    set.next_card();
    assert_eq!("lama", set.get_main_text());
    set.reverse_current_card();
    assert_eq!("llama", set.get_main_text());
}

#[test]
fn next_then_prev_returns_to_interior_card() {
    let mut set = deck(4);
    set.current_card = 1;
    set.next_card();
    assert_eq!(2, set.current_card);
    set.prev_card();
    assert_eq!(1, set.current_card);
    set.prev_card();
    set.next_card();
    assert_eq!(1, set.current_card);
}

#[test]
fn bounds_are_sticky() {
    let mut set = deck(3);
    set.prev_card();
    set.prev_card();
    assert_eq!(0, set.current_card);
    set.current_card = 2;
    set.next_card();
    set.next_card();
    assert_eq!(2, set.current_card);
}

#[test]
fn navigation_on_empty_deck_stays_put() {
    let mut set = deck(0);
    set.next_card();
    set.prev_card();
    assert_eq!(0, set.current_card);
    assert_eq!(0, set.cards_len());
}

#[test]
fn single_card_deck_does_not_move() {
    let mut set = deck(1);
    set.next_card();
    assert_eq!(0, set.current_card);
    assert_eq!("w0", set.get_main_text());
}

#[test]
fn toggling_twice_restores_each_flag() {
    let mut set = deck(2);
    set.toggle_show_pronunciation();
    set.toggle_show_pronunciation();
    set.toggle_show_description();
    set.toggle_show_description();
    set.toggle_show_example();
    set.toggle_show_example();
    set.toggle_show_title();
    set.toggle_show_title();
    set.toggle_show_hints();
    set.toggle_show_hints();
    assert!(set.show_pronunciation && !set.show_description && !set.show_example);
    assert!(set.show_title && set.show_hints && !set.zen_mode);
}

#[test]
fn zen_round_trip_restores_accessors() {
    let mut set = deck(2);
    set.show_description = true;
    let before = (
        set.get_title().map(|s| s.to_string()),
        set.show_hints(),
        set.get_pronunciation().map(|s| s.to_string()),
        set.get_desc().map(|s| s.to_string()),
        set.get_example().map(|s| s.to_string()),
    );
    set.toggle_zen_mode();
    set.toggle_zen_mode();
    let after = (
        set.get_title().map(|s| s.to_string()),
        set.show_hints(),
        set.get_pronunciation().map(|s| s.to_string()),
        set.get_desc().map(|s| s.to_string()),
        set.get_example().map(|s| s.to_string()),
    );
    assert_eq!(before, after);
    assert_eq!(Some("desc".to_string()), after.3);
}

#[test]
fn zen_hides_everything_but_keeps_flags() {
    let mut set = deck(2);
    set.show_description = true;
    set.show_example = true;
    set.toggle_zen_mode();
    assert_eq!(None, set.get_title());
    assert!(!set.show_hints());
    assert_eq!(None, set.get_pronunciation());
    assert_eq!(None, set.get_desc());
    assert_eq!(None, set.get_example());
    assert!(set.show_description && set.show_example && set.show_title);
    assert_eq!("w0", set.get_main_text());
}

#[test]
fn zen_override_shows_only_toggled_field_with_its_value() {
    let mut set = deck(2);
    set.toggle_zen_mode();
    set.toggle_show_example();
    assert!(!set.zen_mode);
    assert_eq!(Some("example"), set.get_example());
    assert_eq!(None, set.get_title());
    assert_eq!(None, set.get_pronunciation());
    assert_eq!(None, set.get_desc());
    assert!(!set.show_hints());
}

#[test]
fn reversed_blocks_field_toggles_even_in_zen() {
    let mut set = deck(2);
    set.reverse_current_card();
    set.toggle_zen_mode();
    set.toggle_show_description();
    set.toggle_show_example();
    set.toggle_show_pronunciation();
    assert!(set.zen_mode);
    assert!(set.show_pronunciation && !set.show_description && !set.show_example);
    set.toggle_show_title();
    assert!(!set.zen_mode);
    assert!(set.show_title && !set.show_hints && !set.show_pronunciation);
}

#[test]
fn reversed_card_hides_card_fields() {
    let mut set = deck(2);
    set.show_description = true;
    set.reverse_current_card();
    assert_eq!("t0", set.get_main_text());
    assert_eq!(None, set.get_pronunciation());
    assert_eq!(None, set.get_desc());
    assert_eq!(Some("deck"), set.get_title());
}

#[test]
fn weight_with_everything_shown() {
    let mut set = CardSet::new("deck", vec![card("w", "t", "0123456789", "012")]);
    set.show_description = true;
    set.show_example = true;
    assert_eq!(-1 + 1 + 2 + 1, set.count_view_weight(12, 3, 3));
    assert_eq!(-1 + 1 + 1 + 1, set.count_view_weight(13, 3, 10));
    assert_eq!(-1 + 1 + 2 + 2, set.count_view_weight(12, 3, 10));
}

#[test]
fn weight_boundary_is_inclusive() {
    let mut set = CardSet::new("deck", vec![card("w", "t", "abcd", "")]);
    hide_all(&mut set);
    set.show_description = true;
    assert_eq!(1, set.count_view_weight(10, 6, 0));
    assert_eq!(2, set.count_view_weight(9, 6, 0));
}

#[test]
fn weight_counts_bytes_of_text() {
    let mut set = CardSet::new("deck", vec![card("w", "t", "\u{2c8}a", "")]);
    hide_all(&mut set);
    set.show_description = true;
    assert_eq!(1, set.count_view_weight(3, 0, 0));
    assert_eq!(2, set.count_view_weight(2, 0, 0));
}

#[test]
fn weight_of_hidden_fields_is_zero() {
    let mut set = deck(2);
    hide_all(&mut set);
    assert_eq!(0, set.count_view_weight(0, usize::MAX, usize::MAX));
    set.show_title = true;
    set.show_hints = true;
    set.show_description = true;
    set.toggle_zen_mode();
    assert_eq!(0, set.count_view_weight(0, usize::MAX, usize::MAX));
}

#[test]
fn weight_on_empty_deck_ignores_card_fields() {
    let mut set = deck(0);
    set.show_description = true;
    set.show_example = true;
    assert_eq!(0, set.count_view_weight(0, usize::MAX, usize::MAX));
}

#[test]
fn weight_with_huge_prefix_wraps() {
    let mut set = deck(1);
    hide_all(&mut set);
    set.show_example = true;
    assert_eq!(2, set.count_view_weight(usize::MAX, 0, usize::MAX));
}

#[test]
fn spacer_height_takes_positive_part() {
    assert_eq!(3, spacer_height(3));
    assert_eq!(0, spacer_height(0));
    assert_eq!(0, spacer_height(-1));
    assert_eq!(1, spacer_height(-(-1)));
}

#[test]
fn cursor_past_end_shows_sentinel() {
    let mut set = deck(2);
    set.current_card = 5;
    assert_eq!("EMPTY SET", set.get_main_text());
    assert_eq!(None, set.get_pronunciation());
    set.next_card();
    assert_eq!(5, set.current_card);
    set.prev_card();
    assert_eq!(4, set.current_card);
}
