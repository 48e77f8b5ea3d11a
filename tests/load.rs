use worm::card_data::CardData;
use worm::load::{read_card_set, shuffle};

fn cards(n: usize) -> Vec<CardData> {
    (0..n)
        .map(|i| CardData {
            word: format!("w{}", i),
            translated: format!("t{}", i),
            explanation: String::new(),
            pronunciation: String::new(),
            sentence: String::new(),
        })
        .collect()
}

fn words(c: &[CardData]) -> Vec<String> {
    c.iter().map(|c| c.word.clone()).collect()
}

#[test]
fn deck_is_named_after_its_source() {
    let set = read_card_set(Some("cards.json"), cards(2), false);
    assert_eq!("cards.json", set.name);
    assert_eq!(vec!["w0", "w1"], words(&set.cards));
    let set = read_card_set(None, cards(1), false);
    assert_eq!("stdin", set.name);
    assert_eq!(0, set.current_card);
    assert_eq!("w0", set.get_main_text());
}

#[test]
fn shuffle_keeps_every_card() {
    let mut shuffled = words(&shuffle(cards(50), true));
    assert_eq!(50, shuffled.len());
    shuffled.sort();
    let mut original = words(&cards(50));
    original.sort();
    assert_eq!(original, shuffled);
    assert_eq!(words(&cards(5)), words(&shuffle(cards(5), false)));
}

#[test]
fn shuffling_reorders_a_large_deck() {
    let set = read_card_set(None, cards(200), true);
    assert_eq!(200, set.cards_len());
    assert_ne!(words(&cards(200)), words(&set.cards));
}
