//! View-state engine of a terminal flashcard viewer: a deck of cards with a
//! cursor, per-field visibility toggles, an exclusive zen mode, and the layout
//! weight that balances the rows around the main term.
pub mod card_data;
pub mod card_laws;
pub mod select_data;
pub mod shortcuts;
pub mod load;
