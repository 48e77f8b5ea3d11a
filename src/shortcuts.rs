use vstd::prelude::*;
use vstd::string::StringExecFns;
use crate::card_data::CardSet;

verus! {

/// A key press as the viewer binds it.
#[derive(Clone, Copy, Debug, PartialEq, Eq, Structural)]
pub enum KeyEvent {
    Char(char),
    AltChar(char),
    CtrlChar(char),
}

/// How a key press is written in the help overlay.
pub trait DisplayEventInHelp {
    spec fn help_label(&self) -> Seq<char>;

    fn help_text(&self) -> (r: String)
        ensures
            r@ == self.help_label(),
    ;
}

/// Relies on `String::from(char)`: the string of that one character.
#[verifier::external_body]
fn char_string(c: char) -> (r: String)
    ensures
        r@ == seq![c],
{
    String::from(c)
}

impl DisplayEventInHelp for KeyEvent {
    open spec fn help_label(&self) -> Seq<char> {
        match *self {
            KeyEvent::Char(c) => if c == ' ' {
                "space"@
            } else {
                seq![c]
            },
            KeyEvent::AltChar(c) => "alt+"@ + seq![c],
            KeyEvent::CtrlChar(c) => "ctrl+"@ + seq![c],
        }
    }

    fn help_text(&self) -> (r: String) {
        match *self {
            KeyEvent::Char(c) => if c == ' ' {
                String::from_str("space")
            } else {
                char_string(c)
            },
            KeyEvent::AltChar(c) => String::from_str("alt+").concat(char_string(c).as_str()),
            KeyEvent::CtrlChar(c) => String::from_str("ctrl+").concat(char_string(c).as_str()),
        }
    }
}

/// What the interface does after a shortcut has been handled.
#[derive(Clone, Copy, Debug, PartialEq, Eq, Structural)]
pub enum Action {
    /// Close the open popup, or quit when none is open.
    BackOrQuit,
    /// Open the help overlay.
    ShowHelp,
    /// Redraw the card from the engine's new state.
    Redraw,
}

/// The commands a user can bind to keys.
#[derive(Clone, Copy, Debug, PartialEq, Eq, Structural)]
pub enum Shortcut {
    Quit,
    ReverseCard,
    PrevCard,
    NextCard,
    TogglePronunciationVisibility,
    ToggleDescriptionVisibility,
    ToggleExampleVisibility,
    ToggleTitleVisibility,
    ToggleHintsVisibility,
    ToggleZenMode,
    Help,
}

/// Every shortcut, in the order the help overlay lists them.
pub open spec fn shortcut_order() -> Seq<Shortcut> {
    seq![
        Shortcut::Quit,
        Shortcut::ReverseCard,
        Shortcut::PrevCard,
        Shortcut::NextCard,
        Shortcut::TogglePronunciationVisibility,
        Shortcut::ToggleDescriptionVisibility,
        Shortcut::ToggleExampleVisibility,
        Shortcut::ToggleTitleVisibility,
        Shortcut::ToggleHintsVisibility,
        Shortcut::ToggleZenMode,
        Shortcut::Help,
    ]
}

pub fn all_shortcuts() -> (r: Vec<Shortcut>)
    ensures
        r@ == shortcut_order(),
{
    vec![
        Shortcut::Quit,
        Shortcut::ReverseCard,
        Shortcut::PrevCard,
        Shortcut::NextCard,
        Shortcut::TogglePronunciationVisibility,
        Shortcut::ToggleDescriptionVisibility,
        Shortcut::ToggleExampleVisibility,
        Shortcut::ToggleTitleVisibility,
        Shortcut::ToggleHintsVisibility,
        Shortcut::ToggleZenMode,
        Shortcut::Help,
    ]
}

impl Shortcut {
    /// The keys bound to the shortcut.
    pub open spec fn keys(self) -> Seq<KeyEvent> {
        match self {
            Shortcut::Quit => seq![KeyEvent::Char('q')],
            Shortcut::ReverseCard => seq![KeyEvent::Char(' ')],
            Shortcut::PrevCard => seq![KeyEvent::Char('p'), KeyEvent::Char('h')],
            Shortcut::NextCard => seq![KeyEvent::Char('n'), KeyEvent::Char('l')],
            Shortcut::TogglePronunciationVisibility => seq![KeyEvent::Char('r')],
            Shortcut::ToggleDescriptionVisibility => seq![KeyEvent::Char('d')],
            Shortcut::ToggleExampleVisibility => seq![KeyEvent::Char('e')],
            Shortcut::ToggleTitleVisibility => seq![KeyEvent::Char('t')],
            Shortcut::ToggleHintsVisibility => seq![KeyEvent::Char('b')],
            Shortcut::ToggleZenMode => seq![KeyEvent::Char('z')],
            Shortcut::Help => seq![KeyEvent::Char('?')],
        }
    }

    /// The line that describes the shortcut in the help overlay.
    pub open spec fn description(self) -> Seq<char> {
        match self {
            Shortcut::Quit => "Quit app or close popup"@,
            Shortcut::ReverseCard => "Reverse card"@,
            Shortcut::PrevCard => "Previous card"@,
            Shortcut::NextCard => "Next card"@,
            Shortcut::TogglePronunciationVisibility => "Show/hide pronunciation"@,
            Shortcut::ToggleDescriptionVisibility => "Show/hide term description"@,
            Shortcut::ToggleExampleVisibility => "Show/hide example sentence"@,
            Shortcut::ToggleTitleVisibility => "Show/hide title bar"@,
            Shortcut::ToggleHintsVisibility => "Show/hide hints bar"@,
            Shortcut::ToggleZenMode => "Toggle zen mode"@,
            Shortcut::Help => "Show help"@,
        }
    }

    /// The deck state after the shortcut's command.
    pub open spec fn apply(self, s: CardSet) -> CardSet {
        match self {
            Shortcut::ReverseCard => s.after_reverse(),
            Shortcut::PrevCard => s.after_prev(),
            Shortcut::NextCard => s.after_next(),
            Shortcut::TogglePronunciationVisibility => s.after_toggle_pronunciation(),
            Shortcut::ToggleDescriptionVisibility => s.after_toggle_description(),
            Shortcut::ToggleExampleVisibility => s.after_toggle_example(),
            Shortcut::ToggleTitleVisibility => s.after_toggle_title(),
            Shortcut::ToggleHintsVisibility => s.after_toggle_hints(),
            Shortcut::ToggleZenMode => s.after_toggle_zen(),
            Shortcut::Quit | Shortcut::Help => s,
        }
    }

    /// What the interface does once the command has run.
    pub open spec fn follow_up(self) -> Action {
        match self {
            Shortcut::Quit => Action::BackOrQuit,
            Shortcut::Help => Action::ShowHelp,
            _ => Action::Redraw,
        }
    }

    pub fn event(&self) -> (r: Vec<KeyEvent>)
        ensures
            r@ == self.keys(),
    {
        match *self {
            Shortcut::Quit => vec![KeyEvent::Char('q')],
            Shortcut::ReverseCard => vec![KeyEvent::Char(' ')],
            Shortcut::PrevCard => vec![KeyEvent::Char('p'), KeyEvent::Char('h')],
            Shortcut::NextCard => vec![KeyEvent::Char('n'), KeyEvent::Char('l')],
            Shortcut::TogglePronunciationVisibility => vec![KeyEvent::Char('r')],
            Shortcut::ToggleDescriptionVisibility => vec![KeyEvent::Char('d')],
            Shortcut::ToggleExampleVisibility => vec![KeyEvent::Char('e')],
            Shortcut::ToggleTitleVisibility => vec![KeyEvent::Char('t')],
            Shortcut::ToggleHintsVisibility => vec![KeyEvent::Char('b')],
            Shortcut::ToggleZenMode => vec![KeyEvent::Char('z')],
            Shortcut::Help => vec![KeyEvent::Char('?')],
        }
    }

    pub fn desc(&self) -> (r: String)
        ensures
            r@ == self.description(),
    {
        match *self {
            Shortcut::Quit => String::from_str("Quit app or close popup"),
            Shortcut::ReverseCard => String::from_str("Reverse card"),
            Shortcut::PrevCard => String::from_str("Previous card"),
            Shortcut::NextCard => String::from_str("Next card"),
            Shortcut::TogglePronunciationVisibility => String::from_str("Show/hide pronunciation"),
            Shortcut::ToggleDescriptionVisibility => String::from_str(
                "Show/hide term description",
            ),
            Shortcut::ToggleExampleVisibility => String::from_str("Show/hide example sentence"),
            Shortcut::ToggleTitleVisibility => String::from_str("Show/hide title bar"),
            Shortcut::ToggleHintsVisibility => String::from_str("Show/hide hints bar"),
            Shortcut::ToggleZenMode => String::from_str("Toggle zen mode"),
            Shortcut::Help => String::from_str("Show help"),
        }
    }

    /// Runs the shortcut's command on the deck and tells the interface what
    /// to do next.
    pub fn call(&self, card_set: &mut CardSet) -> (r: Action)
        ensures
            *final(card_set) == self.apply(*old(card_set)),
            r == self.follow_up(),
    {
        match *self {
            Shortcut::Quit => Action::BackOrQuit,
            Shortcut::ReverseCard => {
                card_set.reverse_current_card();
                Action::Redraw
            },
            Shortcut::PrevCard => {
                card_set.prev_card();
                Action::Redraw
            },
            Shortcut::NextCard => {
                card_set.next_card();
                Action::Redraw
            },
            Shortcut::TogglePronunciationVisibility => {
                card_set.toggle_show_pronunciation();
                Action::Redraw
            },
            Shortcut::ToggleDescriptionVisibility => {
                card_set.toggle_show_description();
                Action::Redraw
            },
            Shortcut::ToggleExampleVisibility => {
                card_set.toggle_show_example();
                Action::Redraw
            },
            Shortcut::ToggleTitleVisibility => {
                card_set.toggle_show_title();
                Action::Redraw
            },
            Shortcut::ToggleHintsVisibility => {
                card_set.toggle_show_hints();
                Action::Redraw
            },
            Shortcut::ToggleZenMode => {
                card_set.toggle_zen_mode();
                Action::Redraw
            },
            Shortcut::Help => Action::ShowHelp,
        }
    }
}

} // verus!
