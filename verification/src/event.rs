//! How the switch answers the events of its button.
//!
//! The only activation of a switch is a click. Of the keys, Space activates
//! it and Enter must not: the host's button would activate on both, so the
//! switch suppresses the default action of Enter and leaves Space to the
//! host.

use crate::state::StateSource;
use vstd::prelude::*;
use vstd::string::StrSliceExecFns;

verus! {

/// The meaning of a key press, as far as the switch tells keys apart.
#[derive(Clone, Debug, PartialEq, Eq)]
pub enum KeyPress {
    Enter,
    /// A key that types `text`.
    Character(String),
    Other,
}

pub enum KeyPressView {
    Enter,
    Character(Seq<char>),
    Other,
}

impl View for KeyPress {
    type V = KeyPressView;

    open spec fn view(&self) -> KeyPressView {
        match self {
            KeyPress::Enter => KeyPressView::Enter,
            KeyPress::Character(text) => KeyPressView::Character(text@),
            KeyPress::Other => KeyPressView::Other,
        }
    }
}

impl KeyPressView {
    /// The Space key types a single blank.
    pub open spec fn is_space(self) -> bool {
        self matches KeyPressView::Character(text) && text =~= seq![' ']
    }

    /// The keys whose default action the switch suppresses.
    pub open spec fn is_suppressed(self) -> bool {
        self is Enter
    }

    /// The keys on which the host's button clicks itself, unless the default
    /// action of the key press was suppressed.
    pub open spec fn is_host_activation(self) -> bool {
        self is Enter || self.is_space()
    }

    /// The keys that activate the switch while it has focus.
    pub open spec fn activates(self) -> bool {
        self.is_host_activation() && !self.is_suppressed()
    }
}

impl KeyPress {
    pub fn is_space(&self) -> (space: bool)
        ensures
            space == self@.is_space(),
    {
        match self {
            KeyPress::Character(text) => {
                let text = text.as_str();
                text.unicode_len() == 1 && text.get_char(0) == ' '
            },
            _ => false,
        }
    }

    pub fn is_suppressed(&self) -> (suppressed: bool)
        ensures
            suppressed == self@.is_suppressed(),
    {
        match self {
            KeyPress::Enter => true,
            _ => false,
        }
    }

    pub fn is_host_activation(&self) -> (activation: bool)
        ensures
            activation == self@.is_host_activation(),
    {
        match self {
            KeyPress::Enter => true,
            _ => self.is_space(),
        }
    }
}

/// An event on the button of the switch.
#[derive(Clone, Debug, PartialEq, Eq)]
pub enum SwitchEvent {
    Click,
    KeyDown(KeyPress),
}

pub enum SwitchEventView {
    Click,
    KeyDown(KeyPressView),
}

impl View for SwitchEvent {
    type V = SwitchEventView;

    open spec fn view(&self) -> SwitchEventView {
        match self {
            SwitchEvent::Click => SwitchEventView::Click,
            SwitchEvent::KeyDown(key) => SwitchEventView::KeyDown(key@),
        }
    }
}

/// What the host is to do after the switch has handled an event.
#[derive(Clone, Copy, Debug, PartialEq, Eq, Structural)]
pub struct Reaction {
    /// The value to call the change callback with, if it is to be called.
    pub notify: Option<bool>,
    /// Whether the default action of the event is to be suppressed.
    pub prevent_default: bool,
}

impl Reaction {
    /// The reaction that asks nothing of the host.
    pub open spec fn nothing() -> Reaction {
        Reaction { notify: None, prevent_default: false }
    }
}

/// The state source after the switch has handled `event`.
pub open spec fn source_after(source: StateSource, disabled: bool, event: SwitchEventView)
    -> StateSource {
    match event {
        SwitchEventView::Click => if disabled {
            source
        } else {
            source.after_set(!source.checked())
        },
        SwitchEventView::KeyDown(key) => source,
    }
}

/// What the switch asks of the host when it handles `event`.
pub open spec fn reaction_to(source: StateSource, disabled: bool, event: SwitchEventView)
    -> Reaction {
    match event {
        SwitchEventView::Click => if disabled {
            Reaction::nothing()
        } else {
            Reaction { notify: Some(!source.checked()), prevent_default: false }
        },
        SwitchEventView::KeyDown(key) => Reaction {
            notify: None,
            prevent_default: key.is_suppressed(),
        },
    }
}

/// Handles an event on the button. A click on an enabled switch asks the
/// source to take the opposite value and reports that value for the change
/// callback; a click on a disabled switch does nothing. A key press never
/// changes the state; that of Enter has its default action suppressed.
pub fn handle(source: &mut StateSource, disabled: bool, event: &SwitchEvent) -> (reaction: Reaction)
    ensures
        *final(source) == source_after(*old(source), disabled, event@),
        reaction == reaction_to(*old(source), disabled, event@),
{
    match event {
        SwitchEvent::Click => {
            if disabled {
                Reaction { notify: None, prevent_default: false }
            } else {
                let notified = source.toggle();
                Reaction { notify: Some(notified), prevent_default: false }
            }
        },
        SwitchEvent::KeyDown(key) => Reaction { notify: None, prevent_default: key.is_suppressed() },
    }
}

/// The state source after `key` was pressed while the button had focus.
pub open spec fn source_after_press(source: StateSource, disabled: bool, key: KeyPressView)
    -> StateSource {
    if !disabled && key.activates() {
        source_after(source, disabled, SwitchEventView::Click)
    } else {
        source
    }
}

/// What the switch asks of the host over the whole of a key press.
pub open spec fn reaction_to_press(source: StateSource, disabled: bool, key: KeyPressView)
    -> Reaction {
    if disabled {
        Reaction::nothing()
    } else {
        Reaction {
            notify: if key.activates() {
                Some(!source.checked())
            } else {
                None
            },
            prevent_default: key.is_suppressed(),
        }
    }
}

/// Plays a key press on the focused button through: the switch handles the
/// key, and where the host's button clicks itself on that key and the
/// default action was not suppressed, the switch handles the click too. A
/// disabled button receives no events at all.
pub fn press(source: &mut StateSource, disabled: bool, key: KeyPress) -> (reaction: Reaction)
    ensures
        *final(source) == source_after_press(*old(source), disabled, key@),
        reaction == reaction_to_press(*old(source), disabled, key@),
{
    if disabled {
        return Reaction { notify: None, prevent_default: false };
    }
    let host_activation = key.is_host_activation();
    let down = handle(source, disabled, &SwitchEvent::KeyDown(key));
    if host_activation && !down.prevent_default {
        let click = handle(source, disabled, &SwitchEvent::Click);
        Reaction { notify: click.notify, prevent_default: down.prevent_default }
    } else {
        down
    }
}

} // verus!
