//! The counter state machine: the state itself (an integer value and a
//! text line), the input events, and the transition function that the
//! host event loop drives.

use vstd::prelude::*;

verus! {

/// An input event delivered by the host toolkit: one of the two buttons
/// was pressed, or the text field's contents were replaced.
#[derive(Debug, Clone, PartialEq, Eq)]
pub enum PressMessage {
    IncrementPressed,
    DecrementPressed,
    InputChanged(String),
}

/// The mathematical form of an input event, used by the contracts.
pub enum Event {
    Increment,
    Decrement,
    TextChanged(Seq<char>),
}

impl View for PressMessage {
    type V = Event;

    open spec fn view(&self) -> Event {
        match self {
            PressMessage::IncrementPressed => Event::Increment,
            PressMessage::DecrementPressed => Event::Decrement,
            PressMessage::InputChanged(s) => Event::TextChanged(s@),
        }
    }
}

/// The mathematical form of the counter state: an unbounded integer and
/// a sequence of characters.
#[verifier::ext_equal]
pub struct StateModel {
    pub value: int,
    pub txt: Seq<char>,
}

/// The counter state: the displayed value and the text line. The
/// interaction state of the widgets (focus, press animation) is owned by
/// the host toolkit and is not part of this state.
pub struct Counter {
    pub value: i32,
    pub txt: String,
}

impl View for Counter {
    type V = StateModel;

    open spec fn view(&self) -> StateModel {
        StateModel { value: self.value as int, txt: self.txt@ }
    }
}

/// The state every counter starts in: value zero, empty text.
pub open spec fn initial_state() -> StateModel {
    StateModel { value: 0, txt: Seq::<char>::empty() }
}

/// The transition function: what one event does to the state. It is
/// total, and each event touches exactly one of the two fields.
pub open spec fn spec_apply(s: StateModel, e: Event) -> StateModel {
    match e {
        Event::Increment => StateModel { value: s.value + 1, txt: s.txt },
        Event::Decrement => StateModel { value: s.value - 1, txt: s.txt },
        Event::TextChanged(t) => StateModel { value: s.value, txt: t },
    }
}

impl Counter {
    /// A fresh counter in the initial state.
    pub fn new() -> (c: Counter)
        ensures
            c@ == initial_state(),
    {
        let c = Counter { value: 0, txt: String::new() };
        proof {
            assert(c@ =~= initial_state());
        }
        c
    }

    /// The window title the host toolkit shows for this widget.
    pub fn title(&self) -> (t: String)
        ensures
            t@ == "A cool application"@,
    {
        "A cool application".to_owned()
    }

    /// Applies one event to the state. The value is an `i32`, so the
    /// press that would take it past its range is excluded here; the
    /// transition itself (`spec_apply`) is total.
    pub fn update(&mut self, message: PressMessage)
        requires
            message is IncrementPressed ==> old(self).value < i32::MAX,
            message is DecrementPressed ==> old(self).value > i32::MIN,
        ensures
            final(self)@ == spec_apply(old(self)@, message@),
    {
        match message {
            PressMessage::IncrementPressed => {
                self.value = self.value + 1;
            }
            PressMessage::DecrementPressed => {
                self.value = self.value - 1;
            }
            PressMessage::InputChanged(val) => {
                self.txt = val;
            }
        }
        proof {
            assert(self@ =~= spec_apply(old(self)@, message@));
        }
    }
}

} // verus!
