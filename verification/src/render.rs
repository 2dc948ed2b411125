//! The rendering function: a pure mapping from the counter state to a
//! data-only description of the widget tree. The host toolkit walks the
//! description and paints it; nothing here draws.

use crate::decimal::decimal_of;
use crate::decimal::i32_to_decimal;
use crate::state::Counter;
use crate::state::Event;
use crate::state::PressMessage;
use crate::state::StateModel;
use crate::style::ButtonStyle;
use crate::style::MyButtonStyle;
use crate::style::active_button_style;
use vstd::prelude::*;

verus! {

/// One button of the widget tree: its label, the message a press emits,
/// its style, and its padding where one is set.
#[derive(Debug, Clone, PartialEq, Eq)]
pub struct ButtonDescription {
    pub label: String,
    pub on_press: PressMessage,
    pub style: ButtonStyle,
    pub padding: Option<u16>,
}

/// The mathematical form of a button description.
#[verifier::ext_equal]
pub struct ButtonModel {
    pub label: Seq<char>,
    pub on_press: Event,
    pub style: ButtonStyle,
    pub padding: Option<u16>,
}

impl View for ButtonDescription {
    type V = ButtonModel;

    open spec fn view(&self) -> ButtonModel {
        ButtonModel {
            label: self.label@,
            on_press: self.on_press@,
            style: self.style,
            padding: self.padding,
        }
    }
}

/// The text-entry control: its placeholder and its current contents.
#[derive(Debug, Clone, PartialEq, Eq)]
pub struct TextInputDescription {
    pub placeholder: String,
    pub value: String,
}

/// The mathematical form of a text-entry description.
#[verifier::ext_equal]
pub struct TextInputModel {
    pub placeholder: Seq<char>,
    pub value: Seq<char>,
}

impl View for TextInputDescription {
    type V = TextInputModel;

    open spec fn view(&self) -> TextInputModel {
        TextInputModel { placeholder: self.placeholder@, value: self.value@ }
    }
}

/// The whole widget tree: a static heading, the value written in
/// decimal, the two buttons, and the text-entry control.
#[derive(Debug, Clone, PartialEq, Eq)]
pub struct ViewDescription {
    pub heading: String,
    pub heading_size: u16,
    pub value_text: String,
    pub value_text_size: u16,
    pub increment: ButtonDescription,
    pub decrement: ButtonDescription,
    pub input: TextInputDescription,
}

/// The mathematical form of the widget tree.
#[verifier::ext_equal]
pub struct ViewModel {
    pub heading: Seq<char>,
    pub heading_size: u16,
    pub value_text: Seq<char>,
    pub value_text_size: u16,
    pub increment: ButtonModel,
    pub decrement: ButtonModel,
    pub input: TextInputModel,
}

impl View for ViewDescription {
    type V = ViewModel;

    open spec fn view(&self) -> ViewModel {
        ViewModel {
            heading: self.heading@,
            heading_size: self.heading_size,
            value_text: self.value_text@,
            value_text_size: self.value_text_size,
            increment: self.increment@,
            decrement: self.decrement@,
            input: self.input@,
        }
    }
}

/// What a given state renders as. Every field is fixed by the state
/// alone, so rendering is deterministic.
pub open spec fn spec_render(s: StateModel) -> ViewModel {
    ViewModel {
        heading: "1"@,
        heading_size: 50,
        value_text: decimal_of(s.value),
        value_text_size: 50,
        increment: ButtonModel {
            label: "+"@,
            on_press: Event::Increment,
            style: active_button_style(),
            padding: Some(5u16),
        },
        decrement: ButtonModel {
            label: "-"@,
            on_press: Event::Decrement,
            style: active_button_style(),
            padding: None,
        },
        input: TextInputModel { placeholder: "What needs to be done?"@, value: s.txt },
    }
}

impl Counter {
    /// The widget tree for the current state: exactly `spec_render` of
    /// the state, so two renderings of equal states are equal.
    pub fn render(&self) -> (d: ViewDescription)
        ensures
            d@ == spec_render(self@),
    {
        let sheet = MyButtonStyle;
        let d = ViewDescription {
            heading: "1".to_owned(),
            heading_size: 50,
            value_text: i32_to_decimal(self.value),
            value_text_size: 50,
            increment: ButtonDescription {
                label: "+".to_owned(),
                on_press: PressMessage::IncrementPressed,
                style: sheet.active(),
                padding: Some(5u16),
            },
            decrement: ButtonDescription {
                label: "-".to_owned(),
                on_press: PressMessage::DecrementPressed,
                style: sheet.active(),
                padding: None,
            },
            input: TextInputDescription {
                placeholder: "What needs to be done?".to_owned(),
                value: self.txt.clone(),
            },
        };
        proof {
            assert(d@ =~~= spec_render(self@));
        }
        d
    }
}

} // verus!
