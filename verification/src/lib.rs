//! A minimal counter widget core: an integer value and a text line,
//! three input events that mutate them, and a pure rendering function
//! that maps the state to a data-only description of the widget tree.
//! The host GUI toolkit delivers the events and paints the description;
//! it is not part of this crate.

mod decimal;
mod laws;
mod render;
mod state;
mod style;

pub use decimal::decimal_of;
pub use decimal::i32_to_decimal;
pub use laws::apply_repeated;
pub use laws::lemma_decrement_subtracts_one;
pub use laws::lemma_field_independence;
pub use laws::lemma_increment_adds_one;
pub use laws::lemma_increment_decrement_round_trip;
pub use laws::lemma_increment_then_decrement;
pub use laws::lemma_render_deterministic;
pub use laws::lemma_repeated_decrement;
pub use laws::lemma_repeated_increment;
pub use laws::lemma_text_changed_sets_text;
pub use render::ButtonDescription;
pub use render::ButtonModel;
pub use render::TextInputDescription;
pub use render::TextInputModel;
pub use render::ViewDescription;
pub use render::ViewModel;
pub use render::spec_render;
pub use state::Counter;
pub use state::Event;
pub use state::PressMessage;
pub use state::StateModel;
pub use state::initial_state;
pub use state::spec_apply;
pub use style::ButtonStyle;
pub use style::MyButtonStyle;
pub use style::Rgb;
pub use style::active_button_style;
