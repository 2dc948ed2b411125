use counter_core::ButtonStyle;
use counter_core::Counter;
use counter_core::MyButtonStyle;
use counter_core::PressMessage;
use counter_core::Rgb;
use counter_core::i32_to_decimal;

#[test]
fn initial_state_then_increment() {
    let mut c = Counter::new();
    assert_eq!(c.value, 0);
    assert_eq!(c.txt, "");
    c.update(PressMessage::IncrementPressed);
    assert_eq!(c.value, 1);
    assert_eq!(c.txt, "");
}

#[test]
fn decrement_twice_from_one() {
    let mut c = Counter { value: 1, txt: String::new() };
    c.update(PressMessage::DecrementPressed);
    c.update(PressMessage::DecrementPressed);
    assert_eq!(c.value, -1);
    assert_eq!(c.txt, "");
}

#[test]
fn text_changed_replaces_text() {
    let mut c = Counter { value: -1, txt: String::new() };
    c.update(PressMessage::InputChanged(String::from("buy milk")));
    assert_eq!(c.value, -1);
    assert_eq!(c.txt, "buy milk");
}

#[test]
fn text_changed_overwrites_prior_text() {
    let mut c = Counter { value: 3, txt: String::from("old words") };
    c.update(PressMessage::InputChanged(String::from("new")));
    assert_eq!(c.txt, "new");
    assert_eq!(c.value, 3);
}

#[test]
fn increment_then_decrement_leaves_state_unchanged() {
    let mut c = Counter { value: 42, txt: String::from("abc") };
    c.update(PressMessage::IncrementPressed);
    c.update(PressMessage::DecrementPressed);
    assert_eq!(c.value, 42);
    assert_eq!(c.txt, "abc");
}

#[test]
fn many_increments_then_as_many_decrements_round_trip() {
    let mut c = Counter { value: -7, txt: String::from("kept") };
    for _ in 0..10 {
        c.update(PressMessage::IncrementPressed);
    }
    assert_eq!(c.value, 3);
    for _ in 0..10 {
        c.update(PressMessage::DecrementPressed);
    }
    assert_eq!(c.value, -7);
    assert_eq!(c.txt, "kept");
}

#[test]
fn button_events_keep_the_text() {
    let mut c = Counter { value: 0, txt: String::from("steady") };
    c.update(PressMessage::IncrementPressed);
    assert_eq!(c.txt, "steady");
    c.update(PressMessage::DecrementPressed);
    assert_eq!(c.txt, "steady");
}

#[test]
fn title_is_fixed() {
    let c = Counter::new();
    assert_eq!(c.title(), "A cool application");
}

#[test]
fn render_is_deterministic() {
    let c = Counter { value: 17, txt: String::from("same") };
    assert_eq!(c.render(), c.render());
}

#[test]
fn render_describes_the_whole_tree() {
    let c = Counter { value: -5, txt: String::from("buy milk") };
    let d = c.render();
    assert_eq!(d.heading, "1");
    assert_eq!(d.heading_size, 50);
    assert_eq!(d.value_text, "-5");
    assert_eq!(d.value_text_size, 50);
    assert_eq!(d.increment.label, "+");
    assert_eq!(d.increment.on_press, PressMessage::IncrementPressed);
    assert_eq!(d.increment.padding, Some(5));
    assert_eq!(d.decrement.label, "-");
    assert_eq!(d.decrement.on_press, PressMessage::DecrementPressed);
    assert_eq!(d.decrement.padding, None);
    assert_eq!(d.input.placeholder, "What needs to be done?");
    assert_eq!(d.input.value, "buy milk");
}

#[test]
fn render_shows_the_current_value() {
    let mut c = Counter::new();
    assert_eq!(c.render().value_text, "0");
    c.update(PressMessage::IncrementPressed);
    assert_eq!(c.render().value_text, "1");
}

#[test]
fn active_style_holds_the_given_numbers() {
    let s = MyButtonStyle.active();
    let expected = ButtonStyle {
        shadow_offset_x: 0,
        shadow_offset_y: 0,
        background: Rgb { red: 191, green: 221, blue: 255 },
        border_radius: 25,
        border_width: 50,
        text_color: Rgb { red: 255, green: 255, blue: 255 },
        border_color: Rgb { red: 0, green: 0, blue: 0 },
    };
    assert_eq!(s, expected);
    let on_both_buttons = Counter::new().render();
    assert_eq!(on_both_buttons.increment.style, expected);
    assert_eq!(on_both_buttons.decrement.style, expected);
}

#[test]
fn decimal_rendering_matches_std() {
    let cases: Vec<i32> = vec![0, 1, 7, 9, 10, 99, 123, 1000, -1, -10, -123, i32::MAX, i32::MIN];
    for v in cases {
        assert_eq!(i32_to_decimal(v), v.to_string());
    }
    assert_eq!(i32_to_decimal(i32::MAX), "2147483647");
    assert_eq!(i32_to_decimal(i32::MIN), "-2147483648");
}
