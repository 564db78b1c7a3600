use critters::{
    text_length, Alignment, ButtonElement, ButtonGroupElement, ClipId, ConfirmButtonElement,
    ContentElement, LabelTheme, LabelTrim, Pointer, ToggleButtonElement, UIEvent,
};

fn pointer_at(x: i32, y: i32, button: bool) -> Pointer {
    Pointer { previous: None, real: (x, y), location: (x, y), button, alt_button: false }
}

fn plain_button(value: usize) -> ButtonElement {
    ButtonElement::new(
        (0, 0),
        (20, 10),
        value,
        LabelTrim::Round,
        LabelTheme::Default,
        ContentElement::Empty,
    )
}

#[test]
fn pointer_clicks_on_button_edge() {
    let mut pointer = pointer_at(5, 5, true);
    // No recorded history: a held button counts as a click.
    assert!(pointer.clicked());
    // After a swap the button is no longer freshly pressed.
    pointer.swap();
    assert!(!pointer.clicked());
    // Releasing and pressing again clicks anew.
    pointer.button = false;
    pointer.swap();
    pointer.button = true;
    assert!(pointer.clicked());
    assert!(!pointer.alt_clicked());
}

#[test]
fn pointer_regions_and_teleport() {
    let pointer = pointer_at(5, 5, false);
    assert!(pointer.in_region((0, 0), (10, 10)));
    assert!(!pointer.in_region((6, 0), (10, 10)));
    assert!(!pointer.in_region((0, 0), (5, 10)));
    let moved = pointer.teleport((-5, 10));
    assert_eq!(moved.location, (0, 15));
    assert_eq!(moved.real, (5, 5));
}

#[test]
fn buttons_click_when_hovered() {
    let mut button = plain_button(7);
    let hit = pointer_at(5, 5, true);
    let event = button.tick(&hit);
    assert_eq!(event, Some(UIEvent::ButtonClick(7, Some(ClipId::ClickForward))));

    let miss = pointer_at(50, 5, true);
    assert_eq!(button.tick(&miss), None);

    let hover_only = pointer_at(5, 5, false);
    assert_eq!(button.tick(&hover_only), None);
}

#[test]
fn disabled_buttons_never_click() {
    let mut button = ButtonElement::new(
        (0, 0),
        (20, 10),
        3,
        LabelTrim::Return,
        LabelTheme::Disabled,
        ContentElement::Text("off".to_string(), Alignment::Center),
    );
    assert_eq!(button.tick(&pointer_at(5, 5, true)), None);
}

#[test]
fn confirm_button_fires_on_second_click() {
    let mut confirm = ConfirmButtonElement::new(
        (0, 0),
        (20, 10),
        9,
        LabelTrim::Return,
        LabelTheme::Default,
        ContentElement::Empty,
    );
    let hit = pointer_at(5, 5, true);
    // First click arms the button.
    assert_eq!(confirm.tick(&hit), None);
    // Second click fires it, and it stays armed while clicks keep landing.
    assert_eq!(confirm.tick(&hit), Some(UIEvent::ButtonClick(9, Some(ClipId::ClickBack))));
    assert_eq!(confirm.tick(&hit), Some(UIEvent::ButtonClick(9, Some(ClipId::ClickBack))));
    // A click elsewhere disarms, so the next click only re-arms.
    let elsewhere = pointer_at(90, 90, true);
    assert_eq!(confirm.tick(&elsewhere), None);
    assert_eq!(confirm.tick(&hit), None);
}

#[test]
fn toggle_button_flips() {
    let mut toggle = ToggleButtonElement::new(
        (0, 0),
        (20, 10),
        2,
        LabelTrim::Glorious,
        LabelTheme::Bright,
        ContentElement::Empty,
    );
    assert!(!toggle.selected());
    toggle.toggle();
    assert!(toggle.selected());
    toggle.set_selected(false);
    assert!(!toggle.selected());
    let event = toggle.tick(&pointer_at(5, 5, true));
    assert_eq!(event, Some(UIEvent::ButtonClick(2, Some(ClipId::ClickForward))));
    assert!(toggle.selected());
}

#[test]
fn button_group_selects_clicked_value() {
    let mut second = plain_button(1);
    second.position = (30, 0);
    let group = vec![plain_button(0), second];
    let mut group = ButtonGroupElement::new((100, 100), group, 0);

    // Click inside the second button, in the group's translated frame.
    let event = group.tick(&pointer_at(135, 105, true));
    assert_eq!(event, Some(UIEvent::ButtonClick(1, Some(ClipId::ClickForward))));
    assert_eq!(group.value, 1);
    // The first button was visited before the click landed, so its
    // selection still reflects the old value until the next frame.
    assert!(group.buttons[0].selected);
    assert!(group.buttons[1].selected);

    // A click elsewhere keeps the selection and refreshes every button.
    let event = group.tick(&pointer_at(0, 0, true));
    assert_eq!(event, None);
    assert_eq!(group.value, 1);
    assert!(!group.buttons[0].selected);
    assert!(group.buttons[1].selected);
}

#[test]
fn text_lengths_follow_kerning() {
    assert_eq!(text_length(""), 0);
    // 'i' kerns to 4 pixels, 'l' to 5.
    assert_eq!(text_length("il"), 9);
    assert_eq!(text_length("Hello"), 32);
    assert_eq!(text_length("Rematch"), 50);
}
