use sickle_ui::button::{button_name, Button};
use sickle_ui::interaction::FluxInteraction;

#[test]
fn contexts_resolve_to_their_entities() {
    let b = Button::new(11, 12, 13);
    assert_eq!(b.get(Button::CHECKMARK_BACKGROUND), Ok(11));
    assert_eq!(b.get(Button::CHECKMARK), Ok(12));
    assert_eq!(b.get(Button::LABEL), Ok(13));
    for name in b.contexts() {
        assert!(b.get(name).is_ok());
    }
}

#[test]
fn contexts_are_listed_in_order() {
    let b = Button::new(1, 2, 3);
    assert_eq!(b.contexts(), vec!["CheckmarkBackground", "Checkmark", "Label"]);
}

#[test]
fn unknown_context_names_the_known_ones() {
    let b = Button::new(1, 2, 3);
    let err = b.get("Foo").unwrap_err();
    assert_eq!(
        err,
        "Foo doesn't exists for Checkbox. Possible contexts: [\"CheckmarkBackground\", \"Checkmark\", \"Label\"]"
    );
    assert_eq!(
        err,
        format!(
            "{} doesn't exists for Checkbox. Possible contexts: {:?}",
            "Foo",
            b.contexts()
        )
    );
    assert!(b.get("checkmark").is_err());
    assert!(b.get("").is_err());
}

#[test]
fn release_toggles_the_checkbox() {
    let mut b = Button::new(1, 2, 3);
    assert!(!b.checked);
    b.toggle_on_release(FluxInteraction::Released);
    assert!(b.checked);
    b.toggle_on_release(FluxInteraction::Pressed);
    assert!(b.checked);
    b.toggle_on_release(FluxInteraction::PointerEnter);
    assert!(b.checked);
    b.toggle_on_release(FluxInteraction::Released);
    assert!(!b.checked);
    assert_eq!(b.get(Button::LABEL), Ok(3));
}

#[test]
fn button_names() {
    assert_eq!(button_name(""), "Button");
    assert_eq!(button_name("OK"), "Button [OK]");
}
