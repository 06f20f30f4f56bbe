use switch::event::{handle, press, KeyPress, Reaction, SwitchEvent};
use switch::node::{AttrName, AttrValue};
use switch::state::StateSource;
use switch::switch::{Switch, SwitchProps};

fn space() -> KeyPress {
    KeyPress::Character(" ".to_string())
}

fn data_state(props: &SwitchProps, source: &StateSource) -> AttrValue {
    Switch(props.clone(), source).button.attr(AttrName::DataState).unwrap().clone()
}

fn checkbox_checked(props: &SwitchProps, source: &StateSource) -> AttrValue {
    Switch(props.clone(), source).input.attr(AttrName::Checked).unwrap().clone()
}

const NOTHING: Reaction = Reaction { notify: None, prevent_default: false };

#[test]
fn space_is_the_key_that_types_one_blank() {
    assert!(space().is_space());
    assert!(!KeyPress::Enter.is_space());
    assert!(!KeyPress::Other.is_space());
    assert!(!KeyPress::Character(String::new()).is_space());
    assert!(!KeyPress::Character("  ".to_string()).is_space());
    assert!(!KeyPress::Character("a".to_string()).is_space());
    assert!(!KeyPress::Character(" a".to_string()).is_space());
    assert!(!KeyPress::Character("\u{a0}".to_string()).is_space());
}

#[test]
fn only_enter_is_suppressed() {
    assert!(KeyPress::Enter.is_suppressed());
    assert!(!space().is_suppressed());
    assert!(!KeyPress::Other.is_suppressed());
    assert!(!KeyPress::Character("a".to_string()).is_suppressed());
}

#[test]
fn host_button_clicks_itself_on_enter_and_space() {
    assert!(KeyPress::Enter.is_host_activation());
    assert!(space().is_host_activation());
    assert!(!KeyPress::Other.is_host_activation());
    assert!(!KeyPress::Character("x".to_string()).is_host_activation());
}

#[test]
fn click_on_uncontrolled_flips_and_notifies() {
    let mut source = StateSource::bind(None, false);
    let reaction = handle(&mut source, false, &SwitchEvent::Click);
    assert_eq!(reaction, Reaction { notify: Some(true), prevent_default: false });
    assert_eq!(source, StateSource::Uncontrolled { internal: true });

    let reaction = handle(&mut source, false, &SwitchEvent::Click);
    assert_eq!(reaction, Reaction { notify: Some(false), prevent_default: false });
    assert_eq!(source, StateSource::Uncontrolled { internal: false });
}

#[test]
fn click_flips_data_state_and_checkbox_together() {
    let props = SwitchProps::new();
    let mut source = props.source();
    assert_eq!(data_state(&props, &source), AttrValue::Text("unchecked".to_string()));
    assert_eq!(checkbox_checked(&props, &source), AttrValue::Bool(false));

    handle(&mut source, props.disabled(), &SwitchEvent::Click);
    assert_eq!(data_state(&props, &source), AttrValue::Text("checked".to_string()));
    assert_eq!(checkbox_checked(&props, &source), AttrValue::Bool(true));

    handle(&mut source, props.disabled(), &SwitchEvent::Click);
    assert_eq!(data_state(&props, &source), AttrValue::Text("unchecked".to_string()));
    assert_eq!(checkbox_checked(&props, &source), AttrValue::Bool(false));
}

#[test]
fn click_on_controlled_notifies_without_a_change() {
    let mut source = StateSource::bind(Some(true), false);
    let reaction = handle(&mut source, false, &SwitchEvent::Click);
    assert_eq!(reaction, Reaction { notify: Some(false), prevent_default: false });
    assert_eq!(source, StateSource::Controlled { external: true });

    let reaction = handle(&mut source, false, &SwitchEvent::Click);
    assert_eq!(reaction, Reaction { notify: Some(false), prevent_default: false });
    assert_eq!(source, StateSource::Controlled { external: true });
}

#[test]
fn controlled_switch_renders_what_the_caller_stores() {
    let props = SwitchProps::new().with_checked(false);
    let mut source = props.source();
    assert_eq!(data_state(&props, &source), AttrValue::Text("unchecked".to_string()));

    let reaction = handle(&mut source, props.disabled(), &SwitchEvent::Click);
    assert_eq!(reaction.notify, Some(true));
    assert_eq!(data_state(&props, &source), AttrValue::Text("unchecked".to_string()));

    source.external_set(reaction.notify.unwrap());
    assert_eq!(data_state(&props, &source), AttrValue::Text("checked".to_string()));
    assert_eq!(checkbox_checked(&props, &source), AttrValue::Bool(true));

    source.external_set(false);
    assert_eq!(data_state(&props, &source), AttrValue::Text("unchecked".to_string()));
    assert_eq!(checkbox_checked(&props, &source), AttrValue::Bool(false));
}

#[test]
fn click_on_disabled_does_nothing() {
    for start in [StateSource::bind(None, false), StateSource::bind(None, true), StateSource::bind(Some(false), false), StateSource::bind(Some(true), false)] {
        let mut source = start;
        let reaction = handle(&mut source, true, &SwitchEvent::Click);
        assert_eq!(reaction, NOTHING);
        assert_eq!(source, start);
    }
}

#[test]
fn keydown_enter_is_suppressed_and_changes_nothing() {
    for disabled in [false, true] {
        let mut source = StateSource::bind(None, false);
        let reaction = handle(&mut source, disabled, &SwitchEvent::KeyDown(KeyPress::Enter));
        assert_eq!(reaction, Reaction { notify: None, prevent_default: true });
        assert_eq!(source, StateSource::Uncontrolled { internal: false });
    }
}

#[test]
fn keydown_of_other_keys_is_left_to_the_host() {
    for key in [space(), KeyPress::Other, KeyPress::Character("a".to_string())] {
        let mut source = StateSource::bind(None, true);
        let reaction = handle(&mut source, false, &SwitchEvent::KeyDown(key));
        assert_eq!(reaction, NOTHING);
        assert_eq!(source, StateSource::Uncontrolled { internal: true });
    }
}

#[test]
fn pressing_enter_does_not_toggle() {
    let mut source = StateSource::bind(None, false);
    let reaction = press(&mut source, false, KeyPress::Enter);
    assert_eq!(reaction, Reaction { notify: None, prevent_default: true });
    assert_eq!(source, StateSource::Uncontrolled { internal: false });

    let mut source = StateSource::bind(Some(true), false);
    let reaction = press(&mut source, false, KeyPress::Enter);
    assert_eq!(reaction, Reaction { notify: None, prevent_default: true });
    assert_eq!(source, StateSource::Controlled { external: true });
}

#[test]
fn pressing_space_toggles() {
    let mut source = StateSource::bind(None, false);
    let reaction = press(&mut source, false, space());
    assert_eq!(reaction, Reaction { notify: Some(true), prevent_default: false });
    assert_eq!(source, StateSource::Uncontrolled { internal: true });

    let reaction = press(&mut source, false, space());
    assert_eq!(reaction, Reaction { notify: Some(false), prevent_default: false });
    assert_eq!(source, StateSource::Uncontrolled { internal: false });
}

#[test]
fn pressing_space_on_controlled_notifies_without_a_change() {
    let mut source = StateSource::bind(Some(false), true);
    let reaction = press(&mut source, false, space());
    assert_eq!(reaction, Reaction { notify: Some(true), prevent_default: false });
    assert_eq!(source, StateSource::Controlled { external: false });
}

#[test]
fn pressing_other_keys_does_nothing() {
    for key in [KeyPress::Other, KeyPress::Character("a".to_string()), KeyPress::Character("  ".to_string())] {
        let mut source = StateSource::bind(None, true);
        let reaction = press(&mut source, false, key);
        assert_eq!(reaction, NOTHING);
        assert_eq!(source, StateSource::Uncontrolled { internal: true });
    }
}

#[test]
fn pressing_any_key_on_disabled_does_nothing() {
    for key in [KeyPress::Enter, space(), KeyPress::Other] {
        for start in [StateSource::bind(None, true), StateSource::bind(Some(false), false)] {
            let mut source = start;
            let reaction = press(&mut source, true, key.clone());
            assert_eq!(reaction, NOTHING);
            assert_eq!(source, start);
        }
    }
}

#[test]
fn disabled_switch_keeps_its_rendering_through_clicks() {
    let props = SwitchProps::new().with_disabled(true).with_default_checked(true);
    let mut source = props.source();
    let before = Switch(props.clone(), &source);
    let reaction = handle(&mut source, props.disabled(), &SwitchEvent::Click);
    assert_eq!(reaction.notify, None);
    let after = Switch(props.clone(), &source);
    assert_eq!(before, after);
    assert_eq!(
        after.button.attr(AttrName::DataDisabled),
        Some(&AttrValue::Text("true".to_string()))
    );
    assert_eq!(
        after.button.attr(AttrName::DataState),
        Some(&AttrValue::Text("checked".to_string()))
    );
}
