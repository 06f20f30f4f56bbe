//! What holds of every switch, whatever its properties and its state.

use crate::event::{
    reaction_to, reaction_to_press, source_after, source_after_press, KeyPressView, Reaction,
    SwitchEventView,
};
use crate::node::{lookup_from, names_distinct, AttrName, AttrValueView};
use crate::state::StateSource;
use crate::switch::{flag_text, rendered, state_text, SwitchPropsView};
use vstd::prelude::*;

verus! {

/// The source once the owner of the value has taken in what the switch
/// reported: the caller of a controlled switch writes the reported value to
/// its cell, and an uncontrolled switch has stored it already.
pub open spec fn settled(source: StateSource, reaction: Reaction) -> StateSource {
    match reaction.notify {
        Some(value) => source.after_external_set(value),
        None => source,
    }
}

/// The button of a switch carries each of its attributes once and under
/// its name, with the checked value in `aria-checked` and `data-state` and
/// the disabled flag in `disabled` and `data-disabled`.
pub proof fn law_button_attributes(props: SwitchPropsView, checked: bool)
    ensures
        ({
            let button = rendered(props, checked).button;
            &&& names_distinct(button.attrs)
            &&& button.attr(AttrName::Type) == Some(AttrValueView::Text("button"@))
            &&& button.attr(AttrName::Role) == Some(AttrValueView::Text("switch"@))
            &&& button.attr(AttrName::Value) == Some(AttrValueView::Text(props.value))
            &&& button.attr(AttrName::AriaChecked) == Some(AttrValueView::Bool(checked))
            &&& button.attr(AttrName::AriaRequired) == Some(AttrValueView::Bool(props.required))
            &&& button.attr(AttrName::Disabled) == Some(AttrValueView::Bool(props.disabled))
            &&& button.attr(AttrName::DataState) == Some(AttrValueView::Text(state_text(checked)))
            &&& button.attr(AttrName::DataDisabled) == Some(
                AttrValueView::Text(flag_text(props.disabled)),
            )
        }),
{
    reveal_with_fuel(lookup_from, 9);
}

/// The hidden checkbox of a switch carries each of its attributes once and
/// under its name: it mirrors name, value, checked and disabled, and is
/// kept out of sight, out of the accessibility tree and out of the tab
/// order.
pub proof fn law_input_attributes(props: SwitchPropsView, checked: bool)
    ensures
        ({
            let input = rendered(props, checked).input;
            &&& names_distinct(input.attrs)
            &&& input.attr(AttrName::Type) == Some(AttrValueView::Text("checkbox"@))
            &&& input.attr(AttrName::AriaHidden) == Some(AttrValueView::Bool(true))
            &&& input.attr(AttrName::TabIndex) == Some(AttrValueView::Int(-1))
            &&& input.attr(AttrName::Name) == Some(AttrValueView::Text(props.name))
            &&& input.attr(AttrName::Value) == Some(AttrValueView::Text(props.value))
            &&& input.attr(AttrName::Checked) == Some(AttrValueView::Bool(checked))
            &&& input.attr(AttrName::Disabled) == Some(AttrValueView::Bool(props.disabled))
            &&& input.attr(AttrName::Style) == Some(
                AttrValueView::Text(crate::switch::HIDDEN_STYLE@),
            )
        }),
{
    reveal_with_fuel(lookup_from, 9);
}

/// The two texts of `data-state` differ, and so do those of `data-disabled`.
pub proof fn law_state_texts_differ()
    ensures
        state_text(true) == "checked"@,
        state_text(false) == "unchecked"@,
        state_text(true) != state_text(false),
        flag_text(true) == "true"@,
        flag_text(false) == "false"@,
        flag_text(true) != flag_text(false),
{
    reveal_strlit("checked");
    reveal_strlit("unchecked");
    reveal_strlit("true");
    reveal_strlit("false");
    assert("checked"@.len() != "unchecked"@.len());
    assert("true"@.len() != "false"@.len());
}

/// An uncontrolled switch first renders its default: with a default of
/// checked, `data-state` is "checked" and `aria-checked` is true; with a
/// default of unchecked, `data-state` is "unchecked" and `aria-checked` is
/// false.
pub proof fn law_default_is_first_rendered(props: SwitchPropsView)
    requires
        props.checked is None,
    ensures
        ({
            let button = rendered(props, props.source().checked()).button;
            &&& props.default_checked ==> {
                &&& button.attr(AttrName::DataState) == Some(AttrValueView::Text("checked"@))
                &&& button.attr(AttrName::AriaChecked) == Some(AttrValueView::Bool(true))
            }
            &&& !props.default_checked ==> {
                &&& button.attr(AttrName::DataState) == Some(AttrValueView::Text("unchecked"@))
                &&& button.attr(AttrName::AriaChecked) == Some(AttrValueView::Bool(false))
            }
        }),
{
    law_button_attributes(props, props.source().checked());
}

/// The button and the hidden checkbox never disagree: `data-state` is
/// "checked" exactly when the checkbox is checked, and "unchecked" exactly
/// when it is not.
pub proof fn law_button_and_checkbox_agree(props: SwitchPropsView, checked: bool)
    ensures
        ({
            let view = rendered(props, checked);
            &&& view.button.attr(AttrName::DataState) == Some(AttrValueView::Text("checked"@))
                <==> view.input.attr(AttrName::Checked) == Some(AttrValueView::Bool(true))
            &&& view.button.attr(AttrName::DataState) == Some(AttrValueView::Text("unchecked"@))
                <==> view.input.attr(AttrName::Checked) == Some(AttrValueView::Bool(false))
        }),
{
    law_button_attributes(props, checked);
    law_input_attributes(props, checked);
    law_state_texts_differ();
}

/// One click on an enabled switch flips `data-state` and the checked value
/// of the hidden checkbox together, once the owner of the value has taken
/// the change in.
pub proof fn law_click_flips_both(props: SwitchPropsView, source: StateSource)
    requires
        !props.disabled,
    ensures
        ({
            let click = SwitchEventView::Click;
            let after = settled(
                source_after(source, props.disabled, click),
                reaction_to(source, props.disabled, click),
            );
            let was = rendered(props, source.checked());
            let is = rendered(props, after.checked());
            &&& after.checked() == !source.checked()
            &&& !source.is_controlled() ==> source_after(source, props.disabled, click).checked()
                == !source.checked()
            &&& was.button.attr(AttrName::DataState) == Some(
                AttrValueView::Text(state_text(source.checked())),
            )
            &&& is.button.attr(AttrName::DataState) == Some(
                AttrValueView::Text(state_text(!source.checked())),
            )
            &&& is.button.attr(AttrName::DataState) != was.button.attr(AttrName::DataState)
            &&& was.input.attr(AttrName::Checked) == Some(AttrValueView::Bool(source.checked()))
            &&& is.input.attr(AttrName::Checked) == Some(AttrValueView::Bool(!source.checked()))
        }),
{
    law_button_attributes(props, source.checked());
    law_button_attributes(props, !source.checked());
    law_input_attributes(props, source.checked());
    law_input_attributes(props, !source.checked());
    law_state_texts_differ();
}

/// Pressing Enter on the focused button never toggles the switch: the
/// switch suppresses the default action of the key, changes no state and
/// reports no change.
pub proof fn law_enter_does_not_toggle(source: StateSource, disabled: bool)
    ensures
        reaction_to(
            source,
            disabled,
            SwitchEventView::KeyDown(KeyPressView::Enter),
        ).prevent_default,
        source_after(source, disabled, SwitchEventView::KeyDown(KeyPressView::Enter)) == source,
        source_after_press(source, disabled, KeyPressView::Enter) == source,
        reaction_to_press(source, disabled, KeyPressView::Enter).notify is None,
{
}

/// Pressing Space on the focused button of an enabled switch toggles it:
/// the default action stays in place, the change is reported with the
/// opposite value, and the owner of the value ends up with that value.
pub proof fn law_space_toggles(source: StateSource, key: KeyPressView)
    requires
        key.is_space(),
    ensures
        ({
            let reaction = reaction_to_press(source, false, key);
            let after = settled(source_after_press(source, false, key), reaction);
            &&& !reaction.prevent_default
            &&& reaction.notify == Some(!source.checked())
            &&& after.checked() == !source.checked()
            &&& !source.is_controlled() ==> source_after_press(source, false, key).checked()
                == !source.checked()
        }),
{
}

/// A key that is neither Enter nor Space leaves the switch as it is.
pub proof fn law_other_keys_do_nothing(source: StateSource, disabled: bool, key: KeyPressView)
    requires
        !(key is Enter),
        !key.is_space(),
    ensures
        source_after_press(source, disabled, key) == source,
        reaction_to_press(source, disabled, key) == Reaction::nothing(),
{
}

/// A disabled switch is inert and says so: neither a click nor any key
/// changes its state or reports a change, and it renders `data-disabled` as
/// "true" and the native `disabled` attribute as set.
pub proof fn law_disabled_is_inert(
    props: SwitchPropsView,
    source: StateSource,
    key: KeyPressView,
    checked: bool,
)
    requires
        props.disabled,
    ensures
        source_after(source, props.disabled, SwitchEventView::Click) == source,
        reaction_to(source, props.disabled, SwitchEventView::Click).notify is None,
        source_after(source, props.disabled, SwitchEventView::KeyDown(key)) == source,
        reaction_to(source, props.disabled, SwitchEventView::KeyDown(key)).notify is None,
        source_after_press(source, props.disabled, key) == source,
        reaction_to_press(source, props.disabled, key).notify is None,
        rendered(props, checked).button.attr(AttrName::DataDisabled) == Some(
            AttrValueView::Text("true"@),
        ),
        rendered(props, checked).button.attr(AttrName::Disabled) == Some(
            AttrValueView::Bool(true),
        ),
        rendered(props, checked).input.attr(AttrName::Disabled) == Some(AttrValueView::Bool(true)),
{
    law_button_attributes(props, checked);
    law_input_attributes(props, checked);
}

/// A controlled switch follows its caller: once the caller has written a
/// value to its cell, the switch renders that value.
pub proof fn law_controlled_renders_callers_value(
    props: SwitchPropsView,
    source: StateSource,
    value: bool,
)
    requires
        source.is_controlled(),
    ensures
        source.after_external_set(value).is_controlled(),
        source.after_external_set(value).checked() == value,
        ({
            let view = rendered(props, source.after_external_set(value).checked());
            &&& view.button.attr(AttrName::DataState) == Some(
                AttrValueView::Text(state_text(value)),
            )
            &&& view.button.attr(AttrName::AriaChecked) == Some(AttrValueView::Bool(value))
            &&& view.input.attr(AttrName::Checked) == Some(AttrValueView::Bool(value))
        }),
{
    law_button_attributes(props, value);
    law_input_attributes(props, value);
}

/// A controlled switch never changes its own state: whatever the event, the
/// source stays as it was, and a click on an enabled one reports the
/// opposite of the caller's value.
pub proof fn law_controlled_only_notifies(
    source: StateSource,
    disabled: bool,
    event: SwitchEventView,
    key: KeyPressView,
    value: bool,
)
    requires
        source.is_controlled(),
    ensures
        source.after_set(value) == source,
        source_after(source, disabled, event) == source,
        source_after_press(source, disabled, key) == source,
        !disabled ==> reaction_to(source, disabled, SwitchEventView::Click).notify == Some(
            !source.checked(),
        ),
{
}

/// The hidden checkbox always carries the name and the value that the
/// switch was given, whether it is checked or not.
pub proof fn law_hidden_input_keeps_name_and_value(props: SwitchPropsView, checked: bool)
    ensures
        rendered(props, checked).input.attr(AttrName::Name) == Some(
            AttrValueView::Text(props.name),
        ),
        rendered(props, checked).input.attr(AttrName::Value) == Some(
            AttrValueView::Text(props.value),
        ),
        rendered(props, checked).input.attr(AttrName::Name) == rendered(props, !checked).input.attr(
            AttrName::Name,
        ),
        rendered(props, checked).input.attr(AttrName::Value) == rendered(
            props,
            !checked,
        ).input.attr(AttrName::Value),
{
    law_input_attributes(props, checked);
    law_input_attributes(props, !checked);
}

} // verus!
