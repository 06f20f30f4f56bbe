//! The switch and its thumb: their properties and what they render.

use crate::node::{
    attr_views, bool_attr, number_attr, text_attr, Attr, AttrName, AttrView, Listener, Node,
    NodeView, Tag,
};
use crate::state::StateSource;
use dioxus_lib::prelude::{Attribute, Element};
use vstd::prelude::*;

verus! {

/// The style that takes the hidden checkbox out of sight and out of layout.
pub const HIDDEN_STYLE: &'static str =
    "transform: translateX(-100%); position: absolute; pointer-events: none; opacity: 0; margin: 0; width: 0; height: 0;";

/// The properties of a switch.
#[derive(Clone, Debug, PartialEq)]
pub struct SwitchProps {
    checked: Option<bool>,
    default_checked: bool,
    disabled: bool,
    required: bool,
    name: String,
    value: String,
    attributes: Vec<Attribute>,
    children: Option<Element>,
}

pub struct SwitchPropsView {
    /// The value of the caller's cell, where the switch is controlled.
    pub checked: Option<bool>,
    /// The value that an uncontrolled switch starts from.
    pub default_checked: bool,
    pub disabled: bool,
    pub required: bool,
    /// The name under which a form submits the switch.
    pub name: Seq<char>,
    /// The value that a form submits for a checked switch.
    pub value: Seq<char>,
    /// Attributes to forward onto the rendered button.
    pub attributes: Seq<Attribute>,
    /// Elements to render inside the button.
    pub children: Option<Element>,
}

impl SwitchPropsView {
    /// The properties of a switch for which the caller has set nothing.
    pub open spec fn defaults() -> SwitchPropsView {
        SwitchPropsView {
            checked: None,
            default_checked: false,
            disabled: false,
            required: false,
            name: Seq::empty(),
            value: "on"@,
            attributes: Seq::empty(),
            children: None,
        }
    }

    /// The state source that a new switch with these properties binds.
    pub open spec fn source(self) -> StateSource {
        StateSource::bound(self.checked, self.default_checked)
    }
}

impl View for SwitchProps {
    type V = SwitchPropsView;

    closed spec fn view(&self) -> SwitchPropsView {
        SwitchPropsView {
            checked: self.checked,
            default_checked: self.default_checked,
            disabled: self.disabled,
            required: self.required,
            name: self.name@,
            value: self.value@,
            attributes: self.attributes@,
            children: self.children,
        }
    }
}

impl SwitchProps {
    /// The properties of a switch for which nothing has been set: an
    /// uncontrolled switch that starts unchecked, enabled and not required,
    /// with an empty name and the value "on".
    pub fn new() -> (props: SwitchProps)
        ensures
            props@ == SwitchPropsView::defaults(),
    {
        SwitchProps {
            checked: None,
            default_checked: false,
            disabled: false,
            required: false,
            name: String::new(),
            value: "on".to_owned(),
            attributes: Vec::new(),
            children: None,
        }
    }

    /// Makes the switch controlled, with `checked` as the value of the
    /// caller's cell.
    pub fn with_checked(self, checked: bool) -> (props: SwitchProps)
        ensures
            props@ == (SwitchPropsView { checked: Some(checked), ..self@ }),
    {
        SwitchProps { checked: Some(checked), ..self }
    }

    pub fn with_default_checked(self, default_checked: bool) -> (props: SwitchProps)
        ensures
            props@ == (SwitchPropsView { default_checked, ..self@ }),
    {
        SwitchProps { default_checked, ..self }
    }

    pub fn with_disabled(self, disabled: bool) -> (props: SwitchProps)
        ensures
            props@ == (SwitchPropsView { disabled, ..self@ }),
    {
        SwitchProps { disabled, ..self }
    }

    pub fn with_required(self, required: bool) -> (props: SwitchProps)
        ensures
            props@ == (SwitchPropsView { required, ..self@ }),
    {
        SwitchProps { required, ..self }
    }

    pub fn with_name(self, name: String) -> (props: SwitchProps)
        ensures
            props@ == (SwitchPropsView { name: name@, ..self@ }),
    {
        SwitchProps { name, ..self }
    }

    pub fn with_value(self, value: String) -> (props: SwitchProps)
        ensures
            props@ == (SwitchPropsView { value: value@, ..self@ }),
    {
        SwitchProps { value, ..self }
    }

    pub fn with_attributes(self, attributes: Vec<Attribute>) -> (props: SwitchProps)
        ensures
            props@ == (SwitchPropsView { attributes: attributes@, ..self@ }),
    {
        SwitchProps { attributes, ..self }
    }

    pub fn with_children(self, children: Element) -> (props: SwitchProps)
        ensures
            props@ == (SwitchPropsView { children: Some(children), ..self@ }),
    {
        SwitchProps { children: Some(children), ..self }
    }

    pub fn checked(&self) -> (checked: Option<bool>)
        ensures
            checked == self@.checked,
    {
        self.checked
    }

    pub fn default_checked(&self) -> (default_checked: bool)
        ensures
            default_checked == self@.default_checked,
    {
        self.default_checked
    }

    pub fn disabled(&self) -> (disabled: bool)
        ensures
            disabled == self@.disabled,
    {
        self.disabled
    }

    pub fn required(&self) -> (required: bool)
        ensures
            required == self@.required,
    {
        self.required
    }

    pub fn name(&self) -> (name: &str)
        ensures
            name@ == self@.name,
    {
        self.name.as_str()
    }

    pub fn value(&self) -> (value: &str)
        ensures
            value@ == self@.value,
    {
        self.value.as_str()
    }

    pub fn attributes(&self) -> (attributes: &Vec<Attribute>)
        ensures
            attributes@ == self@.attributes,
    {
        &self.attributes
    }

    pub fn children(&self) -> (children: &Option<Element>)
        ensures
            *children == self@.children,
    {
        &self.children
    }

    /// Binds the state source of a new switch with these properties.
    pub fn source(&self) -> (source: StateSource)
        ensures
            source == self@.source(),
    {
        StateSource::bind(self.checked, self.default_checked)
    }
}

/// What a switch renders: the button that the user works, and beside it a
/// hidden checkbox through which the switch takes part in form submission.
#[derive(Clone, Debug, PartialEq)]
pub struct Rendered {
    pub button: Node,
    pub input: Node,
}

pub struct RenderedView {
    pub button: NodeView,
    pub input: NodeView,
}

impl View for Rendered {
    type V = RenderedView;

    open spec fn view(&self) -> RenderedView {
        RenderedView { button: self.button@, input: self.input@ }
    }
}

/// The text of `data-state` for a checked value.
pub open spec fn state_text(checked: bool) -> Seq<char> {
    if checked {
        "checked"@
    } else {
        "unchecked"@
    }
}

/// The text of `data-disabled` for a disabled flag.
pub open spec fn flag_text(flag: bool) -> Seq<char> {
    if flag {
        "true"@
    } else {
        "false"@
    }
}

/// The attributes that the switch sets on its button.
pub open spec fn button_attrs(props: SwitchPropsView, checked: bool) -> Seq<AttrView> {
    seq![
        text_attr(AttrName::Type, "button"@),
        text_attr(AttrName::Role, "switch"@),
        text_attr(AttrName::Value, props.value),
        bool_attr(AttrName::AriaChecked, checked),
        bool_attr(AttrName::AriaRequired, props.required),
        bool_attr(AttrName::Disabled, props.disabled),
        text_attr(AttrName::DataState, state_text(checked)),
        text_attr(AttrName::DataDisabled, flag_text(props.disabled)),
    ]
}

/// The attributes of the hidden checkbox.
pub open spec fn input_attrs(props: SwitchPropsView, checked: bool) -> Seq<AttrView> {
    seq![
        text_attr(AttrName::Type, "checkbox"@),
        bool_attr(AttrName::AriaHidden, true),
        number_attr(AttrName::TabIndex, -1),
        text_attr(AttrName::Name, props.name),
        text_attr(AttrName::Value, props.value),
        bool_attr(AttrName::Checked, checked),
        bool_attr(AttrName::Disabled, props.disabled),
        text_attr(AttrName::Style, HIDDEN_STYLE@),
    ]
}

/// What a switch with properties `props` renders while its checked value is
/// `checked`.
pub open spec fn rendered(props: SwitchPropsView, checked: bool) -> RenderedView {
    RenderedView {
        button: NodeView {
            tag: Tag::Button,
            attrs: button_attrs(props, checked),
            listeners: seq![Listener::Click, Listener::KeyDown],
            passthrough: props.attributes,
            children: props.children,
        },
        input: NodeView {
            tag: Tag::Input,
            attrs: input_attrs(props, checked),
            listeners: Seq::empty(),
            passthrough: Seq::empty(),
            children: None,
        },
    }
}

fn state_name(checked: bool) -> (text: &'static str)
    ensures
        text@ == state_text(checked),
{
    if checked {
        "checked"
    } else {
        "unchecked"
    }
}

fn flag_name(flag: bool) -> (text: &'static str)
    ensures
        text@ == flag_text(flag),
{
    if flag {
        "true"
    } else {
        "false"
    }
}

/// Renders a switch whose checked value is read from `source`.
#[allow(non_snake_case)]
pub fn Switch(props: SwitchProps, source: &StateSource) -> (view: Rendered)
    ensures
        view@ == rendered(props@, source.checked()),
{
    let checked = source.get();

    let mut button: Vec<Attr> = Vec::new();
    button.push(Attr::text(AttrName::Type, "button"));
    button.push(Attr::text(AttrName::Role, "switch"));
    button.push(Attr::text(AttrName::Value, props.value.as_str()));
    button.push(Attr::flag(AttrName::AriaChecked, checked));
    button.push(Attr::flag(AttrName::AriaRequired, props.required));
    button.push(Attr::flag(AttrName::Disabled, props.disabled));
    button.push(Attr::text(AttrName::DataState, state_name(checked)));
    button.push(Attr::text(AttrName::DataDisabled, flag_name(props.disabled)));
    assert(attr_views(button@) =~= button_attrs(props@, checked));

    let mut listeners: Vec<Listener> = Vec::new();
    listeners.push(Listener::Click);
    listeners.push(Listener::KeyDown);
    assert(listeners@ =~= seq![Listener::Click, Listener::KeyDown]);

    let mut input: Vec<Attr> = Vec::new();
    input.push(Attr::text(AttrName::Type, "checkbox"));
    input.push(Attr::flag(AttrName::AriaHidden, true));
    input.push(Attr::number(AttrName::TabIndex, -1));
    input.push(Attr::text(AttrName::Name, props.name.as_str()));
    input.push(Attr::text(AttrName::Value, props.value.as_str()));
    input.push(Attr::flag(AttrName::Checked, checked));
    input.push(Attr::flag(AttrName::Disabled, props.disabled));
    input.push(Attr::text(AttrName::Style, HIDDEN_STYLE));
    assert(attr_views(input@) =~= input_attrs(props@, checked));

    Rendered {
        button: Node {
            tag: Tag::Button,
            attrs: button,
            listeners,
            passthrough: props.attributes,
            children: props.children,
        },
        input: Node {
            tag: Tag::Input,
            attrs: input,
            listeners: Vec::new(),
            passthrough: Vec::new(),
            children: None,
        },
    }
}

/// The properties of the thumb of a switch.
#[derive(Clone, Debug, PartialEq)]
pub struct SwitchThumbProps {
    attributes: Vec<Attribute>,
}

impl View for SwitchThumbProps {
    type V = Seq<Attribute>;

    /// The attributes to forward onto the rendered element.
    closed spec fn view(&self) -> Seq<Attribute> {
        self.attributes@
    }
}

impl SwitchThumbProps {
    pub fn new(attributes: Vec<Attribute>) -> (props: SwitchThumbProps)
        ensures
            props@ == attributes@,
    {
        SwitchThumbProps { attributes }
    }

    pub fn attributes(&self) -> (attributes: &Vec<Attribute>)
        ensures
            attributes@ == self@,
    {
        &self.attributes
    }
}

/// What a thumb with the attributes `attributes` renders: an element that
/// carries them and nothing else.
pub open spec fn thumb(attributes: Seq<Attribute>) -> NodeView {
    NodeView {
        tag: Tag::Span,
        attrs: Seq::empty(),
        listeners: Seq::empty(),
        passthrough: attributes,
        children: None,
    }
}

/// Renders the thumb of a switch.
#[allow(non_snake_case)]
pub fn SwitchThumb(props: SwitchThumbProps) -> (node: Node)
    ensures
        node@ == thumb(props@),
{
    let node = Node {
        tag: Tag::Span,
        attrs: Vec::new(),
        listeners: Vec::new(),
        passthrough: props.attributes,
        children: None,
    };
    assert(node@.attrs =~= Seq::empty());
    node
}

} // verus!
