//! The element tree that the switch renders: nodes with a tag, an ordered
//! list of attributes, the events they listen for, the attributes passed
//! through from the caller, and child elements.

use dioxus_lib::prelude::{Attribute, Element};
use vstd::prelude::*;

verus! {

/// The element kinds that the switch renders.
#[derive(Clone, Copy, Debug, PartialEq, Eq, Structural)]
pub enum Tag {
    Button,
    Input,
    Span,
}

impl Tag {
    /// The tag as it is written in markup.
    pub open spec fn text(self) -> Seq<char> {
        match self {
            Tag::Button => "button"@,
            Tag::Input => "input"@,
            Tag::Span => "span"@,
        }
    }

    pub fn as_str(self) -> (s: &'static str)
        ensures
            s@ == self.text(),
    {
        match self {
            Tag::Button => "button",
            Tag::Input => "input",
            Tag::Span => "span",
        }
    }
}

/// The attributes that the switch sets itself.
#[derive(Clone, Copy, Debug, PartialEq, Eq, Structural)]
pub enum AttrName {
    Type,
    Role,
    Value,
    AriaChecked,
    AriaRequired,
    Disabled,
    DataState,
    DataDisabled,
    AriaHidden,
    TabIndex,
    Name,
    Checked,
    Style,
}

impl AttrName {
    /// The attribute's name as it is written in markup.
    pub open spec fn text(self) -> Seq<char> {
        match self {
            AttrName::Type => "type"@,
            AttrName::Role => "role"@,
            AttrName::Value => "value"@,
            AttrName::AriaChecked => "aria-checked"@,
            AttrName::AriaRequired => "aria-required"@,
            AttrName::Disabled => "disabled"@,
            AttrName::DataState => "data-state"@,
            AttrName::DataDisabled => "data-disabled"@,
            AttrName::AriaHidden => "aria-hidden"@,
            AttrName::TabIndex => "tabindex"@,
            AttrName::Name => "name"@,
            AttrName::Checked => "checked"@,
            AttrName::Style => "style"@,
        }
    }

    pub fn as_str(self) -> (s: &'static str)
        ensures
            s@ == self.text(),
    {
        match self {
            AttrName::Type => "type",
            AttrName::Role => "role",
            AttrName::Value => "value",
            AttrName::AriaChecked => "aria-checked",
            AttrName::AriaRequired => "aria-required",
            AttrName::Disabled => "disabled",
            AttrName::DataState => "data-state",
            AttrName::DataDisabled => "data-disabled",
            AttrName::AriaHidden => "aria-hidden",
            AttrName::TabIndex => "tabindex",
            AttrName::Name => "name",
            AttrName::Checked => "checked",
            AttrName::Style => "style",
        }
    }
}

/// The events that a rendered node listens for.
#[derive(Clone, Copy, Debug, PartialEq, Eq, Structural)]
pub enum Listener {
    Click,
    KeyDown,
}

/// The value of an attribute.
#[derive(Clone, Debug, PartialEq, Eq)]
pub enum AttrValue {
    Text(String),
    Bool(bool),
    Int(i64),
}

/// An attribute value with its text as a sequence of characters.
pub enum AttrValueView {
    Text(Seq<char>),
    Bool(bool),
    Int(int),
}

impl View for AttrValue {
    type V = AttrValueView;

    open spec fn view(&self) -> AttrValueView {
        match self {
            AttrValue::Text(text) => AttrValueView::Text(text@),
            AttrValue::Bool(flag) => AttrValueView::Bool(*flag),
            AttrValue::Int(number) => AttrValueView::Int(*number as int),
        }
    }
}

/// One attribute that the switch sets on a node.
#[derive(Clone, Debug, PartialEq, Eq)]
pub struct Attr {
    pub name: AttrName,
    pub value: AttrValue,
}

pub struct AttrView {
    pub name: AttrName,
    pub value: AttrValueView,
}

impl View for Attr {
    type V = AttrView;

    open spec fn view(&self) -> AttrView {
        AttrView { name: self.name, value: self.value@ }
    }
}

pub open spec fn text_attr(name: AttrName, text: Seq<char>) -> AttrView {
    AttrView { name, value: AttrValueView::Text(text) }
}

pub open spec fn bool_attr(name: AttrName, flag: bool) -> AttrView {
    AttrView { name, value: AttrValueView::Bool(flag) }
}

pub open spec fn number_attr(name: AttrName, number: int) -> AttrView {
    AttrView { name, value: AttrValueView::Int(number) }
}

impl Attr {
    pub fn text(name: AttrName, text: &str) -> (attr: Attr)
        ensures
            attr@ == text_attr(name, text@),
    {
        Attr { name, value: AttrValue::Text(text.to_owned()) }
    }

    pub fn flag(name: AttrName, flag: bool) -> (attr: Attr)
        ensures
            attr@ == bool_attr(name, flag),
    {
        Attr { name, value: AttrValue::Bool(flag) }
    }

    pub fn number(name: AttrName, number: i64) -> (attr: Attr)
        ensures
            attr@ == number_attr(name, number as int),
    {
        Attr { name, value: AttrValue::Int(number) }
    }
}

/// The views of a list of attributes, in the same order.
pub open spec fn attr_views(attrs: Seq<Attr>) -> Seq<AttrView> {
    Seq::new(attrs.len(), |i: int| attrs[i]@)
}

/// The value of the first attribute called `name` at or after position
/// `start`, if there is one.
pub open spec fn lookup_from(attrs: Seq<AttrView>, name: AttrName, start: int) -> Option<
    AttrValueView,
>
    decreases attrs.len() - start,
{
    if start < 0 || start >= attrs.len() {
        None
    } else if attrs[start].name == name {
        Some(attrs[start].value)
    } else {
        lookup_from(attrs, name, start + 1)
    }
}

/// The value of the first attribute called `name`, if there is one.
pub open spec fn lookup(attrs: Seq<AttrView>, name: AttrName) -> Option<AttrValueView> {
    lookup_from(attrs, name, 0)
}

/// No two attributes of the list have the same name, so that each name
/// stands for one value.
pub open spec fn names_distinct(attrs: Seq<AttrView>) -> bool {
    forall|i: int, j: int| 0 <= i < j < attrs.len() ==> attrs[i].name != attrs[j].name
}

/// A rendered element.
#[derive(Clone, Debug, PartialEq)]
pub struct Node {
    pub tag: Tag,
    /// The attributes that the switch sets, in the order it sets them.
    pub attrs: Vec<Attr>,
    /// The events for which the switch installs a handler.
    pub listeners: Vec<Listener>,
    /// The caller's attributes, forwarded as they came.
    pub passthrough: Vec<Attribute>,
    /// The caller's child elements, if the node holds them.
    pub children: Option<Element>,
}

pub struct NodeView {
    pub tag: Tag,
    pub attrs: Seq<AttrView>,
    pub listeners: Seq<Listener>,
    pub passthrough: Seq<Attribute>,
    pub children: Option<Element>,
}

impl NodeView {
    /// The value that the node's own attributes give to `name`.
    pub open spec fn attr(self, name: AttrName) -> Option<AttrValueView> {
        lookup(self.attrs, name)
    }

    pub open spec fn listens(self, listener: Listener) -> bool {
        self.listeners.contains(listener)
    }
}

impl View for Node {
    type V = NodeView;

    open spec fn view(&self) -> NodeView {
        NodeView {
            tag: self.tag,
            attrs: attr_views(self.attrs@),
            listeners: self.listeners@,
            passthrough: self.passthrough@,
            children: self.children,
        }
    }
}

impl Node {
    /// The value of the first of the node's own attributes called `name`.
    pub fn attr(&self, name: AttrName) -> (value: Option<&AttrValue>)
        ensures
            match value {
                Some(found) => self@.attr(name) == Some(found@),
                None => self@.attr(name) is None,
            },
    {
        let mut i: usize = 0;
        while i < self.attrs.len()
            invariant
                i <= self.attrs.len(),
                lookup_from(self@.attrs, name, i as int) == lookup(self@.attrs, name),
            decreases self.attrs.len() - i,
        {
            if self.attrs[i].name == name {
                return Some(&self.attrs[i].value);
            }
            i += 1;
        }
        None
    }

    /// Whether the switch installs a handler for `listener` on the node.
    pub fn listens(&self, listener: Listener) -> (found: bool)
        ensures
            found == self@.listens(listener),
    {
        let mut i: usize = 0;
        while i < self.listeners.len()
            invariant
                i <= self.listeners.len(),
                forall|j: int| 0 <= j < i ==> self.listeners@[j] != listener,
            decreases self.listeners.len() - i,
        {
            if self.listeners[i] == listener {
                return true;
            }
            i += 1;
        }
        false
    }
}

} // verus!
