//! Types of the host framework that the switch carries through untouched.
//!
//! The verifier sees none of their contents: a value of one of these types
//! can be stored, moved and compared in contracts, nothing more.

use vstd::prelude::*;

verus! {

/// `dioxus_lib::prelude::Attribute`: a caller-supplied attribute. The switch
/// never looks inside one; it forwards them onto the element it renders.
#[verifier::external_type_specification]
#[verifier::external_body]
pub struct ExAttribute(dioxus_lib::prelude::Attribute);

/// `dioxus_lib::prelude::VNode`: a rendered node, as found in the `Ok` case
/// of the child elements handed to the switch.
#[verifier::external_type_specification]
#[verifier::external_body]
pub struct ExVNode(dioxus_lib::prelude::VNode);

/// `dioxus_lib::prelude::RenderError`: the reason found in the `Err` case of
/// the child elements handed to the switch.
#[verifier::external_type_specification]
#[verifier::external_body]
pub struct ExRenderError(dioxus_lib::prelude::RenderError);

} // verus!
