use dioxus::prelude::{Element, RenderError, VNode};
use vstd::prelude::*;

verus! {

/// dioxus's virtual node: carried through unchanged, never inspected.
#[verifier::external_type_specification]
#[verifier::external_body]
pub struct ExVNode(VNode);

/// dioxus's render error: carried through unchanged, never inspected.
#[verifier::external_type_specification]
#[verifier::external_body]
pub struct ExRenderError(RenderError);

/// A drawable shape: its coordinate box, its markup namespace and the
/// elements that draw it. Implementors keep the queries pure: the same shape
/// value answers the same way every time.
pub trait IconShape: Clone {
    /// The coordinate box of the drawing, such as `0 0 20 20`.
    fn view_box(&self) -> String;

    /// The namespace of the vector-graphics markup.
    fn xmlns(&self) -> String;

    /// The elements that draw the shape inside its container.
    fn child_elements(&self) -> Element;
}

} // verus!
