use crate::props::IconProps;
use crate::shape::IconShape;
use dioxus::prelude::Element;
use vstd::prelude::*;
use vstd::std_specs::cmp::PartialEqSpec;

verus! {

/// The outline color of every icon container.
pub open spec fn stroke_color() -> Seq<char> {
    "currentColor"@
}

/// The outline width of every icon container: no outline, the icon is drawn by its fill.
pub open spec fn stroke_none() -> Seq<char> {
    "0"@
}

/// The `<svg>` container an icon renders to: its attributes, its `<title>`
/// text, and the shape's own elements after the title.
pub struct IconSvg {
    pub stroke: String,
    pub stroke_width: String,
    pub class: String,
    pub height: String,
    pub width: String,
    pub view_box: String,
    pub xmlns: String,
    pub fill: String,
    pub title: String,
    pub children: Element,
}

/// The attributes and title text of a rendered container.
pub struct SvgView {
    pub stroke: Seq<char>,
    pub stroke_width: Seq<char>,
    pub class: Seq<char>,
    pub height: Seq<char>,
    pub width: Seq<char>,
    pub view_box: Seq<char>,
    pub xmlns: Seq<char>,
    pub fill: Seq<char>,
    pub title: Seq<char>,
}

impl View for IconSvg {
    type V = SvgView;

    open spec fn view(&self) -> SvgView {
        SvgView {
            stroke: self.stroke@,
            stroke_width: self.stroke_width@,
            class: self.class@,
            height: self.height@,
            width: self.width@,
            view_box: self.view_box@,
            xmlns: self.xmlns@,
            fill: self.fill@,
            title: self.title@,
        }
    }
}

/// The container that `props` renders to, given the coordinate box and
/// namespace that its shape returned: the stroke fixed, every other
/// attribute and the title taken as they stand.
pub open spec fn container_view<T: IconShape + PartialEq>(
    props: &IconProps<T>,
    view_box: Seq<char>,
    xmlns: Seq<char>,
) -> SvgView {
    SvgView {
        stroke: stroke_color(),
        stroke_width: stroke_none(),
        class: props.class@,
        height: props.height@,
        width: props.width@,
        view_box,
        xmlns,
        fill: props.fill@,
        title: props.title@,
    }
}

/// Assembles the container from the properties and what the shape returned:
/// its coordinate box, its namespace and its elements, which follow the
/// title unchanged.
pub fn icon_svg<T: IconShape + PartialEq>(
    props: &IconProps<T>,
    view_box: String,
    xmlns: String,
    children: Element,
) -> (r: IconSvg)
    ensures
        r@ == container_view(props, view_box@, xmlns@),
        r.children == children,
{
    IconSvg {
        stroke: "currentColor".to_owned(),
        stroke_width: "0".to_owned(),
        class: props.class.clone(),
        height: props.height.clone(),
        width: props.width.clone(),
        view_box,
        xmlns,
        fill: props.fill.clone(),
        title: props.title.clone(),
        children,
    }
}

/// Renders an icon: the container with the stroke fixed to `currentColor`
/// and width `0`, class, height, width and fill from the properties, a title
/// holding the properties' title (present even when empty), and the shape's
/// coordinate box, namespace and elements, asked of it once each and handed
/// to `icon_svg`.
#[allow(non_snake_case)]
pub fn Icon<T: IconShape + PartialEq>(props: IconProps<T>) -> (r: IconSvg)
    ensures
        r.stroke@ == stroke_color(),
        r.stroke_width@ == stroke_none(),
        r.class@ == props.class@,
        r.height@ == props.height@,
        r.width@ == props.width@,
        r.fill@ == props.fill@,
        r.title@ == props.title@,
{
    let view_box = props.icon.view_box();
    let xmlns = props.icon.xmlns();
    let children = props.icon.child_elements();
    icon_svg(&props, view_box, xmlns, children)
}

/// Assembling a container twice from the same properties and the same
/// answers of the shape gives the same container, holding the same elements.
pub proof fn lemma_render_deterministic<T: IconShape + PartialEq>(
    props: &IconProps<T>,
    view_box: String,
    xmlns: String,
    children: Element,
    r1: IconSvg,
    r2: IconSvg,
)
    requires
        call_ensures(icon_svg::<T>, (props, view_box, xmlns, children), r1),
        call_ensures(icon_svg::<T>, (props, view_box, xmlns, children), r2),
    ensures
        r1@ == r2@,
        r1.children == r2.children,
{
}

/// Properties that compare equal render to the same container when their
/// shapes answer alike: nothing of the properties but what `==` compares
/// reaches the output.
pub proof fn lemma_equal_props_render_alike<T: IconShape + PartialEq>(
    p1: &IconProps<T>,
    p2: &IconProps<T>,
    view_box: String,
    xmlns: String,
    children: Element,
    r1: IconSvg,
    r2: IconSvg,
)
    requires
        p1.eq_spec(p2),
        call_ensures(icon_svg::<T>, (p1, view_box, xmlns, children), r1),
        call_ensures(icon_svg::<T>, (p2, view_box, xmlns, children), r2),
    ensures
        r1@ == r2@,
        r1.children == r2.children,
{
}

} // verus!
