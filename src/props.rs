use crate::shape::IconShape;
use vstd::prelude::*;
use vstd::std_specs::cmp::PartialEqSpec;

verus! {

/// The height and width an icon gets when none is given.
pub open spec fn default_size() -> Seq<char> {
    "20"@
}

/// The fill an icon gets when none is given.
pub open spec fn default_fill() -> Seq<char> {
    "currentColor"@
}

/// What an icon is rendered from: its shape and how it is displayed.
#[derive(Clone)]
pub struct IconProps<T: IconShape + PartialEq> {
    /// The icon shape to use.
    pub icon: T,
    /// The height of the `<svg>` element.
    pub height: String,
    /// The width of the `<svg>` element.
    pub width: String,
    /// The color to use for filling the icon.
    pub fill: String,
    /// A class for the `<svg>` element.
    pub class: String,
    /// An accessible, short-text description for the icon.
    pub title: String,
}

impl<T: IconShape + PartialEq> IconProps<T> {
    /// Properties with every field given.
    pub fn new(class: String, height: String, width: String, fill: String, title: String, icon: T) -> (r: Self)
        ensures
            r.class@ == class@,
            r.height@ == height@,
            r.width@ == width@,
            r.fill@ == fill@,
            r.title@ == title@,
            r.icon == icon,
    {
        IconProps { class, height, width, fill, title, icon }
    }

    /// Properties with only the shape given: size `20` by `20`, fill
    /// `currentColor`, no class and an empty title.
    pub fn with_icon(icon: T) -> (r: Self)
        ensures
            r.icon == icon,
            r.height@ == default_size(),
            r.width@ == default_size(),
            r.fill@ == default_fill(),
            r.class@ == Seq::<char>::empty(),
            r.title@ == Seq::<char>::empty(),
    {
        IconProps {
            icon,
            height: "20".to_owned(),
            width: "20".to_owned(),
            fill: "currentColor".to_owned(),
            class: String::new(),
            title: String::new(),
        }
    }
}

impl<T: IconShape + PartialEq> PartialEq for IconProps<T> {
    fn eq(&self, other: &Self) -> (r: bool) {
        self.icon == other.icon && self.height == other.height && self.width == other.width
            && self.fill == other.fill && self.class == other.class && self.title == other.title
    }
}

impl<T: IconShape + PartialEq> vstd::std_specs::cmp::PartialEqSpecImpl for IconProps<T> {
    open spec fn obeys_eq_spec() -> bool {
        T::obeys_eq_spec()
    }

    open spec fn eq_spec(&self, other: &Self) -> bool {
        &&& self.icon.eq_spec(&other.icon)
        &&& self.height@ == other.height@
        &&& self.width@ == other.width@
        &&& self.fill@ == other.fill@
        &&& self.class@ == other.class@
        &&& self.title@ == other.title@
    }
}

} // verus!
