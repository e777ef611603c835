//! A generic icon component: a shape that knows its coordinate box, its
//! namespace and its inner drawing is wrapped in one `<svg>` container with
//! configurable size, fill, class and title.

pub mod props;
pub mod render;
pub mod shape;

pub use props::IconProps;
pub use render::{icon_svg, Icon, IconSvg, SvgView};
pub use shape::IconShape;
