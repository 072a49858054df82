//! Rendering of a vector icon as an `<svg>` element.
//!
//! An icon descriptor carries the inner markup of an icon together with its
//! default presentation attributes. The component takes the descriptor and
//! four optional overrides (width, height, class, style) and says which
//! attributes the root element gets, in which order they are assigned, and
//! what a reader of the element therefore sees under each attribute name.
//!
//! The element is a pure function of the values handed in: the library keeps
//! no state between two renders.

pub mod descriptor;
pub mod element;
pub mod render;
pub mod laws;

pub use descriptor::{IconDescriptor, IconDescriptorView, RenderInputs, RenderInputsView, Text};
pub use element::{Attr, Svg, SvgView};
pub use render::Icon;
