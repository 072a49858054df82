//! The component: from the current inputs to the element.
//!
//! The element is assigned, in this order: `class`, `style`, `width`,
//! `height`, `height` once more with the fixed value `1rem`, then `x`, `y`,
//! `viewBox`, `stroke-linecap`, `stroke-linejoin` and `stroke` where the icon
//! has them, then `fill` and `role`. Because of the second assignment to
//! `height`, a reader of the element always finds `1rem` there, whatever the
//! override says; the assignment list still shows both.

use vstd::prelude::*;
use vstd::string::StringExecFns;
use crate::descriptor::{text_of, IconDescriptor, RenderInputs, RenderInputsView, Text};
use crate::element::{with_optional, Svg, SvgView};

verus! {

/// The `class` attribute: the override, or the empty string.
pub open spec fn class_value(class: Option<Text>) -> Text {
    match class {
        Some(c) => c,
        None => Seq::empty(),
    }
}

/// The `style` attribute: the icon's own style first, then the override,
/// with one space between them where both are there.
pub open spec fn style_value(own: Option<Text>, over: Option<Text>) -> Text {
    match (own, over) {
        (Some(b), Some(a)) => b + " "@ + a,
        (None, Some(a)) => a,
        (Some(b), None) => b,
        (None, None) => Seq::empty(),
    }
}

/// A side length: the override, or `1em`. What the icon suggests for its
/// own size plays no part.
pub open spec fn size_value(over: Option<Text>) -> Text {
    match over {
        Some(a) => a,
        None => "1em"@,
    }
}

/// The `fill` attribute: the icon's own fill, or `currentColor`.
pub open spec fn fill_value(own: Option<Text>) -> Text {
    match own {
        Some(f) => f,
        None => "currentColor"@,
    }
}

/// The element that a render of `inputs` produces.
pub open spec fn rendered(inputs: RenderInputsView) -> SvgView {
    let icon = inputs.icon;
    let sized = Seq::<(Text, Text)>::empty().push(("class"@, class_value(inputs.class))).push(
        ("style"@, style_value(icon.style, inputs.style)),
    ).push(("width"@, size_value(inputs.width))).push(
        ("height"@, size_value(inputs.height)),
    ).push(("height"@, "1rem"@));
    let placed = with_optional(
        with_optional(with_optional(sized, "x"@, icon.x), "y"@, icon.y),
        "viewBox"@,
        icon.view_box,
    );
    let stroked = with_optional(
        with_optional(
            with_optional(placed, "stroke-linecap"@, icon.stroke_linecap),
            "stroke-linejoin"@,
            icon.stroke_linejoin,
        ),
        "stroke"@,
        icon.stroke,
    );
    SvgView {
        inner_html: icon.data,
        assignments: stroked.push(("fill"@, fill_value(icon.fill))).push(
            ("role"@, "graphics-symbol"@),
        ),
    }
}

/// The text of the `class` attribute.
pub fn class_text(class: &Option<String>) -> (text: String)
    ensures
        text@ == class_value(text_of(*class)),
{
    match class {
        Some(c) => c.clone(),
        None => String::new(),
    }
}

/// The text of the `style` attribute, merged from the icon's own style and
/// the override.
pub fn merged_style(own: &Option<String>, over: &Option<String>) -> (text: String)
    ensures
        text@ == style_value(text_of(*own), text_of(*over)),
{
    match (own, over) {
        (Some(b), Some(a)) => {
            let mut text = b.clone();
            text.append(" ");
            text.append(a.as_str());
            text
        },
        (None, Some(a)) => a.clone(),
        (Some(b), None) => b.clone(),
        (None, None) => String::new(),
    }
}

/// The text of a `width` or `height` attribute.
pub fn size_text(over: &Option<String>) -> (text: String)
    ensures
        text@ == size_value(text_of(*over)),
{
    match over {
        Some(a) => a.clone(),
        None => "1em".to_owned(),
    }
}

/// The text of the `fill` attribute.
pub fn fill_text(own: &Option<String>) -> (text: String)
    ensures
        text@ == fill_value(text_of(*own)),
{
    match own {
        Some(f) => f.clone(),
        None => "currentColor".to_owned(),
    }
}

impl RenderInputs {
    /// Renders the element from the values held now. Nothing is remembered
    /// from one render to the next.
    pub fn render(&self) -> (svg: Svg)
        ensures
            svg@ == rendered(self@),
    {
        let icon = &self.icon;
        let mut svg = Svg::new(icon.data.clone());
        svg.attr("class", class_text(&self.class));
        svg.attr("style", merged_style(&icon.style, &self.style));
        svg.attr("width", size_text(&self.width));
        svg.attr("height", size_text(&self.height));
        svg.attr("height", "1rem".to_owned());
        svg.attr_opt("x", &icon.x);
        svg.attr_opt("y", &icon.y);
        svg.attr_opt("viewBox", &icon.view_box);
        svg.attr_opt("stroke-linecap", &icon.stroke_linecap);
        svg.attr_opt("stroke-linejoin", &icon.stroke_linejoin);
        svg.attr_opt("stroke", &icon.stroke);
        svg.attr("fill", fill_text(&icon.fill));
        svg.attr("role", "graphics-symbol".to_owned());
        svg
    }
}

/// The icon component: renders `icon` as an `<svg>` element, with the
/// overrides that are set.
#[allow(non_snake_case)]
pub fn Icon(
    icon: IconDescriptor,
    width: Option<String>,
    height: Option<String>,
    class: Option<String>,
    style: Option<String>,
) -> (svg: Svg)
    ensures
        svg@ == rendered(
            icon@.into_inputs(text_of(width), text_of(height), text_of(class), text_of(style)),
        ),
{
    let inputs = RenderInputs { icon, width, height, class, style };
    inputs.render()
}

} // verus!
