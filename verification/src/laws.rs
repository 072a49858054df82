//! What holds of every render, stated over the element a reader sees.

use vstd::prelude::*;
use crate::descriptor::{RenderInputsView, Text};
use crate::element::{effective, lemma_effective_push, lemma_effective_with_optional, with_optional};
use crate::render::{class_value, fill_value, rendered, size_value, style_value};

verus! {

/// Whether `name` is one of the attributes that a render may assign.
pub open spec fn is_assigned_name(name: Text) -> bool {
    ||| name == "class"@
    ||| name == "style"@
    ||| name == "width"@
    ||| name == "height"@
    ||| name == "x"@
    ||| name == "y"@
    ||| name == "viewBox"@
    ||| name == "stroke-linecap"@
    ||| name == "stroke-linejoin"@
    ||| name == "stroke"@
    ||| name == "fill"@
    ||| name == "role"@
}

/// What a reader finds under `name` in the element rendered from `inputs`,
/// attribute by attribute.
pub open spec fn attribute_of(inputs: RenderInputsView, name: Text) -> Option<Text> {
    if name == "class"@ {
        Some(class_value(inputs.class))
    } else if name == "style"@ {
        Some(style_value(inputs.icon.style, inputs.style))
    } else if name == "width"@ {
        Some(size_value(inputs.width))
    } else if name == "height"@ {
        Some("1rem"@)
    } else if name == "x"@ {
        inputs.icon.x
    } else if name == "y"@ {
        inputs.icon.y
    } else if name == "viewBox"@ {
        inputs.icon.view_box
    } else if name == "stroke-linecap"@ {
        inputs.icon.stroke_linecap
    } else if name == "stroke-linejoin"@ {
        inputs.icon.stroke_linejoin
    } else if name == "stroke"@ {
        inputs.icon.stroke
    } else if name == "fill"@ {
        Some(fill_value(inputs.icon.fill))
    } else if name == "role"@ {
        Some("graphics-symbol"@)
    } else {
        None
    }
}

/// The twelve attribute names are twelve different strings.
proof fn lemma_names_differ()
    ensures
        "class"@.len() == 5 && "class"@[0] == 'c',
        "style"@.len() == 5 && "style"@[0] == 's',
        "width"@.len() == 5 && "width"@[0] == 'w',
        "height"@.len() == 6 && "height"@[0] == 'h',
        "x"@.len() == 1 && "x"@[0] == 'x',
        "y"@.len() == 1 && "y"@[0] == 'y',
        "viewBox"@.len() == 7,
        "stroke-linecap"@.len() == 14,
        "stroke-linejoin"@.len() == 15,
        "stroke"@.len() == 6 && "stroke"@[0] == 's',
        "fill"@.len() == 4 && "fill"@[0] == 'f',
        "role"@.len() == 4 && "role"@[0] == 'r',
{
    reveal_strlit("class");
    reveal_strlit("style");
    reveal_strlit("width");
    reveal_strlit("height");
    reveal_strlit("x");
    reveal_strlit("y");
    reveal_strlit("viewBox");
    reveal_strlit("stroke-linecap");
    reveal_strlit("stroke-linejoin");
    reveal_strlit("stroke");
    reveal_strlit("fill");
    reveal_strlit("role");
}

/// Under every name, a reader of the rendered element finds what
/// [`attribute_of`] says: the last assignment to each name decides, and a
/// name that no assignment mentions is absent.
pub proof fn law_attributes(inputs: RenderInputsView)
    ensures
        forall|name: Text| #[trigger]
            rendered(inputs).attribute(name) == attribute_of(inputs, name),
{
    lemma_names_differ();
    let icon = inputs.icon;
    let none = Seq::<(Text, Text)>::empty();
    let a = none.push(("class"@, class_value(inputs.class)));
    let b = a.push(("style"@, style_value(icon.style, inputs.style)));
    let c = b.push(("width"@, size_value(inputs.width)));
    let d = c.push(("height"@, size_value(inputs.height)));
    let e = d.push(("height"@, "1rem"@));
    let f = with_optional(e, "x"@, icon.x);
    let g = with_optional(f, "y"@, icon.y);
    let h = with_optional(g, "viewBox"@, icon.view_box);
    let i = with_optional(h, "stroke-linecap"@, icon.stroke_linecap);
    let j = with_optional(i, "stroke-linejoin"@, icon.stroke_linejoin);
    let k = with_optional(j, "stroke"@, icon.stroke);
    let l = k.push(("fill"@, fill_value(icon.fill)));
    let m = l.push(("role"@, "graphics-symbol"@));
    assert(rendered(inputs).assignments == m);
    lemma_effective_push(none, "class"@, class_value(inputs.class));
    lemma_effective_push(a, "style"@, style_value(icon.style, inputs.style));
    lemma_effective_push(b, "width"@, size_value(inputs.width));
    lemma_effective_push(c, "height"@, size_value(inputs.height));
    lemma_effective_push(d, "height"@, "1rem"@);
    lemma_effective_with_optional(e, "x"@, icon.x);
    lemma_effective_with_optional(f, "y"@, icon.y);
    lemma_effective_with_optional(g, "viewBox"@, icon.view_box);
    lemma_effective_with_optional(h, "stroke-linecap"@, icon.stroke_linecap);
    lemma_effective_with_optional(i, "stroke-linejoin"@, icon.stroke_linejoin);
    lemma_effective_with_optional(j, "stroke"@, icon.stroke);
    lemma_effective_push(k, "fill"@, fill_value(icon.fill));
    lemma_effective_push(l, "role"@, "graphics-symbol"@);
    assert forall|name: Text| #[trigger]
        rendered(inputs).attribute(name) == attribute_of(inputs, name) by {
        assert(effective(none, name) == None::<Text>);
        assert(rendered(inputs).attribute(name) == effective(m, name));
    }
}

/// With no width override the element is `1em` wide, and its height reads
/// `1rem` whatever the inputs are: neither the height override nor the
/// sizes that the icon suggests change that.
pub proof fn law_default_size(inputs: RenderInputsView)
    requires
        inputs.width.is_none(),
    ensures
        rendered(inputs).attribute("width"@) == Some("1em"@),
        rendered(inputs).attribute("height"@) == Some("1rem"@),
{
    lemma_names_differ();
    law_attributes(inputs);
}

/// A width override is the element's width, whatever width the icon
/// suggests.
pub proof fn law_width_override(inputs: RenderInputsView, width: Text)
    requires
        inputs.width == Some(width),
    ensures
        rendered(inputs).attribute("width"@) == Some(width),
{
    lemma_names_differ();
    law_attributes(inputs);
}

/// The element always has a `style` attribute. It holds the icon's own style
/// and the override, in this order and one space apart, where both are
/// there; the one that is there, where only one is; and the empty string
/// where neither is.
pub proof fn law_style_merge(inputs: RenderInputsView)
    ensures
        rendered(inputs).attribute("style"@) == Some(
            style_value(inputs.icon.style, inputs.style),
        ),
        inputs.icon.style.is_some() && inputs.style.is_some() ==> style_value(
            inputs.icon.style,
            inputs.style,
        ) == inputs.icon.style.unwrap() + seq![' '] + inputs.style.unwrap(),
        inputs.icon.style.is_none() && inputs.style.is_none() ==> style_value(
            inputs.icon.style,
            inputs.style,
        ) == Seq::<char>::empty(),
{
    lemma_names_differ();
    law_attributes(inputs);
    reveal_strlit(" ");
    assert(" "@ =~= seq![' ']);
}

/// The element's fill is the icon's own, and `currentColor` where the icon
/// has none.
pub proof fn law_fill(inputs: RenderInputsView)
    ensures
        inputs.icon.fill.is_none() ==> rendered(inputs).attribute("fill"@) == Some(
            "currentColor"@,
        ),
        inputs.icon.fill.is_some() ==> rendered(inputs).attribute("fill"@) == inputs.icon.fill,
{
    lemma_names_differ();
    law_attributes(inputs);
}

/// After the class override is replaced, the next render shows the new class
/// and, under every other name, what it showed before; the inner markup
/// stays too.
pub proof fn law_class_update(inputs: RenderInputsView, class: Text)
    ensures
        rendered(inputs.with_class(Some(class))).attribute("class"@) == Some(class),
        rendered(inputs.with_class(Some(class))).inner_html == rendered(inputs).inner_html,
        forall|name: Text|
            name != "class"@ ==> #[trigger] rendered(inputs.with_class(Some(class))).attribute(
                name,
            ) == rendered(inputs).attribute(name),
{
    lemma_names_differ();
    law_attributes(inputs);
    law_attributes(inputs.with_class(Some(class)));
}

/// Replacing the width, height or style override leaves the class that a
/// render shows as it is: it is always that of the class override held now.
pub proof fn law_class_kept(
    inputs: RenderInputsView,
    width: Option<Text>,
    height: Option<Text>,
    style: Option<Text>,
)
    ensures
        rendered(inputs.with_width(width)).attribute("class"@) == rendered(inputs).attribute(
            "class"@,
        ),
        rendered(inputs.with_height(height)).attribute("class"@) == rendered(inputs).attribute(
            "class"@,
        ),
        rendered(inputs.with_style(style)).attribute("class"@) == rendered(inputs).attribute(
            "class"@,
        ),
        rendered(inputs).attribute("class"@) == Some(class_value(inputs.class)),
{
    lemma_names_differ();
    law_attributes(inputs);
    law_attributes(inputs.with_width(width));
    law_attributes(inputs.with_height(height));
    law_attributes(inputs.with_style(style));
}

/// The inner markup of the element is the icon's markup, character for
/// character.
pub proof fn law_inner_markup(inputs: RenderInputsView)
    ensures
        rendered(inputs).inner_html == inputs.icon.data,
{
}

/// Every element has the role `graphics-symbol`.
pub proof fn law_role(inputs: RenderInputsView)
    ensures
        rendered(inputs).attribute("role"@) == Some("graphics-symbol"@),
{
    lemma_names_differ();
    law_attributes(inputs);
}

/// A name that is none of the twelve is absent from every element.
pub proof fn law_no_other_attribute(inputs: RenderInputsView, name: Text)
    requires
        !is_assigned_name(name),
    ensures
        rendered(inputs).attribute(name).is_none(),
{
    law_attributes(inputs);
}

} // verus!
