use leptos_icons::render::{class_text, fill_text, merged_style, size_text};
use leptos_icons::{Attr, Icon, IconDescriptor, RenderInputs, Svg};

fn text(s: &str) -> Option<String> {
    Some(s.to_string())
}

fn bare(data: &str) -> IconDescriptor {
    IconDescriptor::new(data.to_string())
}

fn full() -> IconDescriptor {
    IconDescriptor {
        data: "<circle r=\"4\"/>".to_string(),
        width: text("24"),
        height: text("24"),
        x: text("1"),
        y: text("2"),
        view_box: text("0 0 24 24"),
        stroke_linecap: text("round"),
        stroke_linejoin: text("bevel"),
        stroke: text("black"),
        fill: text("none"),
        style: text("color:red;"),
    }
}

static FOLDER: icondata_core::IconData = icondata_core::IconData {
    style: Some("color:red;"),
    x: Some("1"),
    y: Some("2"),
    width: Some("24"),
    height: Some("24"),
    view_box: Some("0 0 24 24"),
    stroke_linecap: Some("round"),
    stroke_linejoin: Some("bevel"),
    stroke_width: Some("3"),
    stroke: Some("black"),
    fill: Some("none"),
    data: "<circle r=\"4\"/>",
};

static PLAIN: icondata_core::IconData = icondata_core::IconData {
    style: None,
    x: None,
    y: None,
    width: None,
    height: None,
    view_box: None,
    stroke_linecap: None,
    stroke_linejoin: None,
    stroke_width: None,
    stroke: None,
    fill: None,
    data: "<path d=\"M0 0\"/>",
};

fn pair(name: &str, value: &str) -> Attr {
    Attr { name: name.to_string(), value: value.to_string() }
}

#[test]
fn default_sizing() {
    let svg = Icon(bare(""), None, None, None, None);
    assert_eq!(svg.attribute("width"), text("1em"));
    assert_eq!(svg.attribute("height"), text("1rem"));
}

#[test]
fn suggested_size_is_not_a_fallback() {
    let svg = Icon(full(), None, None, None, None);
    assert_eq!(svg.attribute("width"), text("1em"));
    assert_eq!(svg.attribute("height"), text("1rem"));
}

#[test]
fn width_override_takes_precedence() {
    let svg = Icon(bare(""), text("32px"), None, None, None);
    assert_eq!(svg.attribute("width"), text("32px"));
    let svg = Icon(full(), text("32px"), None, None, None);
    assert_eq!(svg.attribute("width"), text("32px"));
}

#[test]
fn height_override_is_assigned_and_then_overwritten() {
    let svg = Icon(bare(""), None, text("48px"), None, None);
    assert_eq!(svg.attrs[3], pair("height", "48px"));
    assert_eq!(svg.attrs[4], pair("height", "1rem"));
    assert_eq!(svg.attribute("height"), text("1rem"));
}

#[test]
fn style_merge_both_present() {
    let mut icon = bare("");
    icon.style = text("color:red;");
    let svg = Icon(icon, None, None, None, text("margin:0;"));
    assert_eq!(svg.attribute("style"), text("color:red; margin:0;"));
}

#[test]
fn style_merge_override_only() {
    let svg = Icon(bare(""), None, None, None, text("margin:0;"));
    assert_eq!(svg.attribute("style"), text("margin:0;"));
}

#[test]
fn style_merge_descriptor_only() {
    let mut icon = bare("");
    icon.style = text("color:red;");
    let svg = Icon(icon, None, None, None, None);
    assert_eq!(svg.attribute("style"), text("color:red;"));
}

#[test]
fn style_merge_neither_present() {
    let svg = Icon(bare(""), None, None, None, None);
    assert_eq!(svg.attribute("style"), text(""));
}

#[test]
fn merged_style_cases() {
    assert_eq!(merged_style(&text("a"), &text("b")), "a b");
    assert_eq!(merged_style(&None, &text("b")), "b");
    assert_eq!(merged_style(&text("a"), &None), "a");
    assert_eq!(merged_style(&None, &None), "");
    assert_eq!(merged_style(&text(""), &text("")), " ");
}

#[test]
fn fill_default_and_own() {
    let svg = Icon(bare(""), None, None, None, None);
    assert_eq!(svg.attribute("fill"), text("currentColor"));
    let mut icon = bare("");
    icon.fill = text("blue");
    let svg = Icon(icon, None, None, None, None);
    assert_eq!(svg.attribute("fill"), text("blue"));
}

#[test]
fn attribute_texts() {
    assert_eq!(class_text(&None), "");
    assert_eq!(class_text(&text("big")), "big");
    assert_eq!(size_text(&None), "1em");
    assert_eq!(size_text(&text("2em")), "2em");
    assert_eq!(fill_text(&None), "currentColor");
    assert_eq!(fill_text(&text("blue")), "blue");
}

#[test]
fn class_defaults_to_empty_and_is_never_left_out() {
    let svg = Icon(bare(""), None, None, None, None);
    assert_eq!(svg.attribute("class"), text(""));
    assert_eq!(svg.attrs[0], pair("class", ""));
}

#[test]
fn class_update_is_seen_by_the_next_render() {
    let mut inputs = RenderInputs::new(bare("<g/>"));
    inputs.set_class(text("a"));
    let first = inputs.render();
    assert_eq!(first.attribute("class"), text("a"));
    inputs.set_class(text("b"));
    let second = inputs.render();
    assert_eq!(second.attribute("class"), text("b"));
    assert_eq!(second.inner_html, first.inner_html);
    assert_eq!(second.attrs[1..], first.attrs[1..]);
}

#[test]
fn unrelated_update_keeps_the_current_class() {
    let mut inputs = RenderInputs::new(bare("<g/>"));
    inputs.set_class(text("a"));
    inputs.set_class(text("b"));
    inputs.set_style(text("margin:0;"));
    let svg = inputs.render();
    assert_eq!(svg.attribute("class"), text("b"));
    assert_eq!(svg.attribute("style"), text("margin:0;"));
    inputs.set_width(text("10px"));
    inputs.set_height(text("10px"));
    assert_eq!(inputs.render().attribute("class"), text("b"));
}

#[test]
fn unsetting_an_override_restores_the_default() {
    let mut inputs = RenderInputs::new(bare(""));
    inputs.set_width(text("10px"));
    assert_eq!(inputs.render().attribute("width"), text("10px"));
    inputs.set_width(None);
    assert_eq!(inputs.render().attribute("width"), text("1em"));
    inputs.set_class(text("a"));
    inputs.set_class(None);
    assert_eq!(inputs.render().attribute("class"), text(""));
}

#[test]
fn icon_update_is_seen_by_the_next_render() {
    let mut inputs = RenderInputs::new(bare("<g/>"));
    inputs.set_class(text("a"));
    inputs.set_icon(full());
    let svg = inputs.render();
    assert_eq!(svg.inner_html, "<circle r=\"4\"/>");
    assert_eq!(svg.attribute("fill"), text("none"));
    assert_eq!(svg.attribute("class"), text("a"));
}

#[test]
fn raw_content_passthrough() {
    let svg = Icon(bare("<path d=\"M0 0\"/>"), None, None, None, None);
    assert_eq!(svg.inner_html, "<path d=\"M0 0\"/>");
    let svg = Icon(bare("a < b & \"c\""), None, None, None, None);
    assert_eq!(svg.inner_html, "a < b & \"c\"");
}

#[test]
fn role_is_fixed() {
    assert_eq!(Icon(bare(""), None, None, None, None).attribute("role"), text("graphics-symbol"));
    let svg = Icon(full(), text("1px"), text("2px"), text("c"), text("s"));
    assert_eq!(svg.attribute("role"), text("graphics-symbol"));
}

#[test]
fn bare_icon_assignments_in_order() {
    let svg = Icon(bare("<g/>"), None, None, None, None);
    let expected = vec![
        pair("class", ""),
        pair("style", ""),
        pair("width", "1em"),
        pair("height", "1em"),
        pair("height", "1rem"),
        pair("fill", "currentColor"),
        pair("role", "graphics-symbol"),
    ];
    assert_eq!(svg, Svg { inner_html: "<g/>".to_string(), attrs: expected });
}

#[test]
fn full_icon_assignments_in_order() {
    let svg = Icon(full(), text("32px"), text("16px"), text("icon big"), text("margin:0;"));
    let expected = vec![
        pair("class", "icon big"),
        pair("style", "color:red; margin:0;"),
        pair("width", "32px"),
        pair("height", "16px"),
        pair("height", "1rem"),
        pair("x", "1"),
        pair("y", "2"),
        pair("viewBox", "0 0 24 24"),
        pair("stroke-linecap", "round"),
        pair("stroke-linejoin", "bevel"),
        pair("stroke", "black"),
        pair("fill", "none"),
        pair("role", "graphics-symbol"),
    ];
    assert_eq!(svg, Svg { inner_html: "<circle r=\"4\"/>".to_string(), attrs: expected });
}

#[test]
fn optional_attributes_are_verbatim_or_absent() {
    let svg = Icon(full(), None, None, None, None);
    assert_eq!(svg.attribute("x"), text("1"));
    assert_eq!(svg.attribute("y"), text("2"));
    assert_eq!(svg.attribute("viewBox"), text("0 0 24 24"));
    assert_eq!(svg.attribute("stroke-linecap"), text("round"));
    assert_eq!(svg.attribute("stroke-linejoin"), text("bevel"));
    assert_eq!(svg.attribute("stroke"), text("black"));
    let svg = Icon(bare(""), None, None, None, None);
    for name in ["x", "y", "viewBox", "stroke-linecap", "stroke-linejoin", "stroke"] {
        assert_eq!(svg.attribute(name), None);
    }
}

#[test]
fn unknown_attribute_is_absent() {
    let svg = Icon(full(), None, None, None, None);
    assert_eq!(svg.attribute("id"), None);
    assert_eq!(svg.attribute("Width"), None);
    assert_eq!(svg.attribute(""), None);
}

#[test]
fn render_is_repeatable() {
    let mut inputs = RenderInputs::new(full());
    inputs.set_style(text("margin:0;"));
    assert_eq!(inputs.render(), inputs.render());
    let again = Icon(full(), None, None, None, text("margin:0;"));
    assert_eq!(inputs.render(), again);
}

#[test]
fn last_assignment_wins() {
    let mut svg = Svg::new("".to_string());
    assert_eq!(svg.attribute("a"), None);
    svg.attr("a", "1".to_string());
    svg.attr("b", "2".to_string());
    svg.attr("a", "3".to_string());
    assert_eq!(svg.attribute("a"), text("3"));
    assert_eq!(svg.attribute("b"), text("2"));
    assert_eq!(svg.attrs.len(), 3);
}

#[test]
fn optional_assignment() {
    let mut svg = Svg::new("x".to_string());
    svg.attr_opt("a", &None);
    assert_eq!(svg.attrs.len(), 0);
    svg.attr_opt("a", &text("1"));
    assert_eq!(svg.attrs, vec![pair("a", "1")]);
    svg.attr_opt("a", &None);
    assert_eq!(svg.attribute("a"), text("1"));
    assert_eq!(svg.inner_html, "x");
}

#[test]
fn new_inputs_have_no_override() {
    let inputs = RenderInputs::new(bare("<g/>"));
    assert_eq!(inputs.icon, bare("<g/>"));
    assert_eq!(inputs.width, None);
    assert_eq!(inputs.height, None);
    assert_eq!(inputs.class, None);
    assert_eq!(inputs.style, None);
}

#[test]
fn descriptor_from_a_record_field_for_field() {
    assert_eq!(IconDescriptor::from_icondata(&FOLDER), full());
    assert_eq!(IconDescriptor::from_icondata(&PLAIN), bare("<path d=\"M0 0\"/>"));
}

#[test]
fn record_with_distinct_fields_keeps_each_in_its_place() {
    let record = icondata_core::IconData {
        style: Some("style"),
        x: Some("x"),
        y: Some("y"),
        width: Some("width"),
        height: Some("height"),
        view_box: Some("view_box"),
        stroke_linecap: Some("stroke_linecap"),
        stroke_linejoin: Some("stroke_linejoin"),
        stroke_width: Some("stroke_width"),
        stroke: Some("stroke"),
        fill: Some("fill"),
        data: "data",
    };
    let icon = IconDescriptor::from_icondata(&record);
    assert_eq!(icon.data, "data");
    assert_eq!(icon.style, text("style"));
    assert_eq!(icon.x, text("x"));
    assert_eq!(icon.y, text("y"));
    assert_eq!(icon.width, text("width"));
    assert_eq!(icon.height, text("height"));
    assert_eq!(icon.view_box, text("view_box"));
    assert_eq!(icon.stroke_linecap, text("stroke_linecap"));
    assert_eq!(icon.stroke_linejoin, text("stroke_linejoin"));
    assert_eq!(icon.stroke, text("stroke"));
    assert_eq!(icon.fill, text("fill"));
}

#[test]
fn record_renders_as_its_descriptor_does() {
    let svg = Icon(IconDescriptor::from_icondata(&PLAIN), None, None, None, None);
    assert_eq!(svg.inner_html, "<path d=\"M0 0\"/>");
    assert_eq!(svg.attribute("fill"), text("currentColor"));
    assert_eq!(svg.attribute("stroke"), None);
    let svg = Icon(IconDescriptor::from_icondata(&FOLDER), None, None, None, None);
    assert_eq!(svg.attribute("viewBox"), text("0 0 24 24"));
    assert_eq!(svg.attribute("stroke-width"), None);
}
