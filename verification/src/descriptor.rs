//! The inputs of a render: the icon descriptor and the optional overrides.

use vstd::prelude::*;

verus! {

/// The characters of a string. Contracts speak of strings only through this.
pub type Text = Seq<char>;

/// What an optional string holds: nothing, or its characters.
pub open spec fn text_of(s: Option<String>) -> Option<Text> {
    match s {
        Some(t) => Some(t@),
        None => None,
    }
}

/// An icon as the `icondata_core` crate supplies it. The record is declared
/// with its fields as that crate defines them, all of them public, so the
/// verifier reads each field's type from the definition and nothing is
/// assumed of a value beyond it.
#[verifier::external_type_specification]
pub struct ExIconData(icondata_core::IconData);

/// What an optional string slice holds: nothing, or its characters.
pub open spec fn slice_text_of(s: Option<&'static str>) -> Option<Text> {
    match s {
        Some(t) => Some(t@),
        None => None,
    }
}

/// An owned copy of an optional string slice.
fn owned(s: Option<&'static str>) -> (text: Option<String>)
    ensures
        text_of(text) == slice_text_of(s),
{
    match s {
        Some(t) => Some(t.to_owned()),
        None => None,
    }
}

/// An icon: its inner markup and the presentation attributes it suggests.
///
/// `data` is markup that the supplier vouches for. It is placed inside the
/// element as it is, without escaping; nothing here inspects it.
#[derive(Clone, Debug, PartialEq, Eq)]
pub struct IconDescriptor {
    pub data: String,
    pub width: Option<String>,
    pub height: Option<String>,
    pub x: Option<String>,
    pub y: Option<String>,
    pub view_box: Option<String>,
    pub stroke_linecap: Option<String>,
    pub stroke_linejoin: Option<String>,
    pub stroke: Option<String>,
    pub fill: Option<String>,
    pub style: Option<String>,
}

/// The mathematical value of an [`IconDescriptor`].
pub ghost struct IconDescriptorView {
    pub data: Text,
    pub width: Option<Text>,
    pub height: Option<Text>,
    pub x: Option<Text>,
    pub y: Option<Text>,
    pub view_box: Option<Text>,
    pub stroke_linecap: Option<Text>,
    pub stroke_linejoin: Option<Text>,
    pub stroke: Option<Text>,
    pub fill: Option<Text>,
    pub style: Option<Text>,
}

impl View for IconDescriptor {
    type V = IconDescriptorView;

    open spec fn view(&self) -> IconDescriptorView {
        IconDescriptorView {
            data: self.data@,
            width: text_of(self.width),
            height: text_of(self.height),
            x: text_of(self.x),
            y: text_of(self.y),
            view_box: text_of(self.view_box),
            stroke_linecap: text_of(self.stroke_linecap),
            stroke_linejoin: text_of(self.stroke_linejoin),
            stroke: text_of(self.stroke),
            fill: text_of(self.fill),
            style: text_of(self.style),
        }
    }
}

impl IconDescriptor {
    /// The icon that a record of `icondata_core` describes, field for field.
    /// The record's stroke width has no counterpart here: no render reads it.
    pub fn from_icondata(icon: &icondata_core::IconData) -> (own: IconDescriptor)
        ensures
            own@ == (IconDescriptorView {
                data: icon.data@,
                width: slice_text_of(icon.width),
                height: slice_text_of(icon.height),
                x: slice_text_of(icon.x),
                y: slice_text_of(icon.y),
                view_box: slice_text_of(icon.view_box),
                stroke_linecap: slice_text_of(icon.stroke_linecap),
                stroke_linejoin: slice_text_of(icon.stroke_linejoin),
                stroke: slice_text_of(icon.stroke),
                fill: slice_text_of(icon.fill),
                style: slice_text_of(icon.style),
            }),
    {
        IconDescriptor {
            data: icon.data.to_owned(),
            width: owned(icon.width),
            height: owned(icon.height),
            x: owned(icon.x),
            y: owned(icon.y),
            view_box: owned(icon.view_box),
            stroke_linecap: owned(icon.stroke_linecap),
            stroke_linejoin: owned(icon.stroke_linejoin),
            stroke: owned(icon.stroke),
            fill: owned(icon.fill),
            style: owned(icon.style),
        }
    }

    /// An icon with the given inner markup and no suggested attribute.
    pub fn new(data: String) -> (icon: IconDescriptor)
        ensures
            icon@ == (IconDescriptorView {
                data: data@,
                width: None,
                height: None,
                x: None,
                y: None,
                view_box: None,
                stroke_linecap: None,
                stroke_linejoin: None,
                stroke: None,
                fill: None,
                style: None,
            }),
    {
        IconDescriptor {
            data,
            width: None,
            height: None,
            x: None,
            y: None,
            view_box: None,
            stroke_linecap: None,
            stroke_linejoin: None,
            stroke: None,
            fill: None,
            style: None,
        }
    }
}

/// The current values of everything a render reads: the icon and the four
/// optional overrides. An override that is `None` is unset.
#[derive(Clone, Debug, PartialEq, Eq)]
pub struct RenderInputs {
    pub icon: IconDescriptor,
    pub width: Option<String>,
    pub height: Option<String>,
    pub class: Option<String>,
    pub style: Option<String>,
}

impl IconDescriptorView {
    /// The inputs of a render of this icon with the given overrides.
    pub open spec fn into_inputs(
        self,
        width: Option<Text>,
        height: Option<Text>,
        class: Option<Text>,
        style: Option<Text>,
    ) -> RenderInputsView {
        RenderInputsView { icon: self, width, height, class, style }
    }
}

/// The mathematical value of a [`RenderInputs`].
pub ghost struct RenderInputsView {
    pub icon: IconDescriptorView,
    pub width: Option<Text>,
    pub height: Option<Text>,
    pub class: Option<Text>,
    pub style: Option<Text>,
}

impl RenderInputsView {
    /// These inputs with the icon replaced.
    pub open spec fn with_icon(self, icon: IconDescriptorView) -> RenderInputsView {
        RenderInputsView { icon, ..self }
    }

    /// These inputs with the width override replaced.
    pub open spec fn with_width(self, width: Option<Text>) -> RenderInputsView {
        RenderInputsView { width, ..self }
    }

    /// These inputs with the height override replaced.
    pub open spec fn with_height(self, height: Option<Text>) -> RenderInputsView {
        RenderInputsView { height, ..self }
    }

    /// These inputs with the class override replaced.
    pub open spec fn with_class(self, class: Option<Text>) -> RenderInputsView {
        RenderInputsView { class, ..self }
    }

    /// These inputs with the style override replaced.
    pub open spec fn with_style(self, style: Option<Text>) -> RenderInputsView {
        RenderInputsView { style, ..self }
    }
}

impl View for RenderInputs {
    type V = RenderInputsView;

    open spec fn view(&self) -> RenderInputsView {
        RenderInputsView {
            icon: self.icon@,
            width: text_of(self.width),
            height: text_of(self.height),
            class: text_of(self.class),
            style: text_of(self.style),
        }
    }
}

impl RenderInputs {
    /// The inputs of a component that was given an icon and nothing else.
    pub fn new(icon: IconDescriptor) -> (inputs: RenderInputs)
        ensures
            inputs@ == (RenderInputsView {
                icon: icon@,
                width: None,
                height: None,
                class: None,
                style: None,
            }),
    {
        RenderInputs { icon, width: None, height: None, class: None, style: None }
    }

    /// Replaces the icon; the overrides stay.
    pub fn set_icon(&mut self, icon: IconDescriptor)
        ensures
            final(self)@ == old(self)@.with_icon(icon@),
    {
        self.icon = icon;
    }

    /// Replaces the width override; everything else stays.
    pub fn set_width(&mut self, width: Option<String>)
        ensures
            final(self)@ == old(self)@.with_width(text_of(width)),
    {
        self.width = width;
    }

    /// Replaces the height override; everything else stays.
    pub fn set_height(&mut self, height: Option<String>)
        ensures
            final(self)@ == old(self)@.with_height(text_of(height)),
    {
        self.height = height;
    }

    /// Replaces the class override; everything else stays.
    pub fn set_class(&mut self, class: Option<String>)
        ensures
            final(self)@ == old(self)@.with_class(text_of(class)),
    {
        self.class = class;
    }

    /// Replaces the style override; everything else stays.
    pub fn set_style(&mut self, style: Option<String>)
        ensures
            final(self)@ == old(self)@.with_style(text_of(style)),
    {
        self.style = style;
    }
}

} // verus!
