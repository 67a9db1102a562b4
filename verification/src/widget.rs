use vstd::prelude::*;

use crate::foundation::Image;

verus! {

/// Outer border style (`NoBorder`: no outer border at all).
#[derive(Copy, Clone, Debug, PartialEq, Eq, Structural)]
pub enum OuterBorderType {
    NoBorder,
    Filled,
    Margin,
    MarginFilled,
    Rect,
    RoundRect,
    Group,
    Instrument,
    InstrumentMoreRound,
    PopupRoot,
}

/// Inner border style (`NoBorder`: no inner border at all).
#[derive(Copy, Clone, Debug, PartialEq, Eq, Structural)]
pub enum InnerBorderType {
    NoBorder,
    Group,
    InputField,
    OutputField,
    CustomRect,
}

/// The chrome around a widget, as far as it is not geometry: the border
/// styles, the caption, the description and the icon of its label.
pub struct Border {
    pub outer: OuterBorderType,
    pub inner: InnerBorderType,
    pub caption: String,
    pub description: String,
    pub icon: Option<Image>,
    pub icon_above_caption: bool,
}

impl Border {
    /// A border of outer style `outer`, no inner border, and an empty label.
    pub fn new(outer: OuterBorderType) -> (b: Border)
        ensures
            b.outer == outer,
            b.inner == InnerBorderType::NoBorder,
            b.caption@ == Seq::<char>::empty(),
            b.description@ == Seq::<char>::empty(),
            b.icon is None,
            !b.icon_above_caption,
    {
        Border {
            outer,
            inner: InnerBorderType::NoBorder,
            caption: String::new(),
            description: String::new(),
            icon: None,
            icon_above_caption: false,
        }
    }

    /// This border with caption `caption`.
    pub fn with_caption(self, caption: &str) -> (b: Border)
        ensures
            b.caption@ == caption@,
            b.outer == self.outer,
            b.inner == self.inner,
            b.description == self.description,
            b.icon == self.icon,
            b.icon_above_caption == self.icon_above_caption,
    {
        Border { caption: caption.to_owned(), ..self }
    }

    /// This border with description `description`.
    pub fn with_description(self, description: &str) -> (b: Border)
        ensures
            b.description@ == description@,
            b.outer == self.outer,
            b.inner == self.inner,
            b.caption == self.caption,
            b.icon == self.icon,
            b.icon_above_caption == self.icon_above_caption,
    {
        Border { description: description.to_owned(), ..self }
    }

    /// This border with inner style `inner`.
    pub fn with_inner(self, inner: InnerBorderType) -> (b: Border)
        ensures
            b.inner == inner,
            b.outer == self.outer,
            b.caption == self.caption,
            b.description == self.description,
            b.icon == self.icon,
            b.icon_above_caption == self.icon_above_caption,
    {
        Border { inner, ..self }
    }

    /// This border with icon `icon`.
    pub fn with_icon(self, icon: Image) -> (b: Border)
        ensures
            b.icon == Some(icon),
            b.outer == self.outer,
            b.inner == self.inner,
            b.caption == self.caption,
            b.description == self.description,
            b.icon_above_caption == self.icon_above_caption,
    {
        Border { icon: Some(icon), ..self }
    }

    /// Replace the icon.
    pub fn set_icon(&mut self, icon: Option<Image>)
        ensures
            final(self).icon == icon,
            final(self).outer == old(self).outer,
            final(self).inner == old(self).inner,
            final(self).caption == old(self).caption,
            final(self).description == old(self).description,
            final(self).icon_above_caption == old(self).icon_above_caption,
    {
        self.icon = icon;
    }

    /// Whether the icon stands above the caption rather than beside it.
    pub fn set_icon_above_caption(&mut self, above: bool)
        ensures
            final(self).icon_above_caption == above,
            final(self).outer == old(self).outer,
            final(self).inner == old(self).inner,
            final(self).caption == old(self).caption,
            final(self).description == old(self).description,
            final(self).icon == old(self).icon,
    {
        self.icon_above_caption = above;
    }

    /// Whether the border shows a label: a caption, a description or an
    /// icon.
    pub fn has_label(&self) -> (r: bool)
        ensures
            r == (self.caption@.len() > 0 || self.description@.len() > 0 || self.icon is Some),
    {
        !self.caption.as_str().is_empty() || !self.description.as_str().is_empty()
            || self.icon.is_some()
    }
}

/// A text display that takes no focus: a caption on a border without outer
/// border.
pub struct Label {
    border: Border,
}

impl Label {
    /// The caption shown.
    pub closed spec fn caption_view(&self) -> Seq<char> {
        self.border.caption@
    }

    /// The style of the border the caption stands on.
    pub closed spec fn outer_view(&self) -> OuterBorderType {
        self.border.outer
    }

    /// A label showing `caption`, with no outer border.
    pub fn new(caption: &str) -> (l: Label)
        ensures
            l.caption_view() == caption@,
            l.outer_view() == OuterBorderType::NoBorder,
    {
        Label { border: Border::new(OuterBorderType::NoBorder).with_caption(caption) }
    }

    /// Show `text` instead.
    pub fn set_caption(&mut self, text: &str)
        ensures
            final(self).caption_view() == text@,
            final(self).outer_view() == old(self).outer_view(),
    {
        self.border.caption = text.to_owned();
    }

    /// The caption shown.
    pub fn caption(&self) -> (c: &str)
        ensures
            c@ == self.caption_view(),
    {
        self.border.caption.as_str()
    }
}

} // verus!
