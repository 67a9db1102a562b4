use eaglemode::foundation::Image;
use eaglemode::widget::{Border, InnerBorderType, Label, OuterBorderType};

#[test]
fn has_label_with_icon_only() {
    let img = Image::new(16, 16, 4);
    let border = Border::new(OuterBorderType::NoBorder).with_icon(img);
    assert!(border.has_label());
}

#[test]
fn label_caption() {
    let mut label = Label::new("Hello");
    assert_eq!(label.caption(), "Hello");
    label.set_caption("World");
    assert_eq!(label.caption(), "World");
}

#[test]
fn border_builders_keep_other_fields() {
    let border = Border::new(OuterBorderType::Group);
    assert!(!border.has_label());
    let mut border = border
        .with_caption("Cap")
        .with_description("Desc")
        .with_inner(InnerBorderType::InputField);
    assert_eq!(border.outer, OuterBorderType::Group);
    assert_eq!(border.inner, InnerBorderType::InputField);
    assert_eq!(border.caption, "Cap");
    assert_eq!(border.description, "Desc");
    assert!(border.icon.is_none());
    border.set_icon_above_caption(true);
    assert!(border.icon_above_caption);
    border.set_icon(Some(Image::new(1, 1, 1)));
    assert!(border.icon.is_some());
    border.set_icon(None);
    assert!(border.has_label());
    let only_desc = Border::new(OuterBorderType::Rect).with_description("d");
    assert!(only_desc.has_label());
}
