use eaglemode::foundation::{Color, Image};
use eaglemode::render::SoftwareCompositor;

#[test]
fn disabled_dimming_alpha() {
    let c = Color::rgba(100, 150, 200, 255);
    let dimmed = c.with_alpha((c.a() as u16 * 64 / 255) as u8);
    // 255 * 64 / 255 = 64
    assert_eq!(dimmed.a(), 64);
    assert_eq!(dimmed.r(), 100);
}

#[test]
fn with_alpha_preserves_rgb() {
    let c = Color::rgb(10, 20, 30);
    let c2 = c.with_alpha(128);
    assert_eq!(c2.r(), 10);
    assert_eq!(c2.g(), 20);
    assert_eq!(c2.b(), 30);
    assert_eq!(c2.a(), 128);
}

#[test]
fn image_is_empty() {
    let empty = Image::new(0, 0, 1);
    assert!(empty.is_empty());
    let nonempty = Image::new(1, 1, 1);
    assert!(!nonempty.is_empty());
}

#[test]
fn color_grey_and_black() {
    assert_eq!(Color::rgb(10, 20, 30).grey(), 20);
    assert_eq!(Color::rgb(255, 255, 255).grey(), 255);
    assert_eq!(Color::rgb(1, 0, 0).grey(), 0);
    assert_eq!(Color::rgb(1, 1, 0).grey(), 1);
    let b = Color::black();
    assert_eq!((b.r(), b.g(), b.b(), b.a()), (0, 0, 0, 255));
}

#[test]
fn image_dimensions() {
    let img = Image::new(3, 2, 4);
    assert_eq!(img.width(), 3);
    assert_eq!(img.height(), 2);
    assert_eq!(img.channel_count(), 4);
    assert!(!img.is_empty());
    assert!(Image::new(5, 0, 3).is_empty());
}

#[test]
fn image_fill_sets_every_pixel() {
    let mut img = Image::new(2, 2, 4);
    img.fill(Color::rgba(1, 2, 3, 4));
    assert_eq!(*img.data(), vec![1, 2, 3, 4, 1, 2, 3, 4, 1, 2, 3, 4, 1, 2, 3, 4]);
    let mut grey = Image::new(2, 1, 2);
    grey.fill(Color::rgba(10, 20, 30, 40));
    assert_eq!(*grey.data(), vec![20, 40, 20, 40]);
    let mut rgb = Image::new(1, 1, 3);
    rgb.fill(Color::rgba(10, 20, 30, 40));
    assert_eq!(*rgb.data(), vec![10, 20, 30]);
}

#[test]
fn compositor_new_and_resize() {
    let mut c = SoftwareCompositor::new(4, 3);
    assert_eq!(c.framebuffer().width(), 4);
    assert_eq!(c.framebuffer().height(), 3);
    assert_eq!(c.framebuffer().channel_count(), 4);
    assert!(c.framebuffer().data().iter().all(|b| *b == 0));
    c.resize(2, 5);
    assert_eq!(c.framebuffer().width(), 2);
    assert_eq!(c.framebuffer().height(), 5);
    assert_eq!(c.framebuffer().data().len(), 40);
}

#[test]
fn compositor_render_clears_to_black_then_paints() {
    let mut c = SoftwareCompositor::new(2, 1);
    let mut painted = 0u32;
    c.render(&mut painted, |tree: &mut u32, target: &mut Image| {
        *tree += 1;
        assert_eq!(*target.data(), vec![0, 0, 0, 255, 0, 0, 0, 255]);
        target.fill(Color::rgba(1, 2, 3, 4));
    });
    assert_eq!(painted, 1);
    assert_eq!(*c.framebuffer().data(), vec![1, 2, 3, 4, 1, 2, 3, 4]);
}

#[test]
fn color_dimmed_for_disabled() {
    let c = Color::rgba(100, 150, 200, 255).dimmed();
    assert_eq!((c.r(), c.g(), c.b(), c.a()), (100, 150, 200, 64));
    assert_eq!(Color::rgba(1, 2, 3, 128).dimmed().a(), 32);
    assert_eq!(Color::rgba(1, 2, 3, 3).dimmed().a(), 0);
}

#[test]
fn compositor_clear_to_black() {
    let mut c = SoftwareCompositor::new(1, 2);
    c.clear();
    assert_eq!(*c.framebuffer().data(), vec![0, 0, 0, 255, 0, 0, 0, 255]);
    assert_eq!(c.framebuffer().width(), 1);
    assert_eq!(c.framebuffer().height(), 2);
}
