use vstd::prelude::*;

use crate::foundation::{fill_channel, Color, Image};

verus! {

/// Renders a view into an RGBA framebuffer held in memory.
pub struct SoftwareCompositor {
    framebuffer: Image,
}

impl SoftwareCompositor {
    /// The framebuffer.
    pub closed spec fn frame(&self) -> Image {
        self.framebuffer
    }

    /// A compositor with a all-zero `width` x `height` RGBA
    /// framebuffer.
    pub fn new(width: u32, height: u32) -> (c: SoftwareCompositor)
        requires
            width * height * 4 <= usize::MAX,
        ensures
            c.frame().width_view() == width,
            c.frame().height_view() == height,
            c.frame().channels_view() == 4,
            forall|i: int| 0 <= i < c.frame().bytes().len() ==> #[trigger] c.frame().bytes()[i] == 0,
    {
        SoftwareCompositor { framebuffer: Image::new(width, height, 4) }
    }

    /// Replace the framebuffer by an all-zero `width` x `height` RGBA one.
    pub fn resize(&mut self, width: u32, height: u32)
        requires
            width * height * 4 <= usize::MAX,
        ensures
            final(self).frame().width_view() == width,
            final(self).frame().height_view() == height,
            final(self).frame().channels_view() == 4,
            forall|i: int|
                0 <= i < final(self).frame().bytes().len() ==> #[trigger] final(self).frame().bytes()[i]
                    == 0,
    {
        self.framebuffer = Image::new(width, height, 4);
    }

    /// Set every pixel of the framebuffer to opaque black, keeping its size.
    pub fn clear(&mut self)
        ensures
            final(self).frame().width_view() == old(self).frame().width_view(),
            final(self).frame().height_view() == old(self).frame().height_view(),
            final(self).frame().channels_view() == old(self).frame().channels_view(),
            final(self).frame().bytes().len() == old(self).frame().bytes().len(),
            forall|i: int|
                0 <= i < final(self).frame().bytes().len() ==> #[trigger] final(self).frame().bytes()[i]
                    == fill_channel(Color::black_view(), old(self).frame().channels_view() as int, i % (old(self).frame().channels_view() as int)),
    {
        self.framebuffer.fill(Color::black());
    }

    /// Whether `img` is a framebuffer of the size of `frame` with every
    /// pixel opaque black.
    pub open spec fn cleared_of(frame: Image, img: Image) -> bool {
        &&& img.width_view() == frame.width_view()
        &&& img.height_view() == frame.height_view()
        &&& img.channels_view() == frame.channels_view()
        &&& img.bytes().len() == frame.bytes().len()
        &&& forall|i: int|
            0 <= i < img.bytes().len() ==> #[trigger] img.bytes()[i] == fill_channel(
                Color::black_view(),
                frame.channels_view() as int,
                i % (frame.channels_view() as int),
            )
    }

    /// Clear the framebuffer to opaque black, then let `paint` draw `tree`
    /// into it, once. `paint` is handed the cleared framebuffer of the old
    /// size; the framebuffer and the tree are afterwards what `paint` left.
    pub fn render<T, F: FnOnce(&mut T, &mut Image)>(&mut self, tree: &mut T, paint: F)
        requires
            forall|args: (&mut T, &mut Image)| call_requires(paint, args),
        ensures
            exists|t: &mut T, img: &mut Image|
                {
                    &&& *t == *old(tree)
                    &&& Self::cleared_of(old(self).frame(), *img)
                    &&& *final(t) == *final(tree)
                    &&& *final(img) == final(self).frame()
                    &&& call_ensures(paint, (t, img), ())
                },
    {
        self.clear();
        paint(tree, &mut self.framebuffer);
    }

    /// The framebuffer.
    pub fn framebuffer(&self) -> (f: &Image)
        ensures
            *f == self.frame(),
    {
        &self.framebuffer
    }
}

} // verus!
