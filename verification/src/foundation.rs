use vstd::prelude::*;

verus! {

/// An RGBA color with 8 bits per channel.
#[derive(Debug, Clone, Copy, PartialEq, Eq, Structural, Hash)]
pub struct Color {
    red: u8,
    green: u8,
    blue: u8,
    alpha: u8,
}

/// The grey level of a color: the rounded mean of its red, green and blue.
pub open spec fn grey_of(r: u8, g: u8, b: u8) -> int {
    (r + g + b + 1) / 3
}

impl Color {
    pub closed spec fn red(&self) -> u8 {
        self.red
    }

    pub closed spec fn green(&self) -> u8 {
        self.green
    }

    pub closed spec fn blue(&self) -> u8 {
        self.blue
    }

    pub closed spec fn alpha(&self) -> u8 {
        self.alpha
    }

    /// Opaque black: red, green and blue 0, alpha 255.
    pub closed spec fn black_view() -> Color {
        Color { red: 0, green: 0, blue: 0, alpha: 255 }
    }

    /// The channels of opaque black.
    pub proof fn lemma_black_channels()
        ensures
            Color::black_view().red() == 0,
            Color::black_view().green() == 0,
            Color::black_view().blue() == 0,
            Color::black_view().alpha() == 255,
    {
    }

    /// Opaque black.
    pub fn black() -> (c: Color)
        ensures
            c == Color::black_view(),
            c.red() == 0,
            c.green() == 0,
            c.blue() == 0,
            c.alpha() == 255,
    {
        Color { red: 0, green: 0, blue: 0, alpha: 255 }
    }

    /// A color from its four channels.
    pub fn rgba(r: u8, g: u8, b: u8, a: u8) -> (c: Color)
        ensures
            c.red() == r,
            c.green() == g,
            c.blue() == b,
            c.alpha() == a,
    {
        Color { red: r, green: g, blue: b, alpha: a }
    }

    /// An opaque color.
    pub fn rgb(r: u8, g: u8, b: u8) -> (c: Color)
        ensures
            c.red() == r,
            c.green() == g,
            c.blue() == b,
            c.alpha() == 255,
    {
        Color { red: r, green: g, blue: b, alpha: 255 }
    }

    /// The same color with alpha `a`.
    pub fn with_alpha(&self, a: u8) -> (c: Color)
        ensures
            c.red() == self.red(),
            c.green() == self.green(),
            c.blue() == self.blue(),
            c.alpha() == a,
    {
        Color { red: self.red, green: self.green, blue: self.blue, alpha: a }
    }

    /// The color as painted for a disabled widget: the same red, green and
    /// blue, with alpha scaled by 64/255 (rounded down).
    pub fn dimmed(&self) -> (c: Color)
        ensures
            c.red() == self.red(),
            c.green() == self.green(),
            c.blue() == self.blue(),
            c.alpha() == self.alpha() * 64 / 255,
    {
        let a: u16 = (self.alpha as u16) * 64 / 255;
        Color { red: self.red, green: self.green, blue: self.blue, alpha: a as u8 }
    }

    pub fn r(&self) -> (v: u8)
        ensures
            v == self.red(),
    {
        self.red
    }

    pub fn g(&self) -> (v: u8)
        ensures
            v == self.green(),
    {
        self.green
    }

    pub fn b(&self) -> (v: u8)
        ensures
            v == self.blue(),
    {
        self.blue
    }

    pub fn a(&self) -> (v: u8)
        ensures
            v == self.alpha(),
    {
        self.alpha
    }

    /// The grey level of this color.
    pub fn grey(&self) -> (v: u8)
        ensures
            v == grey_of(self.red(), self.green(), self.blue()),
    {
        let sum: u16 = self.red as u16 + self.green as u16 + self.blue as u16 + 1;
        (sum / 3) as u8
    }
}

/// The value that channel `k` of a pixel of an image with `channels`
/// channels takes when the image is filled with `c`: grey (and alpha) for
/// one- and two-channel images, red, green, blue (and alpha) otherwise.
pub open spec fn fill_channel(c: Color, channels: int, k: int) -> int {
    if channels <= 2 {
        if k == 0 {
            grey_of(c.red(), c.green(), c.blue())
        } else {
            c.alpha() as int
        }
    } else if k == 0 {
        c.red() as int
    } else if k == 1 {
        c.green() as int
    } else if k == 2 {
        c.blue() as int
    } else {
        c.alpha() as int
    }
}

/// Filling an image with a color writes, in every pixel, red, green, blue
/// and alpha in that order for four channels, the same without alpha for
/// three, and grey (then alpha) for one or two; the grey of a color whose
/// red, green and blue agree is that common value, and grey lies between the
/// least and the greatest of the three.
pub proof fn lemma_fill_channels(c: Color, v: u8)
    ensures
        fill_channel(c, 4, 0) == c.red(),
        fill_channel(c, 4, 1) == c.green(),
        fill_channel(c, 4, 2) == c.blue(),
        fill_channel(c, 4, 3) == c.alpha(),
        fill_channel(c, 3, 2) == c.blue(),
        fill_channel(c, 2, 1) == c.alpha(),
        fill_channel(c, 1, 0) == grey_of(c.red(), c.green(), c.blue()),
        grey_of(v, v, v) == v,
        grey_of(c.red(), c.green(), c.blue()) <= c.red() || grey_of(c.red(), c.green(), c.blue())
            <= c.green() || grey_of(c.red(), c.green(), c.blue()) <= c.blue(),
        grey_of(c.red(), c.green(), c.blue()) >= c.red() || grey_of(c.red(), c.green(), c.blue())
            >= c.green() || grey_of(c.red(), c.green(), c.blue()) >= c.blue(),
{
}

/// A raster image of `width * height` pixels with 1 to 4 channels of one
/// byte each, stored row by row.
pub struct Image {
    width: u32,
    height: u32,
    channels: u8,
    data: Vec<u8>,
}

impl Image {
    #[verifier::type_invariant]
    spec fn inv(self) -> bool {
        &&& 1 <= self.channels <= 4
        &&& self.data@.len() == self.width * self.height * self.channels
    }

    pub closed spec fn width_view(&self) -> u32 {
        self.width
    }

    pub closed spec fn height_view(&self) -> u32 {
        self.height
    }

    pub closed spec fn channels_view(&self) -> u8 {
        self.channels
    }

    /// The channel bytes, pixel after pixel.
    pub closed spec fn bytes(&self) -> Seq<u8> {
        self.data@
    }

    /// An image of the given size with all channel bytes 0.
    pub fn new(width: u32, height: u32, channel_count: u8) -> (img: Image)
        requires
            1 <= channel_count <= 4,
            width * height * channel_count <= usize::MAX,
        ensures
            img.width_view() == width,
            img.height_view() == height,
            img.channels_view() == channel_count,
            img.bytes().len() == width * height * channel_count,
            forall|i: int| 0 <= i < img.bytes().len() ==> #[trigger] img.bytes()[i] == 0,
    {
        proof {
            assert(0 <= width * height <= width * height * channel_count) by (nonlinear_arith)
                requires
                    1 <= channel_count,
            ;
        }
        let n: usize = (width as usize) * (height as usize) * (channel_count as usize);
        let mut data: Vec<u8> = Vec::new();
        let mut i: usize = 0;
        while i < n
            invariant
                0 <= i <= n,
                data@.len() == i,
                forall|j: int| 0 <= j < i ==> #[trigger] data@[j] == 0,
            decreases n - i,
        {
            data.push(0);
            i = i + 1;
        }
        Image { width, height, channels: channel_count, data }
    }

    pub fn width(&self) -> (w: u32)
        ensures
            w == self.width_view(),
    {
        self.width
    }

    pub fn height(&self) -> (h: u32)
        ensures
            h == self.height_view(),
    {
        self.height
    }

    pub fn channel_count(&self) -> (c: u8)
        ensures
            c == self.channels_view(),
    {
        self.channels
    }

    /// The channel bytes, pixel after pixel, row after row.
    pub fn data(&self) -> (d: &Vec<u8>)
        ensures
            d@ == self.bytes(),
    {
        &self.data
    }

    /// Whether the image has no pixel.
    pub fn is_empty(&self) -> (e: bool)
        ensures
            e == (self.width_view() == 0 || self.height_view() == 0),
    {
        proof {
            use_type_invariant(self);
        }
        self.width == 0 || self.height == 0
    }

    /// Set every pixel to `color`.
    pub fn fill(&mut self, color: Color)
        ensures
            final(self).width_view() == old(self).width_view(),
            final(self).height_view() == old(self).height_view(),
            final(self).channels_view() == old(self).channels_view(),
            final(self).bytes().len() == old(self).bytes().len(),
            forall|i: int|
                0 <= i < final(self).bytes().len() ==> #[trigger] final(self).bytes()[i]
                    == fill_channel(color, old(self).channels_view() as int, i % (old(self).channels_view() as int)),
    {
        proof {
            use_type_invariant(&*self);
        }
        let c = self.channels;
        let grey = color.grey();
        let mut t = Image { width: 0, height: 0, channels: 1, data: Vec::new() };
        std::mem::swap(&mut t, self);
        let Image { width, height, channels, mut data } = t;
        let n = data.len();
        let mut i: usize = 0;
        let mut k: u8 = 0;
        while i < n
            invariant
                n == data@.len(),
                1 <= c <= 4,
                0 <= i <= n,
                0 <= k < c,
                k == (i as int) % (c as int),
                grey == grey_of(color.red(), color.green(), color.blue()),
                forall|j: int|
                    0 <= j < i ==> #[trigger] data@[j] == fill_channel(
                        color,
                        c as int,
                        j % (c as int),
                    ),
            decreases n - i,
        {
            let v: u8 = if c <= 2 {
                if k == 0 {
                    grey
                } else {
                    color.alpha
                }
            } else if k == 0 {
                color.red
            } else if k == 1 {
                color.green
            } else if k == 2 {
                color.blue
            } else {
                color.alpha
            };
            data.set(i, v);
            proof {
                assert((i + 1) as int % (c as int) == if k + 1 == c {
                    0
                } else {
                    k + 1
                }) by (nonlinear_arith)
                    requires
                        k == (i as int) % (c as int),
                        0 <= k < c,
                        1 <= c,
                ;
            }
            k = if k + 1 == c {
                0
            } else {
                k + 1
            };
            i = i + 1;
        }
        *self = Image { width, height, channels, data };
    }
}

} // verus!
