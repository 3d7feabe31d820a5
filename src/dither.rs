use crate::palette::{nearest, OctColorMap};
use crate::raster::RgbRaster;
use embedded_graphics::prelude::Point;
use epd_waveshare::color::OctColor;
use vstd::arithmetic::div_mod::lemma_fundamental_div_mod_converse;
use vstd::prelude::*;

verus! {

/// What Floyd–Steinberg error diffusion through `palette` makes of a raster of the given width.
pub uninterp spec fn dithered_of(
    pixels: Seq<image::Rgb<u8>>,
    width: nat,
    palette: Seq<(OctColor, image::Rgb<u8>)>,
) -> Seq<image::Rgb<u8>>;

/// Relies on image::imageops::colorops::dither: it visits every pixel once in raster order,
/// replaces it through the palette's `map_color` and diffuses the error only to pixels not yet
/// visited, so every pixel of the result is a palette colour.
#[verifier::external_body]
fn dither_pixels(pixels: &Vec<image::Rgb<u8>>, width: u32, height: u32, map: &OctColorMap) -> (r: Vec<
    image::Rgb<u8>,
>)
    requires
        width >= 2,
        height >= 2,
        pixels.len() == width as int * height as int,
        map.colors.len() > 0,
    ensures
        r@ == dithered_of(pixels@, width as nat, map.colors@),
        r.len() == pixels.len(),
        forall|i: int| 0 <= i < r.len() ==> in_palette(map.colors@, #[trigger] r@[i]),
{
    let raw: Vec<u8> = pixels.iter().flat_map(|p| p.0).collect();
    let mut buf = image::RgbImage::from_raw(width, height, raw).unwrap();
    image::imageops::colorops::dither(&mut buf, map);
    buf.pixels().copied().collect()
}

/// `c` is the colour of some entry of the palette.
pub open spec fn in_palette(colors: Seq<(OctColor, image::Rgb<u8>)>, c: image::Rgb<u8>) -> bool {
    exists|j: int| 0 <= j < colors.len() && c == colors[j].1
}

/// Dithering is deterministic: the same pixels, width and palette give the same result.
pub proof fn lemma_dithering_deterministic(a: RgbRaster, b: RgbRaster, pa: OctColorMap, pb: OctColorMap)
    requires
        a.pixels@ == b.pixels@,
        a.width == b.width,
        pa.colors@ == pb.colors@,
    ensures
        dithered_of(a.pixels@, a.width as nat, pa.colors@) == dithered_of(b.pixels@, b.width as nat, pb.colors@),
{
}

/// A raster reduced to a palette by error diffusion, placed at a point of the panel.
pub struct OctDither {
    pub buffer: RgbRaster,
    pub map: OctColorMap,
    pub top_left: Point,
}

/// The position of the `i`-th pixel of a row-major raster of the given width placed at `tl`.
pub open spec fn pixel_point(tl: Point, width: int, i: int) -> Point {
    Point { x: (tl.x + i % width) as i32, y: (tl.y + i / width) as i32 }
}

/// The tag of the palette entry nearest to `c`.
pub open spec fn tag_for(colors: Seq<(OctColor, image::Rgb<u8>)>, c: image::Rgb<u8>) -> OctColor {
    colors[nearest(colors, c)].0
}

impl OctDither {
    pub open spec fn wf(&self) -> bool {
        &&& self.buffer.wf()
        &&& self.map.colors.len() > 0
    }

    /// Dithers `img` through `map`, to be drawn with its top-left corner at `pt`.
    pub fn new(img: RgbRaster, map: OctColorMap, pt: Point) -> (r: OctDither)
        requires
            img.wf(),
            img.width >= 2,
            img.height >= 2,
            map.colors.len() > 0,
        ensures
            r.wf(),
            r.buffer.width == img.width,
            r.buffer.height == img.height,
            r.buffer.pixels@ == dithered_of(img.pixels@, img.width as nat, map.colors@),
            r.map == map,
            r.top_left == pt,
            forall|i: int|
                0 <= i < r.buffer.pixels.len() ==> in_palette(map.colors@, #[trigger] r.buffer.pixels@[i]),
    {
        let pixels = dither_pixels(&img.pixels, img.width, img.height, &map);
        OctDither {
            buffer: RgbRaster { width: img.width, height: img.height, pixels },
            map,
            top_left: pt,
        }
    }

    /// Dithers `img` through the panel's default palette.
    pub fn new_default(img: RgbRaster, pt: Point) -> (r: OctDither)
        requires
            img.wf(),
            img.width >= 2,
            img.height >= 2,
        ensures
            r.wf(),
            r.buffer.width == img.width,
            r.buffer.height == img.height,
            r.map.colors@ == crate::palette::default_palette(),
            r.buffer.pixels@ == dithered_of(img.pixels@, img.width as nat, crate::palette::default_palette()),
            r.top_left == pt,
    {
        Self::new(img, OctColorMap::default_map(), pt)
    }

    /// The dithered raster as the panel will show it: each pixel in the colour of its tag.
    pub fn output(&self) -> (r: RgbRaster)
        requires
            self.wf(),
        ensures
            r.wf(),
            r.width == self.buffer.width,
            r.height == self.buffer.height,
            forall|i: int|
                0 <= i < r.pixels.len() ==> {
                    let t = crate::palette::tag_rgb(tag_for(self.map.colors@, self.buffer.pixels@[i]));
                    #[trigger] r.pixels@[i] == image::Rgb([t.0, t.1, t.2])
                },
    {
        let mut pixels: Vec<image::Rgb<u8>> = Vec::new();
        let mut i: usize = 0;
        while i < self.buffer.pixels.len()
            invariant
                self.wf(),
                i <= self.buffer.pixels.len(),
                pixels.len() == i,
                forall|k: int|
                    0 <= k < i ==> {
                        let t = crate::palette::tag_rgb(tag_for(self.map.colors@, self.buffer.pixels@[k]));
                        #[trigger] pixels@[k] == image::Rgb([t.0, t.1, t.2])
                    },
            decreases self.buffer.pixels.len() - i,
        {
            let idx = self.map.index_of(&self.buffer.pixels[i]);
            let rgb = self.map.colors[idx].0.rgb();
            pixels.push(image::Rgb([rgb.0, rgb.1, rgb.2]));
            i = i + 1;
        }
        RgbRaster { width: self.buffer.width, height: self.buffer.height, pixels }
    }

    /// The tagged pixels, in raster order, each at its place on the panel.
    pub fn iter(&self) -> (r: DitherIter)
        requires
            self.wf(),
            self.buffer.width <= i32::MAX,
            self.buffer.height <= i32::MAX,
            self.top_left.x + self.buffer.width <= i32::MAX,
            self.top_left.y + self.buffer.height <= i32::MAX,
        ensures
            r.pos == 0,
            r.items.len() == self.buffer.pixels.len(),
            forall|i: int|
                0 <= i < r.items.len() ==> #[trigger] r.items@[i] == (
                    pixel_point(self.top_left, self.buffer.width as int, i),
                    tag_for(self.map.colors@, self.buffer.pixels@[i]),
                ),
    {
        let w = self.buffer.width;
        let mut items: Vec<(Point, OctColor)> = Vec::new();
        let mut i: usize = 0;
        let mut x: u32 = 0;
        let mut y: u32 = 0;
        proof {
            if self.buffer.pixels.len() > 0 {
                assert(0 < self.buffer.height && 0 < w) by (nonlinear_arith)
                    requires
                        self.buffer.pixels.len() == w as int * self.buffer.height as int,
                        self.buffer.pixels.len() > 0,
                ;
            }
        }
        while i < self.buffer.pixels.len()
            invariant
                self.wf(),
                w <= i32::MAX,
                self.buffer.height <= i32::MAX,
                self.top_left.x + w <= i32::MAX,
                self.top_left.y + self.buffer.height <= i32::MAX,
                w == self.buffer.width,
                i <= self.buffer.pixels.len(),
                items.len() == i,
                x < w || self.buffer.pixels.len() == 0,
                i == y as int * w as int + x,
                i < self.buffer.pixels.len() ==> y < self.buffer.height,
                forall|k: int|
                    0 <= k < i ==> #[trigger] items@[k] == (
                        pixel_point(self.top_left, w as int, k),
                        tag_for(self.map.colors@, self.buffer.pixels@[k]),
                    ),
            decreases self.buffer.pixels.len() - i,
        {
            proof {
                lemma_fundamental_div_mod_converse(i as int, w as int, y as int, x as int);
            }
            let idx = self.map.index_of(&self.buffer.pixels[i]);
            let p = Point { x: self.top_left.x + x as i32, y: self.top_left.y + y as i32 };
            items.push((p, self.map.colors[idx].0));
            i = i + 1;
            if x + 1 == w {
                proof {
                    assert(i == (y + 1) as int * w as int) by (nonlinear_arith)
                        requires
                            i == y as int * w as int + x + 1,
                            x + 1 == w,
                    ;
                }
                x = 0;
                y = y + 1;
            } else {
                x = x + 1;
            }
            proof {
                if i < self.buffer.pixels.len() {
                    assert(y < self.buffer.height) by (nonlinear_arith)
                        requires
                            i == y as int * w as int + x,
                            i < self.buffer.width as int * self.buffer.height as int,
                            w == self.buffer.width,
                    ;
                }
            }
        }
        DitherIter { items, pos: 0 }
    }
}

/// The tagged pixels of a dithered raster, handed out one at a time.
pub struct DitherIter {
    pub items: Vec<(Point, OctColor)>,
    pub pos: usize,
}

impl DitherIter {
    /// The next tagged pixel, or `None` once all were handed out.
    pub fn next(&mut self) -> (r: Option<(Point, OctColor)>)
        ensures
            final(self).items == old(self).items,
            old(self).pos < old(self).items.len() ==> r == Some(old(self).items@[old(self).pos as int])
                && final(self).pos == old(self).pos + 1,
            old(self).pos >= old(self).items.len() ==> r.is_none() && final(self).pos == old(self).pos,
    {
        if self.pos < self.items.len() {
            let item = self.items[self.pos];
            self.pos = self.pos + 1;
            Some(item)
        } else {
            None
        }
    }
}

} // verus!
