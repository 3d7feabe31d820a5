use crate::raster::RgbaRaster;
use vstd::prelude::*;

verus! {

/// The transparent black pixel that masked pixels become.
pub open spec fn clear_pixel() -> image::Rgba<u8> {
    image::Rgba([0u8, 0u8, 0u8, 0u8])
}

/// sRGB luma of a pixel, in integer arithmetic; alpha plays no part.
pub open spec fn luma(p: image::Rgba<u8>) -> u8 {
    ((2126 * p.0[0] + 7152 * p.0[1] + 722 * p.0[2]) / 10000) as u8
}

/// The luma of each pixel.
pub open spec fn luma_plane(s: Seq<image::Rgba<u8>>) -> Seq<u8> {
    Seq::new(s.len(), |k: int| luma(s[k]))
}

/// Sum of `l[y * w + x]` for `x0 <= x <= x1`.
pub open spec fn row_sum(l: Seq<u8>, w: int, y: int, x0: int, x1: int) -> int
    decreases x1 - x0 + 1,
{
    if x1 < x0 {
        0
    } else {
        l[y * w + x1] + row_sum(l, w, y, x0, x1 - 1)
    }
}

/// Sum of `l[y * w + x]` over the block `x0 <= x <= x1`, `y0 <= y <= y1`.
pub open spec fn block_sum(l: Seq<u8>, w: int, x0: int, x1: int, y0: int, y1: int) -> int
    decreases y1 - y0 + 1,
{
    if y1 < y0 {
        0
    } else {
        row_sum(l, w, y1, x0, x1) + block_sum(l, w, x0, x1, y0, y1 - 1)
    }
}

pub open spec fn imax(a: int, b: int) -> int {
    if a >= b {
        a
    } else {
        b
    }
}

pub open spec fn imin(a: int, b: int) -> int {
    if a <= b {
        a
    } else {
        b
    }
}

/// Local-window binarization: 255 where the pixel is at least the integer mean of the
/// (2r+1)-square block around it, clipped to the image, else 0.
pub open spec fn threshold_at(l: Seq<u8>, w: int, h: int, r: int, x: int, y: int) -> u8 {
    let x0 = imax(0, x - r);
    let x1 = imin(w - 1, x + r);
    let y0 = imax(0, y - r);
    let y1 = imin(h - 1, y + r);
    let count = (x1 - x0 + 1) * (y1 - y0 + 1);
    if l[y * w + x] >= block_sum(l, w, x0, x1, y0, y1) / count {
        255
    } else {
        0
    }
}

/// Relies on imageproc::contrast::adaptive_threshold, whose documentation states the rule
/// of `threshold_at`; it asserts a positive radius, and takes block sums from a `u32`
/// integral image by adding two of its entries before subtracting two.
#[verifier::external_body]
fn adaptive_threshold(l: &Vec<u8>, width: u32, height: u32, radius: u32) -> (r: Vec<u8>)
    requires
        l.len() == width as int * height as int,
        0 < radius <= i32::MAX,
        width <= i32::MAX,
        height <= i32::MAX,
        l.len() * 510 <= u32::MAX,
    ensures
        r.len() == l.len(),
        forall|x: int, y: int|
            0 <= x < width && 0 <= y < height ==> #[trigger] r@[y * width + x] == threshold_at(
                l@,
                width as int,
                height as int,
                radius as int,
                x,
                y,
            ),
{
    let img = image::GrayImage::from_raw(width, height, l.clone()).unwrap();
    imageproc::contrast::adaptive_threshold(&img, radius).into_raw()
}

fn luma_of(p: image::Rgba<u8>) -> (r: u8)
    ensures
        r == luma(p),
{
    let v: u32 = (2126 * p.0[0] as u32 + 7152 * p.0[1] as u32 + 722 * p.0[2] as u32) / 10000;
    v as u8
}

/// The luma plane of a raster.
pub fn to_luma(img: &RgbaRaster) -> (r: Vec<u8>)
    ensures
        r.len() == img.pixels.len(),
        forall|i: int| 0 <= i < r.len() ==> #[trigger] r@[i] == luma(img.pixels@[i]),
{
    let mut out: Vec<u8> = Vec::new();
    let mut i: usize = 0;
    while i < img.pixels.len()
        invariant
            i <= img.pixels.len(),
            out.len() == i,
            forall|k: int| 0 <= k < i ==> #[trigger] out@[k] == luma(img.pixels@[k]),
        decreases img.pixels.len() - i,
    {
        out.push(luma_of(img.pixels[i]));
        i = i + 1;
    }
    out
}

/// What masking makes of `t` given the source pixel `m`: cleared where `m` is transparent.
pub open spec fn masked(t: image::Rgba<u8>, m: image::Rgba<u8>) -> image::Rgba<u8> {
    if m.0[3] == 0 {
        clear_pixel()
    } else {
        t
    }
}

/// Clears every pixel of `target` whose counterpart in `mask` is fully transparent; pixels
/// past the shorter of the two are left alone.
pub fn mask(target: &mut RgbaRaster, mask: &RgbaRaster)
    ensures
        final(target).width == old(target).width,
        final(target).height == old(target).height,
        final(target).pixels.len() == old(target).pixels.len(),
        forall|i: int|
            0 <= i < old(target).pixels.len() ==> #[trigger] final(target).pixels@[i] == if i
                < mask.pixels.len() {
                masked(old(target).pixels@[i], mask.pixels@[i])
            } else {
                old(target).pixels@[i]
            },
{
    let mut i: usize = 0;
    while i < target.pixels.len() && i < mask.pixels.len()
        invariant
            i <= target.pixels.len(),
            i <= mask.pixels.len(),
            target.width == old(target).width,
            target.height == old(target).height,
            target.pixels.len() == old(target).pixels.len(),
            forall|k: int|
                0 <= k < old(target).pixels.len() ==> #[trigger] target.pixels@[k] == if k < i {
                    masked(old(target).pixels@[k], mask.pixels@[k])
                } else {
                    old(target).pixels@[k]
                },
        decreases target.pixels.len() - i,
    {
        if mask.pixels[i].0[3] == 0 {
            target.pixels.set(i, image::Rgba([0, 0, 0, 0]));
        }
        i = i + 1;
    }
}

/// The colour a binary map gives a pixel: a set pixel (an edge, or one passing the
/// threshold) takes `bg`, an unset one `fg`.
pub open spec fn binary_color(v: u8, fg: image::Rgba<u8>, bg: image::Rgba<u8>) -> image::Rgba<u8> {
    if v != 0 {
        bg
    } else {
        fg
    }
}

fn colorize(bin: &Vec<u8>, fg: image::Rgba<u8>, bg: image::Rgba<u8>) -> (r: Vec<image::Rgba<u8>>)
    ensures
        r.len() == bin.len(),
        forall|i: int| 0 <= i < r.len() ==> #[trigger] r@[i] == binary_color(bin@[i], fg, bg),
{
    let mut out: Vec<image::Rgba<u8>> = Vec::new();
    let mut i: usize = 0;
    while i < bin.len()
        invariant
            i <= bin.len(),
            out.len() == i,
            forall|k: int| 0 <= k < i ==> #[trigger] out@[k] == binary_color(bin@[k], fg, bg),
        decreases bin.len() - i,
    {
        if bin[i] != 0 {
            out.push(bg);
        } else {
            out.push(fg);
        }
        i = i + 1;
    }
    out
}

/// The pixel an edge map lays over the layer: `fg` at full opacity on an edge, clear elsewhere.
pub open spec fn edge_overlay_pixel(v: u8, fg: image::Rgba<u8>) -> image::Rgba<u8> {
    if v != 0 {
        image::Rgba([fg.0[0], fg.0[1], fg.0[2], 255u8])
    } else {
        clear_pixel()
    }
}

/// Relies on image::imageops::overlay at offset (0, 0) on rasters of one size: each bottom
/// pixel is blended with the top one, and Rgba::blend keeps the bottom pixel under a
/// transparent top pixel and takes a fully opaque top pixel as it is.
#[verifier::external_body]
fn overlay_opaque_or_clear(bottom: &mut RgbaRaster, top: &RgbaRaster)
    requires
        old(bottom).wf(),
        top.wf(),
        top.width == old(bottom).width,
        top.height == old(bottom).height,
        forall|i: int| 0 <= i < top.pixels.len() ==> #[trigger] top.pixels@[i].0[3] == 0 || top.pixels@[i].0[3] == 255,
    ensures
        final(bottom).width == old(bottom).width,
        final(bottom).height == old(bottom).height,
        final(bottom).pixels.len() == old(bottom).pixels.len(),
        forall|i: int|
            0 <= i < top.pixels.len() ==> #[trigger] final(bottom).pixels@[i] == if top.pixels@[i].0[3] == 0 {
                old(bottom).pixels@[i]
            } else {
                top.pixels@[i]
            },
{
    let raw = |r: &RgbaRaster| r.pixels.iter().flat_map(|p| p.0).collect::<Vec<u8>>();
    let mut b = image::RgbaImage::from_raw(bottom.width, bottom.height, raw(bottom)).unwrap();
    let t = image::RgbaImage::from_raw(top.width, top.height, raw(top)).unwrap();
    image::imageops::overlay(&mut b, &t, 0, 0);
    bottom.pixels = b.pixels().copied().collect();
}

/// Kinds of layer filter, in the order of the selection table.
#[derive(Clone, Copy, Debug, PartialEq, Eq, Structural)]
pub enum TransformKind {
    Edges,
    OverlayEdges,
    Noise,
    Threshold,
    Blur,
}

/// Relative selection weight of each kind: noise is five times as likely as each other kind.
pub open spec fn kind_weight(k: TransformKind) -> u32 {
    match k {
        TransformKind::Noise => 5,
        _ => 1,
    }
}

impl TransformKind {
    /// The selection weight of this kind.
    pub fn weight(self) -> (r: u32)
        ensures
            r == kind_weight(self),
    {
        match self {
            TransformKind::Noise => 5,
            _ => 1,
        }
    }

    /// The selection table, each kind with its weight, in table order.
    pub fn table() -> (r: Vec<(u32, TransformKind)>)
        ensures
            r@ == seq![
                (1u32, TransformKind::Edges),
                (1u32, TransformKind::OverlayEdges),
                (5u32, TransformKind::Noise),
                (1u32, TransformKind::Threshold),
                (1u32, TransformKind::Blur),
            ],
    {
        let kinds = vec![
            TransformKind::Edges,
            TransformKind::OverlayEdges,
            TransformKind::Noise,
            TransformKind::Threshold,
            TransformKind::Blur,
        ];
        let mut out: Vec<(u32, TransformKind)> = Vec::new();
        let mut i: usize = 0;
        while i < kinds.len()
            invariant
                i <= kinds.len(),
                kinds@ == seq![
                    TransformKind::Edges,
                    TransformKind::OverlayEdges,
                    TransformKind::Noise,
                    TransformKind::Threshold,
                    TransformKind::Blur,
                ],
                out.len() == i,
                forall|k: int| 0 <= k < i ==> #[trigger] out@[k] == (kind_weight(kinds@[k]), kinds@[k]),
            decreases kinds.len() - i,
        {
            out.push((kinds[i].weight(), kinds[i]));
            i = i + 1;
        }
        assert(out@ =~= seq![
            (1u32, TransformKind::Edges),
            (1u32, TransformKind::OverlayEdges),
            (5u32, TransformKind::Noise),
            (1u32, TransformKind::Threshold),
            (1u32, TransformKind::Blur),
        ]);
        out
    }
}

/// A layer raster that filters transform in place.
pub struct Transformable {
    pub image: RgbaRaster,
}

impl Transformable {
    pub fn new(image: RgbaRaster) -> (r: Transformable)
        ensures
            r.image == image,
    {
        Transformable { image }
    }

    pub fn into_inner(self) -> (r: RgbaRaster)
        ensures
            r == self.image,
    {
        self.image
    }

    /// Edge detection: given the detector's binary map of this layer's luma, paints edges
    /// `bg` and the rest `fg`, then clears what was transparent in the layer.
    pub fn edges(&mut self, edge_map: &Vec<u8>, fg: image::Rgba<u8>, bg: image::Rgba<u8>)
        requires
            edge_map.len() == old(self).image.pixels.len(),
        ensures
            final(self).image.width == old(self).image.width,
            final(self).image.height == old(self).image.height,
            final(self).image.pixels.len() == old(self).image.pixels.len(),
            forall|i: int|
                0 <= i < old(self).image.pixels.len() ==> #[trigger] final(self).image.pixels@[i]
                    == masked(binary_color(edge_map@[i], fg, bg), old(self).image.pixels@[i]),
            forall|i: int|
                0 <= i < old(self).image.pixels.len() && #[trigger] old(self).image.pixels@[i].0[3] == 0
                    ==> final(self).image.pixels@[i].0[3] == 0,
    {
        let colored = colorize(edge_map, fg, bg);
        self.paint_masked(colored);
    }

    /// Replaces the pixels by `colored` and clears those that were transparent before.
    fn paint_masked(&mut self, colored: Vec<image::Rgba<u8>>)
        requires
            colored.len() == old(self).image.pixels.len(),
        ensures
            final(self).image.width == old(self).image.width,
            final(self).image.height == old(self).image.height,
            final(self).image.pixels.len() == old(self).image.pixels.len(),
            forall|i: int|
                0 <= i < old(self).image.pixels.len() ==> #[trigger] final(self).image.pixels@[i]
                    == masked(colored@[i], old(self).image.pixels@[i]),
            forall|i: int|
                0 <= i < old(self).image.pixels.len() && #[trigger] old(self).image.pixels@[i].0[3] == 0
                    ==> final(self).image.pixels@[i].0[3] == 0,
    {
        let mut out = RgbaRaster { width: self.image.width, height: self.image.height, pixels: colored };
        mask(&mut out, &self.image);
        self.image = out;
    }

    /// Edge overlay: lays `fg`, fully opaque, over the edges of the detector's binary map and
    /// keeps the layer as it was elsewhere.
    pub fn overlay_edges(&mut self, edge_map: &Vec<u8>, fg: image::Rgba<u8>)
        requires
            old(self).image.wf(),
            edge_map.len() == old(self).image.pixels.len(),
        ensures
            final(self).image.wf(),
            final(self).image.width == old(self).image.width,
            final(self).image.height == old(self).image.height,
            forall|i: int|
                0 <= i < old(self).image.pixels.len() ==> #[trigger] final(self).image.pixels@[i]
                    == if edge_map@[i] != 0 {
                    edge_overlay_pixel(edge_map@[i], fg)
                } else {
                    old(self).image.pixels@[i]
                },
    {
        let mut top: Vec<image::Rgba<u8>> = Vec::new();
        let mut i: usize = 0;
        while i < edge_map.len()
            invariant
                i <= edge_map.len(),
                top.len() == i,
                forall|k: int| 0 <= k < i ==> #[trigger] top@[k] == edge_overlay_pixel(edge_map@[k], fg),
            decreases edge_map.len() - i,
        {
            if edge_map[i] != 0 {
                top.push(image::Rgba([fg.0[0], fg.0[1], fg.0[2], 255]));
            } else {
                top.push(image::Rgba([0, 0, 0, 0]));
            }
            i = i + 1;
        }
        let layer = RgbaRaster { width: self.image.width, height: self.image.height, pixels: top };
        overlay_opaque_or_clear(&mut self.image, &layer);
    }

    /// Noise: takes the noisy version of this layer and clears what was transparent before.
    pub fn noise(&mut self, noisy: Vec<image::Rgba<u8>>)
        requires
            noisy.len() == old(self).image.pixels.len(),
        ensures
            final(self).image.width == old(self).image.width,
            final(self).image.height == old(self).image.height,
            final(self).image.pixels.len() == old(self).image.pixels.len(),
            forall|i: int|
                0 <= i < old(self).image.pixels.len() ==> #[trigger] final(self).image.pixels@[i]
                    == masked(noisy@[i], old(self).image.pixels@[i]),
            forall|i: int|
                0 <= i < old(self).image.pixels.len() && #[trigger] old(self).image.pixels@[i].0[3] == 0
                    ==> final(self).image.pixels@[i].0[3] == 0,
    {
        self.paint_masked(noisy);
    }

    /// Adaptive threshold of the layer's luma over blocks of the given radius, painted as
    /// edge detection paints, then masked.
    pub fn threshold(&mut self, radius: u32, fg: image::Rgba<u8>, bg: image::Rgba<u8>)
        requires
            old(self).image.wf(),
            0 < radius <= i32::MAX,
            old(self).image.width <= i32::MAX,
            old(self).image.height <= i32::MAX,
            old(self).image.pixels.len() * 510 <= u32::MAX,
        ensures
            final(self).image.width == old(self).image.width,
            final(self).image.height == old(self).image.height,
            final(self).image.pixels.len() == old(self).image.pixels.len(),
            forall|x: int, y: int|
                0 <= x < old(self).image.width && 0 <= y < old(self).image.height ==> #[trigger] final(self).image.pixels@[y * old(self).image.width + x] == masked(
                    binary_color(
                        threshold_at(
                            luma_plane(old(self).image.pixels@),
                            old(self).image.width as int,
                            old(self).image.height as int,
                            radius as int,
                            x,
                            y,
                        ),
                        fg,
                        bg,
                    ),
                    old(self).image.pixels@[y * old(self).image.width + x],
                ),
            forall|i: int|
                0 <= i < old(self).image.pixels.len() && #[trigger] old(self).image.pixels@[i].0[3] == 0
                    ==> final(self).image.pixels@[i].0[3] == 0,
    {
        let ghost ow = self.image.width as int;
        let ghost oh = self.image.height as int;
        let ghost on = self.image.pixels.len() as int;
        let l = to_luma(&self.image);
        assert(l@ =~= luma_plane(self.image.pixels@));
        let bin = adaptive_threshold(&l, self.image.width, self.image.height, radius);
        let colored = colorize(&bin, fg, bg);
        self.paint_masked(colored);
        assert forall|x: int, y: int|
            0 <= x < old(self).image.width && 0 <= y < old(self).image.height implies
            #[trigger] self.image.pixels@[y * old(self).image.width + x] == masked(
                binary_color(
                    threshold_at(l@, old(self).image.width as int, old(self).image.height as int, radius as int, x, y),
                    fg,
                    bg,
                ),
                old(self).image.pixels@[y * old(self).image.width + x],
            ) by {
            let i = y * old(self).image.width + x;
            assert(0 <= i < on) by (nonlinear_arith)
                requires
                    0 <= x < ow,
                    0 <= y < oh,
                    i == y * ow + x,
                    on == ow * oh,
            ;
            assert(bin@[i] == threshold_at(l@, old(self).image.width as int, old(self).image.height as int, radius as int, x, y));
        }
    }

    /// Blur: takes the blurred version of this layer as it is; alpha is blurred with colour.
    pub fn blur(&mut self, blurred: Vec<image::Rgba<u8>>)
        requires
            blurred.len() == old(self).image.pixels.len(),
        ensures
            final(self).image.width == old(self).image.width,
            final(self).image.height == old(self).image.height,
            final(self).image.pixels@ == blurred@,
    {
        self.image.pixels = blurred;
    }
}

} // verus!
