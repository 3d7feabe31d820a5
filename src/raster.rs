use vstd::prelude::*;

verus! {

#[verifier::external_type_specification]
#[verifier::reject_recursive_types(T)]
pub struct ExImageRgba<T>(image::Rgba<T>);

#[verifier::external_type_specification]
pub struct ExPoint(embedded_graphics::prelude::Point);

/// A row-major RGBA raster.
pub struct RgbaRaster {
    pub width: u32,
    pub height: u32,
    pub pixels: Vec<image::Rgba<u8>>,
}

/// A row-major RGB raster.
pub struct RgbRaster {
    pub width: u32,
    pub height: u32,
    pub pixels: Vec<image::Rgb<u8>>,
}

impl RgbaRaster {
    pub open spec fn wf(&self) -> bool {
        self.pixels.len() == self.width as int * self.height as int
    }

    /// The same raster with the alpha channel dropped.
    pub fn to_rgb(&self) -> (r: RgbRaster)
        requires
            self.wf(),
        ensures
            r.wf(),
            r.width == self.width,
            r.height == self.height,
            forall|i: int|
                0 <= i < r.pixels.len() ==> #[trigger] r.pixels@[i] == image::Rgb(
                    [self.pixels@[i].0[0], self.pixels@[i].0[1], self.pixels@[i].0[2]],
                ),
    {
        let mut pixels: Vec<image::Rgb<u8>> = Vec::new();
        let mut i: usize = 0;
        while i < self.pixels.len()
            invariant
                i <= self.pixels.len(),
                pixels.len() == i,
                forall|k: int|
                    0 <= k < i ==> #[trigger] pixels@[k] == image::Rgb(
                        [self.pixels@[k].0[0], self.pixels@[k].0[1], self.pixels@[k].0[2]],
                    ),
            decreases self.pixels.len() - i,
        {
            let p = self.pixels[i];
            pixels.push(image::Rgb([p.0[0], p.0[1], p.0[2]]));
            i = i + 1;
        }
        RgbRaster { width: self.width, height: self.height, pixels }
    }
}

impl RgbRaster {
    pub open spec fn wf(&self) -> bool {
        self.pixels.len() == self.width as int * self.height as int
    }
}

} // verus!
