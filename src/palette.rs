use epd_waveshare::color::OctColor;
use vstd::prelude::*;

verus! {

#[verifier::external_type_specification]
pub struct ExOctColor(OctColor);

#[verifier::external_type_specification]
#[verifier::reject_recursive_types(T)]
pub struct ExImageRgb<T>(image::Rgb<T>);

/// The colour that the panel driver assigns to each tag.
pub open spec fn tag_rgb(c: OctColor) -> (u8, u8, u8) {
    match c {
        OctColor::White => (0xff, 0xff, 0xff),
        OctColor::Black => (0x00, 0x00, 0x00),
        OctColor::Green => (0x00, 0xff, 0x00),
        OctColor::Blue => (0x00, 0x00, 0xff),
        OctColor::Red => (0xff, 0x00, 0x00),
        OctColor::Yellow => (0xff, 0xff, 0x00),
        OctColor::Orange => (0xff, 0x80, 0x00),
        OctColor::HiZ => (0x80, 0x80, 0x80),
    }
}

/// Relies on epd_waveshare's OctColor::rgb: a fixed table from tag to colour.
pub assume_specification[ OctColor::rgb ](c: OctColor) -> (r: (u8, u8, u8))
    ensures
        r == tag_rgb(c),
;

pub open spec fn abs_diff(a: u8, b: u8) -> int {
    if a >= b {
        a - b
    } else {
        b - a
    }
}

/// L1 distance between two colours, summed over the three channels.
pub open spec fn l1(a: image::Rgb<u8>, b: image::Rgb<u8>) -> int {
    abs_diff(a.0[0], b.0[0]) + abs_diff(a.0[1], b.0[1]) + abs_diff(a.0[2], b.0[2])
}

/// Index of the first entry among the first `n` whose colour is closest to `c`.
pub open spec fn nearest_upto(colors: Seq<(OctColor, image::Rgb<u8>)>, c: image::Rgb<u8>, n: nat) -> int
    decreases n,
{
    if n <= 1 {
        0
    } else {
        let k = nearest_upto(colors, c, (n - 1) as nat);
        if l1(colors[n - 1].1, c) < l1(colors[k].1, c) {
            n - 1
        } else {
            k
        }
    }
}

/// Index of the palette entry that the quantizer picks for `c`.
pub open spec fn nearest(colors: Seq<(OctColor, image::Rgb<u8>)>, c: image::Rgb<u8>) -> int {
    nearest_upto(colors, c, colors.len())
}

/// `i` is at least as close to `c` as every entry, and strictly closer than every earlier one.
pub open spec fn is_first_minimum(colors: Seq<(OctColor, image::Rgb<u8>)>, c: image::Rgb<u8>, i: int) -> bool {
    &&& 0 <= i < colors.len()
    &&& forall|j: int| 0 <= j < colors.len() ==> l1(colors[i].1, c) <= #[trigger] l1(colors[j].1, c)
    &&& forall|j: int| 0 <= j < i ==> l1(colors[i].1, c) < #[trigger] l1(colors[j].1, c)
}

proof fn lemma_nearest_upto(colors: Seq<(OctColor, image::Rgb<u8>)>, c: image::Rgb<u8>, n: nat)
    requires
        1 <= n <= colors.len(),
    ensures
        0 <= nearest_upto(colors, c, n) < n,
        forall|j: int|
            0 <= j < n ==> l1(colors[nearest_upto(colors, c, n)].1, c) <= #[trigger] l1(colors[j].1, c),
        forall|j: int|
            0 <= j < nearest_upto(colors, c, n) ==> l1(colors[nearest_upto(colors, c, n)].1, c)
                < #[trigger] l1(colors[j].1, c),
    decreases n,
{
    if n > 1 {
        lemma_nearest_upto(colors, c, (n - 1) as nat);
    }
}

/// Nearest-colour selection picks an entry whose L1 distance is no larger than any
/// other entry's, and on ties the entry that comes first in the palette.
pub proof fn lemma_nearest_is_first_minimum(colors: Seq<(OctColor, image::Rgb<u8>)>, c: image::Rgb<u8>)
    requires
        colors.len() > 0,
    ensures
        is_first_minimum(colors, c, nearest(colors, c)),
        forall|i: int| is_first_minimum(colors, c, i) ==> i == nearest(colors, c),
{
    lemma_nearest_upto(colors, c, colors.len());
    assert forall|i: int| is_first_minimum(colors, c, i) implies i == nearest(colors, c) by {
        let k = nearest(colors, c);
        if i < k {
            assert(l1(colors[k].1, c) < l1(colors[i].1, c));
        } else if i > k {
            assert(l1(colors[i].1, c) < l1(colors[k].1, c));
        }
    }
}

fn channel_diff(a: u8, b: u8) -> (r: u32)
    ensures
        r == abs_diff(a, b),
{
    if a >= b {
        (a - b) as u32
    } else {
        (b - a) as u32
    }
}

fn distance(a: &image::Rgb<u8>, b: &image::Rgb<u8>) -> (r: u32)
    ensures
        r == l1(*a, *b),
{
    channel_diff(a.0[0], b.0[0]) + channel_diff(a.0[1], b.0[1]) + channel_diff(a.0[2], b.0[2])
}

/// A palette: each entry pairs a panel tag with the colour it shows.
pub struct OctColorMap {
    pub colors: Vec<(OctColor, image::Rgb<u8>)>,
}

pub open spec fn palette_entry(c: OctColor) -> (OctColor, image::Rgb<u8>) {
    (c, image::Rgb([tag_rgb(c).0, tag_rgb(c).1, tag_rgb(c).2]))
}

/// The panel's eight tags in palette order; the high-impedance tag comes first.
pub open spec fn default_palette() -> Seq<(OctColor, image::Rgb<u8>)> {
    seq![
        palette_entry(OctColor::HiZ),
        palette_entry(OctColor::White),
        palette_entry(OctColor::Black),
        palette_entry(OctColor::Red),
        palette_entry(OctColor::Green),
        palette_entry(OctColor::Orange),
        palette_entry(OctColor::Blue),
        palette_entry(OctColor::Yellow),
    ]
}

fn entry(c: OctColor) -> (r: (OctColor, image::Rgb<u8>))
    ensures
        r == palette_entry(c),
{
    let rgb = c.rgb();
    (c, image::Rgb([rgb.0, rgb.1, rgb.2]))
}

impl OctColorMap {
    /// The palette of the seven-colour panel, with its sentinel entry first.
    pub fn default_map() -> (r: OctColorMap)
        ensures
            r.colors@ == default_palette(),
    {
        let mut colors: Vec<(OctColor, image::Rgb<u8>)> = Vec::new();
        colors.push(entry(OctColor::HiZ));
        colors.push(entry(OctColor::White));
        colors.push(entry(OctColor::Black));
        colors.push(entry(OctColor::Red));
        colors.push(entry(OctColor::Green));
        colors.push(entry(OctColor::Orange));
        colors.push(entry(OctColor::Blue));
        colors.push(entry(OctColor::Yellow));
        assert(colors@ =~= default_palette());
        OctColorMap { colors }
    }

    /// Index of the entry nearest to `color` in L1 distance; the first such entry on ties.
    pub fn index_of(&self, color: &image::Rgb<u8>) -> (r: usize)
        requires
            self.colors.len() > 0,
        ensures
            r == nearest(self.colors@, *color),
            is_first_minimum(self.colors@, *color, r as int),
    {
        let mut best: usize = 0;
        let mut best_dist: u32 = distance(&self.colors[0].1, color);
        let mut i: usize = 1;
        while i < self.colors.len()
            invariant
                1 <= i <= self.colors.len(),
                best == nearest_upto(self.colors@, *color, i as nat),
                best_dist == l1(self.colors@[best as int].1, *color),
            decreases self.colors.len() - i,
        {
            let d = distance(&self.colors[i].1, color);
            if d < best_dist {
                best = i;
                best_dist = d;
            }
            i = i + 1;
        }
        proof {
            lemma_nearest_is_first_minimum(self.colors@, *color);
        }
        best
    }

    /// Replaces `color` by the colour of its nearest palette entry.
    pub fn map_color(&self, color: &mut image::Rgb<u8>)
        requires
            self.colors.len() > 0,
        ensures
            0 <= nearest(self.colors@, *old(color)) < self.colors.len(),
            *final(color) == self.colors@[nearest(self.colors@, *old(color))].1,
    {
        let i = self.index_of(color);
        *color = self.colors[i].1;
    }
}

/// One vertical bar of the panel's colour test pattern.
pub struct Bar {
    pub x: i32,
    pub width: u32,
    pub color: OctColor,
}

/// The `k`-th bar of the test pattern for a panel `panel_width` pixels wide.
pub open spec fn bar_at(offset: int, panel_width: int, k: int) -> Bar {
    Bar {
        x: (k * (panel_width / 8)) as i32,
        width: (panel_width / 8) as u32,
        color: default_palette()[(offset + k) % 8].0,
    }
}

/// The test pattern: eight bars of equal width side by side from the left edge, in palette
/// order starting at entry `offset` and wrapping around.
pub fn bar_layout(offset: usize, panel_width: u32) -> (r: Vec<Bar>)
    requires
        8 <= panel_width <= i32::MAX,
    ensures
        r.len() == 8,
        forall|k: int| 0 <= k < 8 ==> #[trigger] r@[k] == bar_at(offset as int, panel_width as int, k),
{
    let palette = OctColorMap::default_map();
    let width: u32 = panel_width / 8;
    let mut r: Vec<Bar> = Vec::new();
    let mut k: usize = 0;
    while k < 8
        invariant
            palette.colors@ == default_palette(),
            width == panel_width / 8,
            8 <= panel_width <= i32::MAX,
            k <= 8,
            r.len() == k,
            forall|j: int| 0 <= j < k ==> #[trigger] r@[j] == bar_at(offset as int, panel_width as int, j),
        decreases 8 - k,
    {
        assert(k * width <= panel_width) by (nonlinear_arith)
            requires
                k < 8,
                width == panel_width / 8,
        ;
        let x = (k as u32 * width) as i32;
        let idx = (offset % 8 + k) % 8;
        assert(idx == (offset as int + k) % 8) by {
            vstd::arithmetic::div_mod::lemma_add_mod_noop(offset as int, k as int, 8);
            vstd::arithmetic::div_mod::lemma_mod_twice(k as int, 8);
            vstd::arithmetic::div_mod::lemma_small_mod(k as nat, 8);
        }
        r.push(Bar { x, width, color: palette.colors[idx].0 });
        k = k + 1;
    }
    r
}

impl image::imageops::colorops::ColorMap for OctColorMap {
    type Color = image::Rgb<u8>;

    fn index_of(&self, color: &image::Rgb<u8>) -> usize {
        if self.colors.len() == 0 {
            0
        } else {
            OctColorMap::index_of(self, color)
        }
    }

    fn map_color(&self, color: &mut image::Rgb<u8>) {
        if self.colors.len() > 0 {
            OctColorMap::map_color(self, color);
        }
    }
}

} // verus!
