use embedded_graphics::prelude::Point;
use vstd::arithmetic::div_mod::lemma_fundamental_div_mod_converse;
use vstd::prelude::*;

verus! {

/// The modules of the QR code that encodes `data`, row by row, `true` for dark; `None`
/// when no QR code holds the data.
pub uninterp spec fn qr_modules_of(data: Seq<u8>) -> Option<Seq<bool>>;

/// Relies on qrcode::QrCode::new, which picks the smallest normal (not micro) version that
/// holds the data at medium error correction or fails, and on its accessors to_colors and
/// width: the modules row by row, and the side, 17 + 4 * version for a version from 1 to 40.
#[verifier::external_body]
fn encode(data: &[u8]) -> (r: Option<(Vec<bool>, usize)>)
    ensures
        r.is_some() == qr_modules_of(data@).is_some(),
        r matches Some((m, w)) ==> m@ == qr_modules_of(data@).unwrap() && m@.len() == w * w && 21
            <= w <= 177,
{
    qrcode::QrCode::new(data).ok().map(
        |q| (q.to_colors().iter().map(|c| *c == qrcode::Color::Dark).collect(), q.width()),
    )
}

/// Light modules drawn around the code on each side, as the renderer of a normal QR code does.
pub const QUIET_ZONE: usize = 4;

/// A QR code to be drawn as solid square blocks, `scale` pixels on a side, from `top_left`.
pub struct QrCode<C> {
    pub modules: Vec<bool>,
    pub width: usize,
    pub top_left: Point,
    pub scale: i32,
    pub fg_color: C,
    pub bg_color: C,
}

/// One solid block of the drawn code.
pub struct Block<C> {
    pub top_left: Point,
    pub size: u32,
    pub color: C,
}

impl<C: Copy> QrCode<C> {
    pub open spec fn wf(&self) -> bool {
        &&& 21 <= self.width <= 177
        &&& self.modules.len() == self.width * self.width
    }

    /// Modules per side, quiet zone included.
    pub open spec fn side(&self) -> int {
        self.width + 2 * QUIET_ZONE
    }

    /// The module at column `x`, row `y` of the drawn square, quiet zone included, is dark.
    pub open spec fn dark_at(&self, x: int, y: int) -> bool {
        &&& QUIET_ZONE <= x < self.width + QUIET_ZONE
        &&& QUIET_ZONE <= y < self.width + QUIET_ZONE
        &&& self.modules@[(y - QUIET_ZONE) * self.width + (x - QUIET_ZONE)]
    }

    /// The block drawn for column `x`, row `y`.
    pub open spec fn block_at(&self, x: int, y: int) -> Block<C> {
        Block {
            top_left: Point {
                x: (self.top_left.x + x * self.scale) as i32,
                y: (self.top_left.y + y * self.scale) as i32,
            },
            size: self.scale as u32,
            color: if self.dark_at(x, y) {
                self.fg_color
            } else {
                self.bg_color
            },
        }
    }

    /// Encodes `data`; `None` when it is too long for a QR code.
    pub fn new(top_left: Point, scale: i32, fg_color: C, bg_color: C, data: &[u8]) -> (r: Option<
        QrCode<C>,
    >)
        ensures
            r.is_some() == qr_modules_of(data@).is_some(),
            r matches Some(q) ==> {
                &&& q.wf()
                &&& q.modules@ == qr_modules_of(data@).unwrap()
                &&& q.top_left == top_left
                &&& q.scale == scale
                &&& q.fg_color == fg_color
                &&& q.bg_color == bg_color
            },
    {
        match encode(data) {
            Some((modules, width)) => Some(QrCode { modules, width, top_left, scale, fg_color, bg_color }),
            None => None,
        }
    }

    fn copy_modules(&self) -> (r: Vec<bool>)
        ensures
            r@ == self.modules@,
    {
        let mut r: Vec<bool> = Vec::new();
        let mut i: usize = 0;
        while i < self.modules.len()
            invariant
                i <= self.modules.len(),
                r@ == self.modules@.subrange(0, i as int),
            decreases self.modules.len() - i,
        {
            r.push(self.modules[i]);
            i = i + 1;
            assert(r@ =~= self.modules@.subrange(0, i as int));
        }
        assert(r@ =~= self.modules@);
        r
    }

    /// The same code moved by `by`.
    pub fn translate(&self, by: Point) -> (r: QrCode<C>)
        requires
            i32::MIN <= self.top_left.x + by.x <= i32::MAX,
            i32::MIN <= self.top_left.y + by.y <= i32::MAX,
        ensures
            r.modules@ == self.modules@,
            r.width == self.width,
            r.top_left == (Point { x: (self.top_left.x + by.x) as i32, y: (self.top_left.y + by.y) as i32 }),
            r.scale == self.scale,
            r.fg_color == self.fg_color,
            r.bg_color == self.bg_color,
    {
        QrCode {
            modules: self.copy_modules(),
            width: self.width,
            top_left: Point { x: self.top_left.x + by.x, y: self.top_left.y + by.y },
            scale: self.scale,
            fg_color: self.fg_color,
            bg_color: self.bg_color,
        }
    }

    /// Moves the code by `by`.
    pub fn translate_mut(&mut self, by: Point)
        requires
            i32::MIN <= old(self).top_left.x + by.x <= i32::MAX,
            i32::MIN <= old(self).top_left.y + by.y <= i32::MAX,
        ensures
            final(self).modules == old(self).modules,
            final(self).width == old(self).width,
            final(self).top_left == (Point {
                x: (old(self).top_left.x + by.x) as i32,
                y: (old(self).top_left.y + by.y) as i32,
            }),
            final(self).scale == old(self).scale,
            final(self).fg_color == old(self).fg_color,
            final(self).bg_color == old(self).bg_color,
    {
        self.top_left = Point { x: self.top_left.x + by.x, y: self.top_left.y + by.y };
    }

    /// The blocks that draw the code, quiet zone included, row by row: dark modules in the
    /// foreground colour, light ones in the background colour.
    pub fn draw(&self) -> (r: Vec<Block<C>>)
        requires
            self.wf(),
            self.scale >= 0,
            self.side() * self.scale <= i32::MAX,
            self.top_left.x + self.side() * self.scale <= i32::MAX,
            self.top_left.y + self.side() * self.scale <= i32::MAX,
        ensures
            r.len() == self.side() * self.side(),
            forall|k: int|
                0 <= k < r.len() ==> #[trigger] r@[k] == self.block_at(k % self.side(), k / self.side()),
    {
        let side: usize = self.width + 2 * QUIET_ZONE;
        assert(side * side <= 185 * 185) by (nonlinear_arith)
            requires
                side <= 185,
        ;
        let n: usize = side * side;
        let mut r: Vec<Block<C>> = Vec::new();
        let mut i: usize = 0;
        let mut x: usize = 0;
        let mut y: usize = 0;
        while i < n
            invariant
                self.wf(),
                self.scale >= 0,
                self.side() * self.scale <= i32::MAX,
                self.top_left.x + self.side() * self.scale <= i32::MAX,
                self.top_left.y + self.side() * self.scale <= i32::MAX,
                side == self.side(),
                n == side * side,
                i <= n,
                r.len() == i,
                x < side,
                i == y * side + x,
                i < n ==> y < side,
                forall|k: int| 0 <= k < i ==> #[trigger] r@[k] == self.block_at(k % self.side(), k / self.side()),
            decreases n - i,
        {
            proof {
                lemma_fundamental_div_mod_converse(i as int, side as int, y as int, x as int);
                assert(x * self.scale <= side * self.scale && y * self.scale <= side * self.scale
                    && 0 <= x * self.scale && 0 <= y * self.scale) by (nonlinear_arith)
                    requires
                        x < side,
                        y < side,
                        self.scale >= 0,
                ;
            }
            let px = self.top_left.x + (x as i32) * self.scale;
            let py = self.top_left.y + (y as i32) * self.scale;
            let dark = if QUIET_ZONE <= x && x < self.width + QUIET_ZONE && QUIET_ZONE <= y && y
                < self.width + QUIET_ZONE {
                let row = y - QUIET_ZONE;
                let col = x - QUIET_ZONE;
                proof {
                    assert(row * self.width + col < self.width * self.width) by (nonlinear_arith)
                        requires
                            row < self.width,
                            col < self.width,
                    ;
                }
                self.modules[row * self.width + col]
            } else {
                false
            };
            let color = if dark {
                self.fg_color
            } else {
                self.bg_color
            };
            r.push(Block { top_left: Point { x: px, y: py }, size: self.scale as u32, color });
            i = i + 1;
            if x + 1 == side {
                proof {
                    assert(i == (y + 1) * side) by (nonlinear_arith)
                        requires
                            i == y * side + x + 1,
                            x + 1 == side,
                    ;
                }
                x = 0;
                y = y + 1;
            } else {
                x = x + 1;
            }
            proof {
                if i < n {
                    assert(y < side) by (nonlinear_arith)
                        requires
                            i == y * side + x,
                            i < side * side,
                    ;
                }
            }
        }
        r
    }
}

} // verus!
