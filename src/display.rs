//! The monochrome pixel surface that sprites are drawn onto.
use vstd::prelude::*;

verus! {

/// Width of the surface in pixels.
pub const WIDTH: usize = 64;

/// Height of the surface in pixels.
pub const HEIGHT: usize = 32;

/// Column of pixel `p`, with pixels numbered row by row.
pub open spec fn col_of(p: int) -> int {
    p % 64
}

/// Row of pixel `p`, with pixels numbered row by row.
pub open spec fn row_of(p: int) -> int {
    p / 64
}

/// Whether bit `col` of a sprite row is set, counting from the most significant bit.
pub open spec fn sprite_bit(row: u8, col: int) -> bool {
    0 <= col < 8 && (row >> ((7 - col) as u8)) & 1u8 == 1u8
}

/// Sprite row that lies over pixel `p` when the sprite's top edge is at `y`, wrapping round.
pub open spec fn sprite_row(y: int, p: int) -> int {
    (row_of(p) - y) % 32
}

/// Sprite column that lies over pixel `p` when the sprite's left edge is at `x`, wrapping round.
pub open spec fn sprite_col(x: int, p: int) -> int {
    (col_of(p) - x) % 64
}

/// Whether the sprite `rows`, with its corner at (`x`, `y`), has a set bit over pixel `p`.
pub open spec fn covers(rows: Seq<u8>, x: int, y: int, p: int) -> bool {
    sprite_row(y, p) < rows.len() && sprite_bit(rows[sprite_row(y, p)], sprite_col(x, p))
}

/// The surface after the sprite is XORed onto `px`.
pub open spec fn drawn(px: Seq<bool>, rows: Seq<u8>, x: int, y: int) -> Seq<bool> {
    Seq::new(2048, |p: int| px[p] != covers(rows, x, y, p))
}

/// Whether drawing the sprite turns off a pixel that was on.
pub open spec fn collides(px: Seq<bool>, rows: Seq<u8>, x: int, y: int) -> bool {
    exists|p: int| 0 <= p < 2048 && #[trigger] px[p] && covers(rows, x, y, p)
}

/// Sprite cell (`r`, `c`), with the corner at (`x`, `y`), lands on pixel `p` exactly when `p`
/// lies in sprite row `r` and sprite column `c`.
proof fn lemma_cell(p: int, x: int, y: int, r: int, c: int)
    requires
        0 <= p < 2048,
        0 <= x,
        0 <= y,
        0 <= r < 32,
        0 <= c < 64,
    ensures
        (p == ((y + r) % 32) * 64 + (x + c) % 64) <==> (sprite_row(y, p) == r && sprite_col(x, p) == c),
{
    let py = (y + r) % 32;
    let px = (x + c) % 64;
    if p == py * 64 + px {
        vstd::arithmetic::div_mod::lemma_fundamental_div_mod_converse(p, 64, py, px);
    }
    if sprite_row(y, p) == r && sprite_col(x, p) == c {
        assert(0 <= row_of(p) < 32) by (nonlinear_arith)
            requires 0 <= p < 2048;
        vstd::arithmetic::div_mod::lemma_fundamental_div_mod(p, 64);
    }
}

/// A 64 by 32 surface of pixels that are either on or off.
pub struct Display {
    pixels: [bool; 2048],
}

impl View for Display {
    type V = Seq<bool>;

    /// The pixels, row by row.
    closed spec fn view(&self) -> Seq<bool> {
        self.pixels@
    }
}

impl Display {
    /// A surface with every pixel off.
    pub fn new() -> (d: Display)
        ensures
            d@ == Seq::new(2048, |p: int| false),
    {
        let d = Display { pixels: [false; 2048] };
        assert(d@ =~= Seq::new(2048, |p: int| false));
        d
    }

    /// Turns every pixel off.
    pub fn clear(&mut self)
        ensures
            final(self)@ == Seq::new(2048, |p: int| false),
    {
        self.pixels = [false; 2048];
        assert(self@ =~= Seq::new(2048, |p: int| false));
    }

    /// Whether the pixel in column `x` of row `y` is on.
    pub fn pixel(&self, x: usize, y: usize) -> (on: bool)
        requires
            x < 64,
            y < 32,
            self@.len() == 2048,
        ensures
            on == self@[y * 64 + x],
    {
        self.pixels[y * 64 + x]
    }

    /// The pixels, row by row.
    pub fn frame(&self) -> (f: Vec<bool>)
        ensures
            f@ == self@,
    {
        let mut f: Vec<bool> = Vec::new();
        let mut p: usize = 0;
        while p < 2048
            invariant
                p <= 2048,
                self@.len() == 2048,
                f@ == self@.subrange(0, p as int),
            decreases 2048 - p,
        {
            f.push(self.pixels[p]);
            p += 1;
            assert(f@ =~= self@.subrange(0, p as int));
        }
        assert(self@ =~= self@.subrange(0, 2048));
        f
    }

    /// XORs the sprite `rows` onto the surface with its corner at (`x`, `y`), each coordinate
    /// wrapping round the surface's edges; tells whether a pixel that was on was turned off.
    pub fn draw_sprite(&mut self, x: u8, y: u8, rows: &[u8]) -> (collided: bool)
        requires
            old(self)@.len() == 2048,
            rows@.len() <= 32,
        ensures
            final(self)@ == drawn(old(self)@, rows@, x as int, y as int),
            collided == collides(old(self)@, rows@, x as int, y as int),
    {
        let ghost before = self@;
        let ghost (xi, yi) = (x as int, y as int);
        let mut hit = false;
        let mut r: usize = 0;
        while r < rows.len()
            invariant
                r <= rows@.len() <= 32,
                before == old(self)@,
                xi == x as int,
                yi == y as int,
                self@.len() == 2048,
                forall|p: int| 0 <= p < 2048 ==> #[trigger] self@[p] == (before[p] != (covers(rows@, xi, yi, p) && sprite_row(yi, p) < r)),
                hit == exists|p: int| 0 <= p < 2048 && #[trigger] before[p] && covers(rows@, xi, yi, p) && sprite_row(yi, p) < r,
            decreases rows.len() - r,
        {
            let byte = rows[r];
            let py: usize = (y as usize + r) % 32;
            let mut c: usize = 0;
            while c < 8
                invariant
                    r < rows@.len() <= 32,
                    c <= 8,
                    byte == rows@[r as int],
                    py == (yi + r) % 32,
                    before == old(self)@,
                    xi == x as int,
                    yi == y as int,
                    self@.len() == 2048,
                    forall|p: int| 0 <= p < 2048 ==> #[trigger] self@[p] == (before[p] != (covers(rows@, xi, yi, p) && (sprite_row(yi, p) < r || (sprite_row(yi, p) == r && sprite_col(xi, p) < c)))),
                    hit == exists|p: int| 0 <= p < 2048 && #[trigger] before[p] && covers(rows@, xi, yi, p) && (sprite_row(yi, p) < r || (sprite_row(yi, p) == r && sprite_col(xi, p) < c)),
                decreases 8 - c,
            {
                let px: usize = (x as usize + c) % 64;
                let idx: usize = py * 64 + px;
                proof {
                    assert forall|p: int| 0 <= p < 2048 implies (p == idx) <==> (sprite_row(yi, p) == r && sprite_col(xi, p) == c) by {
                        lemma_cell(p, xi, yi, r as int, c as int);
                    }
                }
                if (byte >> (7 - c as u8)) & 1 == 1 {
                    if self.pixels[idx] {
                        hit = true;
                    }
                    self.pixels[idx] = !self.pixels[idx];
                }
                c += 1;
            }
            r += 1;
        }
        proof {
            assert forall|p: int| 0 <= p < 2048 && covers(rows@, xi, yi, p) implies sprite_row(yi, p) < r by {}
            assert(self@ =~= drawn(before, rows@, xi, yi));
        }
        hit
    }
}

} // verus!
