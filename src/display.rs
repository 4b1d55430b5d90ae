use vstd::prelude::*;

verus! {

/// Number of pixel columns.
pub const WIDTH: usize = 64;

/// Number of pixel rows.
pub const HEIGHT: usize = 32;

/// Number of pixels, stored row by row.
pub const PIXELS: usize = 2048;

/// Colour of a lit pixel in the render buffer.
pub const LIT: u32 = 0x00FF_FFFF;

/// What a display holds: its pixels (row-major, each 0 or 1), whether they
/// changed since the last render, and the last rendered image.
pub struct DisplayView {
    pub pixels: Seq<u8>,
    pub dirty: bool,
    pub buffer: Seq<u32>,
}

/// Bit `c` of a sprite row, counting from the most significant bit, which
/// is the leftmost pixel.
pub open spec fn sprite_bit(row: u8, c: int) -> u8 {
    (row >> ((7 - c) as u8)) & 1u8
}

/// Index of the pixel that cell `(r, c)` of a sprite drawn at `(x0, y0)`
/// lands on, wrapping at the right and bottom edges.
pub open spec fn target(x0: u8, y0: u8, r: int, c: int) -> int {
    ((y0 as int + r) % (HEIGHT as int)) * (WIDTH as int) + (x0 as int + c) % (WIDTH as int)
}

/// The sprite row that covers pixel `p` when drawing at row `y0`.
pub open spec fn row_of(y0: u8, p: int) -> int {
    (p / (WIDTH as int) + HEIGHT as int - (y0 as int) % (HEIGHT as int)) % (HEIGHT as int)
}

/// The sprite column that covers pixel `p` when drawing at column `x0`.
pub open spec fn col_of(x0: u8, p: int) -> int {
    (p % (WIDTH as int) + WIDTH as int - (x0 as int) % (WIDTH as int)) % (WIDTH as int)
}

/// Whether pixel `p` lies under an `n`-row sprite drawn at `(x0, y0)`.
pub open spec fn covered(x0: u8, y0: u8, n: int, p: int) -> bool {
    row_of(y0, p) < n && col_of(x0, p) < 8
}

/// The pixels after XOR-drawing `sprite` at `(x0, y0)`.
pub open spec fn drawn(pixels: Seq<u8>, x0: u8, y0: u8, sprite: Seq<u8>) -> Seq<u8> {
    Seq::new(
        pixels.len(),
        |p: int|
            if covered(x0, y0, sprite.len() as int, p) {
                pixels[p] ^ sprite_bit(sprite[row_of(y0, p)], col_of(x0, p))
            } else {
                pixels[p]
            },
    )
}

/// Whether sprite cell `j` (row `j / 8`, column `j % 8`) is set and lands
/// on a lit pixel.
pub open spec fn hits(pixels: Seq<u8>, x0: u8, y0: u8, sprite: Seq<u8>, j: int) -> bool {
    &&& sprite_bit(sprite[j / 8], j % 8) == 1
    &&& pixels[target(x0, y0, j / 8, j % 8)] == 1
}

/// Whether drawing `sprite` at `(x0, y0)` erases some lit pixel.
pub open spec fn collides(pixels: Seq<u8>, x0: u8, y0: u8, sprite: Seq<u8>) -> bool {
    exists|j: int| 0 <= j < sprite.len() * 8 && #[trigger] hits(pixels, x0, y0, sprite, j)
}

/// The render image of `pixels`: black for an unlit pixel, `LIT` otherwise.
pub open spec fn rendered(pixels: Seq<u8>) -> Seq<u32> {
    Seq::new(pixels.len(), |p: int| if pixels[p] == 0 { 0u32 } else { LIT })
}

/// A sprite cell lands on a pixel of the screen, and that pixel leads back
/// to the cell.
proof fn lemma_target_inverse(x0: u8, y0: u8, r: int, c: int)
    requires
        0 <= r < HEIGHT,
        0 <= c < WIDTH,
    ensures
        0 <= target(x0, y0, r, c) < PIXELS,
        row_of(y0, target(x0, y0, r, c)) == r,
        col_of(x0, target(x0, y0, r, c)) == c,
{
    let (x, y, rr, cc) = (x0 as u32, y0 as u32, r as u32, c as u32);
    assert(((y + rr) % 32) * 64 + (x + cc) % 64 < 2048) by (bit_vector)
        requires
            x < 256,
            y < 256,
            rr < 32,
            cc < 64,
    ;
    assert((((y + rr) % 32) * 64 + (x + cc) % 64) / 64 == (y + rr) % 32) by (bit_vector)
        requires
            x < 256,
            y < 256,
            rr < 32,
            cc < 64,
    ;
    assert((((y + rr) % 32) * 64 + (x + cc) % 64) % 64 == (x + cc) % 64) by (bit_vector)
        requires
            x < 256,
            y < 256,
            rr < 32,
            cc < 64,
    ;
    assert(((y + rr) % 32 + 32 - y % 32) % 32 == rr) by (bit_vector)
        requires
            y < 256,
            rr < 32,
    ;
    assert(((x + cc) % 64 + 64 - x % 64) % 64 == cc) by (bit_vector)
        requires
            x < 256,
            cc < 64,
    ;
}

/// Every pixel is the target of the sprite cell that covers it.
proof fn lemma_target_of_pixel(x0: u8, y0: u8, p: int)
    requires
        0 <= p < PIXELS,
    ensures
        0 <= row_of(y0, p) < HEIGHT,
        0 <= col_of(x0, p) < WIDTH,
        target(x0, y0, row_of(y0, p), col_of(x0, p)) == p,
{
    let (x, y, q) = (x0 as u32, y0 as u32, p as u32);
    assert(((y + (q / 64 + 32 - y % 32) % 32) % 32) * 64 + (x + (q % 64 + 64 - x % 64) % 64) % 64
        == q) by (bit_vector)
        requires
            x < 256,
            y < 256,
            q < 2048,
    ;
}

/// A sprite bit is 0 or 1.
proof fn lemma_sprite_bit(row: u8, c: int)
    ensures
        sprite_bit(row, c) <= 1,
{
    let sh = (7 - c) as u8;
    assert((row >> sh) & 1u8 <= 1) by (bit_vector);
}

/// XOR of a pixel with a bit: stays a pixel, erases exactly when both are
/// set, and undoes itself.
proof fn lemma_xor_pixel(px: u8, bit: u8)
    requires
        px <= 1,
        bit <= 1,
    ensures
        px ^ bit <= 1,
        (px == 1 && px ^ bit == 0) <==> (px == 1 && bit == 1),
        (px ^ bit) ^ bit == px,
        px ^ bit == 1 <==> px != bit,
{
    assert(px ^ bit <= 1 && ((px == 1 && px ^ bit == 0) <==> (px == 1 && bit == 1))
        && (px ^ bit) ^ bit == px && (px ^ bit == 1 <==> px != bit)) by (bit_vector)
        requires
            px <= 1,
            bit <= 1,
    ;
}

/// A 64 by 32 monochrome screen with a dirty flag and the image last handed
/// to the renderer.
pub struct Display {
    pixels: [u8; PIXELS],
    needs_update: bool,
    buffer: [u32; PIXELS],
}

impl View for Display {
    type V = DisplayView;

    closed spec fn view(&self) -> DisplayView {
        DisplayView { pixels: self.pixels@, dirty: self.needs_update, buffer: self.buffer@ }
    }
}

impl Display {
    /// Every pixel is 0 or 1, and both grids have `PIXELS` cells.
    pub open spec fn wf(&self) -> bool {
        &&& self@.pixels.len() == PIXELS
        &&& self@.buffer.len() == PIXELS
        &&& forall|p: int| 0 <= p < PIXELS ==> #[trigger] self@.pixels[p] <= 1
    }

    /// A blank display that still has to be rendered once.
    pub fn new() -> (d: Display)
        ensures
            d.wf(),
            d@.dirty,
            forall|p: int| 0 <= p < PIXELS ==> #[trigger] d@.pixels[p] == 0,
            forall|p: int| 0 <= p < PIXELS ==> #[trigger] d@.buffer[p] == 0,
    {
        Display { pixels: [0u8; PIXELS], needs_update: true, buffer: [0u32; PIXELS] }
    }

    /// The pixel in column `x` of row `y`.
    pub fn read_pixel(&self, x: usize, y: usize) -> (v: u8)
        requires
            x < WIDTH,
            y < HEIGHT,
            self.wf(),
        ensures
            v == self@.pixels[y * WIDTH + x],
    {
        self.pixels[y * WIDTH + x]
    }

    /// Sets the pixel in column `x` of row `y` and marks the display dirty.
    pub fn write(&mut self, x: usize, y: usize, value: u8)
        requires
            x < WIDTH,
            y < HEIGHT,
            value <= 1,
            old(self).wf(),
        ensures
            final(self).wf(),
            final(self)@ == (DisplayView {
                pixels: old(self)@.pixels.update(y * WIDTH + x, value),
                dirty: true,
                ..old(self)@
            }),
    {
        self.pixels[y * WIDTH + x] = value;
        self.needs_update = true;
    }

    /// Turns every pixel off and marks the display dirty.
    pub fn clear(&mut self)
        requires
            old(self).wf(),
        ensures
            final(self).wf(),
            final(self)@.pixels == Seq::new(PIXELS as nat, |p: int| 0u8),
            final(self)@.dirty,
            final(self)@.buffer == old(self)@.buffer,
    {
        self.pixels = [0u8; PIXELS];
        self.needs_update = true;
        assert(self@.pixels =~= Seq::new(PIXELS as nat, |p: int| 0u8));
    }
}


/// The pixels after the first `k` sprite cells (row by row) were drawn.
spec fn drawn_upto(pixels: Seq<u8>, x0: u8, y0: u8, sprite: Seq<u8>, k: int) -> Seq<u8> {
    Seq::new(
        pixels.len(),
        |p: int|
            if covered(x0, y0, sprite.len() as int, p) && row_of(y0, p) * 8 + col_of(x0, p) < k {
                pixels[p] ^ sprite_bit(sprite[row_of(y0, p)], col_of(x0, p))
            } else {
                pixels[p]
            },
    )
}

impl Display {
    /// XOR-draws `sprite`, one byte per row, with its top-left corner at
    /// `(x0, y0)`, wrapping at the edges. Returns whether a lit pixel was
    /// erased. The display is marked dirty.
    pub fn draw(&mut self, x0: u8, y0: u8, sprite: &Vec<u8>) -> (collision: bool)
        requires
            old(self).wf(),
            sprite@.len() <= HEIGHT,
        ensures
            final(self).wf(),
            final(self)@.pixels == drawn(old(self)@.pixels, x0, y0, sprite@),
            final(self)@.dirty,
            final(self)@.buffer == old(self)@.buffer,
            collision == collides(old(self)@.pixels, x0, y0, sprite@),
    {
        let ghost orig = self@.pixels;
        let n = sprite.len();
        let mut collision = false;
        let mut k: usize = 0;
        proof {
            assert(self.pixels@ =~= drawn_upto(orig, x0, y0, sprite@, 0));
        }
        while k < n * 8
            invariant
                n == sprite@.len() <= HEIGHT,
                k <= n * 8,
                orig.len() == PIXELS,
                forall|p: int| 0 <= p < PIXELS ==> #[trigger] orig[p] <= 1,
                self.pixels@ == drawn_upto(orig, x0, y0, sprite@, k as int),
                self.buffer@ == old(self)@.buffer,
                collision == exists|j: int| 0 <= j < k && #[trigger] hits(orig, x0, y0, sprite@, j),
            decreases n * 8 - k,
        {
            let r = k / 8;
            let c = k % 8;
            let x = (x0 as usize + c) % WIDTH;
            let y = (y0 as usize + r) % HEIGHT;
            let idx = y * WIDTH + x;
            proof {
                lemma_target_inverse(x0, y0, r as int, c as int);
                assert(idx == target(x0, y0, r as int, c as int));
            }
            let old_px = self.pixels[idx];
            let bit = (sprite[r] >> (7 - c) as u8) & 1;
            let new_px = old_px ^ bit;
            proof {
                assert(old_px == orig[idx as int]);
                assert(bit == sprite_bit(sprite@[r as int], c as int));
                lemma_sprite_bit(sprite@[r as int], c as int);
                lemma_xor_pixel(old_px, bit);
            }
            if old_px == 1 && new_px == 0 {
                collision = true;
            }
            self.pixels[idx] = new_px;
            proof {
                assert(hits(orig, x0, y0, sprite@, k as int) == (old_px == 1 && bit == 1));
                assert forall|p: int| 0 <= p < PIXELS implies #[trigger] self.pixels@[p]
                    == drawn_upto(orig, x0, y0, sprite@, k + 1)[p] by {
                    lemma_target_of_pixel(x0, y0, p);
                    if p != idx {
                        if covered(x0, y0, n as int, p) && row_of(y0, p) * 8 + col_of(x0, p) == k {
                            assert(row_of(y0, p) == r && col_of(x0, p) == c);
                        }
                    }
                }
                assert(self.pixels@ =~= drawn_upto(orig, x0, y0, sprite@, k + 1));
                assert(collision == exists|j: int|
                    0 <= j < k + 1 && #[trigger] hits(orig, x0, y0, sprite@, j));
            }
            k += 1;
        }
        self.needs_update = true;
        proof {
            assert forall|p: int| 0 <= p < PIXELS implies #[trigger] self.pixels@[p]
                == drawn(orig, x0, y0, sprite@)[p] by {
                lemma_target_of_pixel(x0, y0, p);
            }
            assert(self.pixels@ =~= drawn(orig, x0, y0, sprite@));
            assert forall|p: int| 0 <= p < PIXELS implies #[trigger] self@.pixels[p] <= 1 by {
                lemma_target_of_pixel(x0, y0, p);
                if covered(x0, y0, n as int, p) {
                    lemma_sprite_bit(sprite@[row_of(y0, p)], col_of(x0, p));
                    lemma_xor_pixel(orig[p], sprite_bit(sprite@[row_of(y0, p)], col_of(x0, p)));
                }
            }
        }
        collision
    }
}

impl Display {
    /// Renders the pixels into the buffer handed to a screen.
    pub fn build_buffer(&mut self)
        requires
            old(self).wf(),
        ensures
            final(self).wf(),
            final(self)@.buffer == rendered(old(self)@.pixels),
            final(self)@.pixels == old(self)@.pixels,
            final(self)@.dirty == old(self)@.dirty,
    {
        let mut idx: usize = 0;
        while idx < PIXELS
            invariant
                idx <= PIXELS,
                self.wf(),
                self@.pixels == old(self)@.pixels,
                self@.dirty == old(self)@.dirty,
                forall|p: int| 0 <= p < idx ==> #[trigger] self@.buffer[p] == rendered(self@.pixels)[p],
            decreases PIXELS - idx,
        {
            self.buffer[idx] = if self.pixels[idx] == 0 { 0 } else { LIT };
            idx += 1;
        }
        assert(self@.buffer =~= rendered(self@.pixels));
    }

    /// Consumes the dirty flag: when it was set, renders the pixels into the
    /// buffer and returns true; otherwise leaves the buffer and returns false.
    pub fn update(&mut self) -> (fresh: bool)
        requires
            old(self).wf(),
        ensures
            final(self).wf(),
            fresh == old(self)@.dirty,
            !final(self)@.dirty,
            final(self)@.pixels == old(self)@.pixels,
            final(self)@.buffer == if fresh {
                rendered(old(self)@.pixels)
            } else {
                old(self)@.buffer
            },
    {
        let fresh = self.needs_update;
        if fresh {
            self.build_buffer();
        }
        self.needs_update = false;
        fresh
    }

    /// Whether the pixels changed since the last render.
    pub fn needs_update(&self) -> (r: bool)
        ensures
            r == self@.dirty,
    {
        self.needs_update
    }

    /// The last rendered image, row by row.
    pub fn buffer(&self) -> (b: &[u32; PIXELS])
        ensures
            b@ == self@.buffer,
    {
        &self.buffer
    }
}

/// Drawing a sprite twice at the same place gives back the pixels it
/// started from, and the second draw reports a collision whenever some set
/// sprite bit landed on a pixel that was unlit before the first draw.
pub proof fn law_draw_twice(pixels: Seq<u8>, x0: u8, y0: u8, sprite: Seq<u8>)
    requires
        pixels.len() == PIXELS,
        forall|p: int| 0 <= p < PIXELS ==> #[trigger] pixels[p] <= 1,
        sprite.len() <= HEIGHT,
        exists|j: int|
            0 <= j < sprite.len() * 8 && sprite_bit(sprite[j / 8], j % 8) == 1
                && #[trigger] pixels[target(x0, y0, j / 8, j % 8)] == 0,
    ensures
        drawn(drawn(pixels, x0, y0, sprite), x0, y0, sprite) == pixels,
        collides(drawn(pixels, x0, y0, sprite), x0, y0, sprite),
{
    let once = drawn(pixels, x0, y0, sprite);
    let twice = drawn(once, x0, y0, sprite);
    assert forall|p: int| 0 <= p < PIXELS implies #[trigger] twice[p] == pixels[p] by {
        if covered(x0, y0, sprite.len() as int, p) {
            lemma_target_of_pixel(x0, y0, p);
            let b = sprite_bit(sprite[row_of(y0, p)], col_of(x0, p));
            lemma_sprite_bit(sprite[row_of(y0, p)], col_of(x0, p));
            lemma_xor_pixel(pixels[p], b);
        }
    }
    assert(twice =~= pixels);
    let j = choose|j: int|
        0 <= j < sprite.len() * 8 && sprite_bit(sprite[j / 8], j % 8) == 1
            && #[trigger] pixels[target(x0, y0, j / 8, j % 8)] == 0;
    let t = target(x0, y0, j / 8, j % 8);
    lemma_target_inverse(x0, y0, j / 8, j % 8);
    lemma_xor_pixel(pixels[t], 1);
    assert(once[t] == 1);
    assert(hits(once, x0, y0, sprite, j));
}

} // verus!
