use vstd::prelude::*;

verus! {

/// Width of the framebuffer in pixels.
pub const WIDTH: usize = 64;

/// Height of the framebuffer in pixels.
pub const HEIGHT: usize = 32;

/// Number of pixels in the framebuffer.
pub const BUFFER_SIZE: usize = WIDTH * HEIGHT;

/// The region touched by the most recent sprite draw: the sprite's origin and
/// its number of rows. Coordinates are as given to the draw, before wrapping.
#[derive(Clone, Copy, Debug, PartialEq, Eq, Structural)]
pub struct DisplayChange {
    pub x: usize,
    pub y: usize,
    pub n: usize,
}

/// A monochrome framebuffer of `WIDTH * HEIGHT` pixels, stored row-major, with
/// the damage descriptor of the last draw.
#[derive(Debug)]
pub struct Display {
    buffer: Vec<u8>,
    changes: Option<DisplayChange>,
}

/// Framebuffer position of step `k` of a sprite draw at `(x, y)`: row `k / 8`
/// of the sprite, bit `k % 8` of that row, both axes wrapping.
pub open spec fn pixel_index(x: int, y: int, k: int) -> int {
    ((y + k / 8) % (HEIGHT as int)) * (WIDTH as int) + (x + k % 8) % (WIDTH as int)
}

/// Bit `i` (most significant first) of a sprite row.
pub open spec fn row_bit(b: u8, i: int) -> bool {
    (b >> ((7 - i) as u8)) & 1u8 == 1u8
}

/// The sprite bit that step `k` of a draw composites.
pub open spec fn sprite_bit(sprite: Seq<u8>, k: int) -> bool {
    row_bit(sprite[k / 8], k % 8)
}

/// Whether the first `k` steps of drawing `sprite` at `(x, y)` toggle pixel `p`
/// an odd number of times.
pub open spec fn flipped(x: int, y: int, sprite: Seq<u8>, p: int, k: nat) -> bool
    decreases k,
{
    if k == 0 {
        false
    } else {
        let prev = flipped(x, y, sprite, p, (k - 1) as nat);
        if sprite_bit(sprite, k - 1) && pixel_index(x, y, k - 1) == p {
            !prev
        } else {
            prev
        }
    }
}

/// A pixel value, inverted when `f` holds.
pub open spec fn toggle(v: u8, f: bool) -> u8 {
    if f {
        v ^ 1u8
    } else {
        v
    }
}

/// Number of compositing steps of a sprite: eight per row.
pub open spec fn step_count(sprite: Seq<u8>) -> nat {
    (sprite.len() * 8) as nat
}

/// The framebuffer after XOR-compositing `sprite` at `(x, y)` onto `buf`.
pub open spec fn drawn(buf: Seq<u8>, x: int, y: int, sprite: Seq<u8>) -> Seq<u8> {
    Seq::new(
        buf.len(),
        |p: int| toggle(buf[p], flipped(x, y, sprite, p, step_count(sprite))),
    )
}

/// Whether one of the first `k` steps of drawing `sprite` at `(x, y)` onto `buf`
/// turns a lit pixel off.
pub open spec fn collides(buf: Seq<u8>, x: int, y: int, sprite: Seq<u8>, k: nat) -> bool
    decreases k,
{
    if k == 0 {
        false
    } else {
        let j = k - 1;
        let p = pixel_index(x, y, j);
        collides(buf, x, y, sprite, (k - 1) as nat) || (sprite_bit(sprite, j) && toggle(
            buf[p],
            flipped(x, y, sprite, p, j as nat),
        ) == 1u8)
    }
}

/// Whether drawing `sprite` at `(x, y)` onto `buf` erases a lit pixel.
pub open spec fn collision(buf: Seq<u8>, x: int, y: int, sprite: Seq<u8>) -> bool {
    collides(buf, x, y, sprite, step_count(sprite))
}

/// Every pixel is 0 or 1.
pub open spec fn binary_pixels(buf: Seq<u8>) -> bool {
    forall|p: int| 0 <= p < buf.len() ==> #[trigger] buf[p] <= 1
}

/// A framebuffer with every pixel off.
pub open spec fn blank() -> Seq<u8> {
    Seq::new(BUFFER_SIZE as nat, |p: int| 0u8)
}

proof fn lemma_toggle_binary(v: u8, f: bool)
    requires
        v <= 1,
    ensures
        toggle(v, f) <= 1,
        toggle(toggle(v, f), f) == v,
{
    assert(v <= 1 ==> (v ^ 1u8) <= 1 && ((v ^ 1u8) ^ 1u8) == v) by (bit_vector);
}

proof fn lemma_step_decompose(row: int, offset: int)
    requires
        0 <= row,
        0 <= offset < 8,
    ensures
        (row * 8 + offset) / 8 == row,
        (row * 8 + offset) % 8 == offset,
{
    vstd::arithmetic::div_mod::lemma_fundamental_div_mod_converse(row * 8 + offset, 8, row, offset);
}

impl Display {
    /// Well-formedness: the buffer holds exactly `BUFFER_SIZE` pixels of 0 or 1.
    pub open spec fn wf(&self) -> bool {
        self.pixels().len() == BUFFER_SIZE && binary_pixels(self.pixels())
    }

    /// The framebuffer contents, row-major.
    pub closed spec fn pixels(&self) -> Seq<u8> {
        self.buffer@
    }

    /// The damage descriptor of the last draw, if not yet cleared.
    pub closed spec fn changes(&self) -> Option<DisplayChange> {
        self.changes
    }

    /// A blank framebuffer with no pending change.
    pub fn new() -> (r: Display)
        ensures
            r.wf(),
            r.pixels() == blank(),
            r.changes() is None,
    {
        let r = Display { buffer: vec![0u8; BUFFER_SIZE], changes: None };
        assert(r.buffer@ =~= blank());
        r
    }

    /// XOR-composites `sprite` onto the framebuffer at `(x, y)`, one row per byte,
    /// most significant bit leftmost, wrapping on both axes. Returns whether a lit
    /// pixel was turned off, and records the damage descriptor `{x, y, n}`.
    pub fn load_sprite(&mut self, x: usize, y: usize, sprite: &[u8]) -> (collision_found: bool)
        requires
            old(self).wf(),
        ensures
            final(self).wf(),
            final(self).pixels() == drawn(old(self).pixels(), x as int, y as int, sprite@),
            collision_found == collision(old(self).pixels(), x as int, y as int, sprite@),
            final(self).changes() == Some(DisplayChange { x, y, n: sprite@.len() as usize }),
    {
        let ghost before = self.buffer@;
        let ghost xi = x as int;
        let ghost yi = y as int;
        let x0 = x % WIDTH;
        let y0 = y % HEIGHT;
        let mut collision_found = false;
        let mut row: usize = 0;
        while row < sprite.len()
            invariant
                0 <= row <= sprite@.len(),
                x0 as int == xi % (WIDTH as int),
                y0 as int == yi % (HEIGHT as int),
                before.len() == BUFFER_SIZE,
                binary_pixels(before),
                self.buffer@.len() == BUFFER_SIZE,
                binary_pixels(self.buffer@),
                forall|p: int|
                    0 <= p < BUFFER_SIZE ==> #[trigger] self.buffer@[p] == toggle(
                        before[p],
                        flipped(xi, yi, sprite@, p, (row * 8) as nat),
                    ),
                collision_found == collides(before, xi, yi, sprite@, (row * 8) as nat),
            decreases sprite@.len() - row,
        {
            let byte = sprite[row];
            let py = (y0 + row % HEIGHT) % HEIGHT;
            proof {
                vstd::arithmetic::div_mod::lemma_add_mod_noop(yi, row as int, HEIGHT as int);
            }
            let mut offset: usize = 0;
            while offset < 8
                invariant
                    0 <= row < sprite@.len(),
                    0 <= offset <= 8,
                    byte == sprite@[row as int],
                    x0 as int == xi % (WIDTH as int),
                    py as int == (yi + row) % (HEIGHT as int),
                    before.len() == BUFFER_SIZE,
                    binary_pixels(before),
                    self.buffer@.len() == BUFFER_SIZE,
                    binary_pixels(self.buffer@),
                    forall|p: int|
                        0 <= p < BUFFER_SIZE ==> #[trigger] self.buffer@[p] == toggle(
                            before[p],
                            flipped(xi, yi, sprite@, p, (row * 8 + offset) as nat),
                        ),
                    collision_found == collides(
                        before,
                        xi,
                        yi,
                        sprite@,
                        (row * 8 + offset) as nat,
                    ),
                decreases 8 - offset,
            {
                let ghost k = row * 8 + offset;
                proof {
                    lemma_step_decompose(row as int, offset as int);
                    vstd::arithmetic::div_mod::lemma_add_mod_noop(xi, offset as int, WIDTH as int);
                }
                let bit = (byte >> ((7 - offset) as u8)) & 1u8;
                let px = (x0 + offset) % WIDTH;
                let index = py * WIDTH + px;
                assert(index as int == pixel_index(xi, yi, k));
                let old_pixel = self.buffer[index];
                let new_pixel = bit ^ old_pixel;
                assert(bit == 1u8 || bit == 0u8) by (bit_vector)
                    requires
                        bit == (byte >> ((7 - offset) as u8)) & 1u8,
                ;
                let ghost prev = self.buffer@;
                let ghost f = flipped(xi, yi, sprite@, index as int, k as nat);
                proof {
                    lemma_toggle_binary(before[index as int], f);
                    assert(sprite_bit(sprite@, k as int) == (bit == 1u8));
                    assert(old_pixel <= 1 ==> (1u8 ^ old_pixel) == (old_pixel ^ 1u8) && (0u8
                        ^ old_pixel) == old_pixel && ((old_pixel ^ 1u8) <= 1)) by (bit_vector);
                }
                self.buffer.set(index, new_pixel);
                if bit == 1u8 && old_pixel == 1u8 {
                    collision_found = true;
                }
                offset = offset + 1;
                assert forall|p: int| 0 <= p < BUFFER_SIZE implies #[trigger] self.buffer@[p]
                    == toggle(before[p], flipped(xi, yi, sprite@, p, (k + 1) as nat)) by {
                    assert(prev[p] == toggle(before[p], flipped(xi, yi, sprite@, p, k as nat)));
                }
            }
            row = row + 1;
        }
        self.changes = Some(DisplayChange { x, y, n: sprite.len() });
        assert(self.buffer@ =~= drawn(before, xi, yi, sprite@));
        collision_found
    }

    /// Turns every pixel off.
    pub fn clear(&mut self)
        requires
            old(self).wf(),
        ensures
            final(self).wf(),
            final(self).pixels() == blank(),
            final(self).changes() == old(self).changes(),
    {
        let mut p: usize = 0;
        while p < BUFFER_SIZE
            invariant
                0 <= p <= BUFFER_SIZE,
                self.buffer@.len() == BUFFER_SIZE,
                forall|q: int| 0 <= q < p ==> #[trigger] self.buffer@[q] == 0u8,
                self.changes == old(self).changes,
            decreases BUFFER_SIZE - p,
        {
            self.buffer.set(p, 0u8);
            p = p + 1;
        }
        assert(self.buffer@ =~= blank());
    }

    /// The framebuffer, row-major, one byte of 0 or 1 per pixel.
    pub fn get_buffer(&self) -> (r: &[u8])
        requires
            self.wf(),
        ensures
            r@ == self.pixels(),
    {
        self.buffer.as_slice()
    }

    /// The damage descriptor of the last draw, if it has not been cleared.
    pub fn get_changes(&self) -> (r: Option<DisplayChange>)
        ensures
            r == self.changes(),
    {
        self.changes
    }

    /// Whether a draw happened since the descriptor was last cleared.
    pub fn has_changed(&self) -> (r: bool)
        ensures
            r == self.changes() is Some,
    {
        self.changes.is_some()
    }

    /// Forgets the damage descriptor.
    pub fn clear_status(&mut self)
        ensures
            final(self).pixels() == old(self).pixels(),
            final(self).wf() == old(self).wf(),
            final(self).changes() is None,
    {
        self.changes = None;
    }
}

impl Default for Display {
    fn default() -> (r: Display)
        ensures
            r.wf(),
            r.pixels() == blank(),
            r.changes() is None,
    {
        Display::new()
    }
}

} // verus!
