//! The display: a 64 by 32 grid of pixels that are switched by XOR and that
//! fade instead of going dark at once.
//!
//! Each pixel carries, besides its on/off state, a phase that counts decay
//! ticks from 0 to `PHASE_FULL`. A pixel whose phase is `PHASE_FULL` is
//! settled. Phases are held as whole ticks, so that a pixel is settled exactly
//! when its phase equals `PHASE_FULL`, with no rounding involved.

use vstd::prelude::*;

verus! {

/// Number of columns of the grid.
pub const WIDTH: usize = 64;

/// Number of rows of the grid.
pub const HEIGHT: usize = 32;

/// Number of pixels of the grid.
pub const CELLS: usize = 2048;

/// The phase of a settled pixel: the number of ticks that a fade lasts.
pub const PHASE_FULL: u8 = 10;

/// One pixel: whether it is lit, and how far its fade has come.
#[derive(Clone, Copy, Debug, PartialEq, Eq, Structural)]
pub struct Pixel {
    /// Whether the pixel is on.
    pub lit: bool,
    /// Fade progress in ticks, from 0 to `PHASE_FULL`.
    pub phase: u8,
}

impl Pixel {
    /// The pixel of a cleared display: off, at the start of its fade.
    pub open spec fn blank() -> Pixel {
        Pixel { lit: false, phase: 0 }
    }

    /// The phase lies within the fade.
    pub open spec fn wf(self) -> bool {
        self.phase <= PHASE_FULL
    }

    /// The pixel after one decay tick: a phase short of `PHASE_FULL` moves one
    /// tick on, a settled pixel stays as it is.
    pub open spec fn decayed(self) -> Pixel {
        if self.phase < PHASE_FULL {
            Pixel { lit: self.lit, phase: (self.phase + 1) as u8 }
        } else {
            self
        }
    }

    /// The pixel after `n` decay ticks.
    pub open spec fn decayed_by(self, n: nat) -> Pixel
        decreases n,
    {
        if n == 0 {
            self
        } else {
            self.decayed_by((n - 1) as nat).decayed()
        }
    }

    /// The pixel after a sprite bit has been drawn on it. The new state is the
    /// old one XOR the bit. A pixel that is lit afterwards is settled, one that
    /// has just gone out starts its fade, one that stays off keeps its phase.
    pub open spec fn blitted(self, bit: bool) -> Pixel {
        let lit = self.lit != bit;
        Pixel {
            lit,
            phase: if lit {
                PHASE_FULL
            } else if self.lit {
                0
            } else {
                self.phase
            },
        }
    }

    /// The brightness channels: full while the pixel is lit or still fading,
    /// dark once an unlit pixel has settled.
    pub open spec fn luma(self) -> u8 {
        if self.lit || self.phase < PHASE_FULL {
            0xFF
        } else {
            0x00
        }
    }

    /// The opacity channel. A settled pixel is opaque. Otherwise a lit pixel
    /// has `phase / PHASE_FULL * 256`, and an unlit one
    /// `(1 - phase / PHASE_FULL) * 256`, rounded down and capped at 255.
    pub open spec fn opacity(self) -> u8 {
        if self.phase >= PHASE_FULL {
            0xFF
        } else if self.lit {
            (self.phase * 256 / 10) as u8
        } else if self.phase == 0 {
            0xFF
        } else {
            ((10 - self.phase) * 256 / 10) as u8
        }
    }

    /// Applies one decay tick.
    pub fn decay(self) -> (p: Pixel)
        ensures
            p == self.decayed(),
    {
        if self.phase < PHASE_FULL {
            Pixel { lit: self.lit, phase: self.phase + 1 }
        } else {
            self
        }
    }

    /// Draws one sprite bit on the pixel.
    pub fn blit(self, bit: bool) -> (p: Pixel)
        ensures
            p == self.blitted(bit),
    {
        let lit = self.lit != bit;
        let phase = if lit {
            PHASE_FULL
        } else if self.lit {
            0
        } else {
            self.phase
        };
        Pixel { lit, phase }
    }

    /// Computes the value of the three brightness channels.
    pub fn luma_value(self) -> (l: u8)
        ensures
            l == self.luma(),
    {
        if self.lit || self.phase < PHASE_FULL {
            0xFF
        } else {
            0x00
        }
    }

    /// Computes the value of the opacity channel.
    pub fn opacity_value(self) -> (a: u8)
        ensures
            a == self.opacity(),
    {
        if self.phase >= PHASE_FULL {
            0xFF
        } else {
            let ticks: u16 = if self.lit {
                self.phase as u16
            } else {
                (PHASE_FULL - self.phase) as u16
            };
            let scaled: u16 = ticks * 256 / 10;
            if scaled > 0xFF {
                0xFF
            } else {
                scaled as u8
            }
        }
    }
}

impl Default for Pixel {
    fn default() -> (p: Pixel)
        ensures
            p == Pixel::blank(),
    {
        Pixel { lit: false, phase: 0 }
    }
}

/// Index of the cell in column `x mod 64` of row `y mod 32`.
pub open spec fn cell_index(x: int, y: int) -> int {
    (y % 32) * 64 + x % 64
}

/// The sprite row that falls on the row of cell `k` when the sprite's first
/// row is drawn at row `y`.
pub open spec fn sprite_row(k: int, y: int) -> int {
    (k / 64 - y) % 32
}

/// The sprite column that falls on the column of cell `k` when the sprite's
/// first column is drawn at column `x`.
pub open spec fn sprite_col(k: int, x: int) -> int {
    (k % 64 - x) % 64
}

/// Whether a sprite of `rows` rows drawn at `(x, y)` reaches cell `k`.
pub open spec fn covered(rows: nat, x: int, y: int, k: int) -> bool {
    sprite_row(k, y) < rows && sprite_col(k, x) < 8
}

/// Bit `col` of row `row` of a sprite, counted from the most significant bit:
/// false outside the sprite.
pub open spec fn sprite_bit(sprite: Seq<u8>, row: int, col: int) -> bool {
    &&& 0 <= row < sprite.len()
    &&& 0 <= col < 8
    &&& (sprite[row] >> ((7 - col) as u8)) & 1 == 1
}

/// The sprite bit that is drawn on cell `k` when the sprite is drawn at
/// `(x, y)`, rows and columns wrapping round the grid.
pub open spec fn source_bit(sprite: Seq<u8>, x: int, y: int, k: int) -> bool {
    sprite_bit(sprite, sprite_row(k, y), sprite_col(k, x))
}

/// Whether drawing the sprite at `(x, y)` puts out cell `k`: the cell is lit
/// and a set bit falls on it.
pub open spec fn put_out(screen: Seq<Pixel>, sprite: Seq<u8>, x: int, y: int, k: int) -> bool {
    screen[k].lit && source_bit(sprite, x, y, k)
}

/// The grid after the sprite has been drawn at `(x, y)`: every cell that the
/// sprite reaches is XORed with the bit that falls on it, every other cell
/// is untouched.
pub open spec fn drawn(screen: Seq<Pixel>, sprite: Seq<u8>, x: int, y: int) -> Seq<Pixel> {
    Seq::new(
        screen.len(),
        |k: int|
            if covered(sprite.len(), x, y, k) {
                screen[k].blitted(source_bit(sprite, x, y, k))
            } else {
                screen[k]
            },
    )
}

/// Whether drawing the sprite at `(x, y)` puts out at least one lit pixel.
pub open spec fn collides(screen: Seq<Pixel>, sprite: Seq<u8>, x: int, y: int) -> bool {
    exists|k: int| 0 <= k < screen.len() && #[trigger] put_out(screen, sprite, x, y, k)
}

/// A cleared grid.
pub open spec fn blank_screen() -> Seq<Pixel> {
    Seq::new(2048, |k: int| Pixel::blank())
}

/// The grid after one decay tick on every pixel.
pub open spec fn decayed_screen(screen: Seq<Pixel>) -> Seq<Pixel> {
    Seq::new(screen.len(), |k: int| screen[k].decayed())
}

/// The frame of a grid: four bytes per cell in row-major order, three
/// brightness channels followed by the opacity channel.
pub open spec fn frame_of(screen: Seq<Pixel>) -> Seq<u8> {
    Seq::new(
        4 * screen.len(),
        |b: int|
            if b % 4 == 3 {
                screen[b / 4].opacity()
            } else {
                screen[b / 4].luma()
            },
    )
}

/// Whether drawing the sprite at `(x, y)` lights cell `k`: the cell is unlit
/// and a set bit falls on it.
pub open spec fn lit_up(screen: Seq<Pixel>, sprite: Seq<u8>, x: int, y: int, k: int) -> bool {
    !screen[k].lit && source_bit(sprite, x, y, k)
}

/// Drawing the same sprite twice at the same place returns every pixel to the
/// state, lit or unlit, that it had before the first drawing, and the second
/// drawing reports a collision exactly when the first one lit a pixel.
pub proof fn lemma_draw_twice(screen: Seq<Pixel>, sprite: Seq<u8>, x: int, y: int)
    requires
        sprite.len() <= HEIGHT,
    ensures
        drawn(drawn(screen, sprite, x, y), sprite, x, y).len() == screen.len(),
        forall|k: int|
            0 <= k < screen.len() ==> (#[trigger] drawn(
                drawn(screen, sprite, x, y),
                sprite,
                x,
                y,
            )[k]).lit == screen[k].lit,
        collides(drawn(screen, sprite, x, y), sprite, x, y) <==> exists|k: int|
            0 <= k < screen.len() && #[trigger] lit_up(screen, sprite, x, y, k),
{
    let once = drawn(screen, sprite, x, y);
    if collides(once, sprite, x, y) {
        let k = choose|k: int| 0 <= k < once.len() && #[trigger] put_out(once, sprite, x, y, k);
        assert(lit_up(screen, sprite, x, y, k));
    }
    if exists|k: int| 0 <= k < screen.len() && #[trigger] lit_up(screen, sprite, x, y, k) {
        let k = choose|k: int| 0 <= k < screen.len() && #[trigger] lit_up(screen, sprite, x, y, k);
        assert(put_out(once, sprite, x, y, k));
    }
}

/// Drawing keeps the size of the grid and the range of every phase.
pub proof fn lemma_drawn_wf(screen: Seq<Pixel>, sprite: Seq<u8>, x: int, y: int)
    requires
        forall|k: int| 0 <= k < screen.len() ==> (#[trigger] screen[k]).wf(),
    ensures
        drawn(screen, sprite, x, y).len() == screen.len(),
        forall|k: int| 0 <= k < screen.len() ==> (#[trigger] drawn(screen, sprite, x, y)[k]).wf(),
{
}

/// The fade of a pixel that has just gone out. After `n` ticks its phase is
/// `n`, or `PHASE_FULL` from the tenth tick on. While the fade lasts the pixel
/// shows at full brightness and its opacity falls with every tick. Once the
/// phase is `PHASE_FULL` the pixel is dark, and further ticks change nothing.
pub proof fn lemma_fade_out(p: Pixel, n: nat)
    requires
        !p.lit,
        p.phase == 0,
    ensures
        !p.decayed_by(n).lit,
        n <= PHASE_FULL ==> p.decayed_by(n).phase == n,
        n >= PHASE_FULL ==> p.decayed_by(n).phase == PHASE_FULL,
        n < PHASE_FULL ==> p.decayed_by(n).luma() == 0xFF,
        n + 1 < PHASE_FULL ==> p.decayed_by(n + 1).opacity() < p.decayed_by(n).opacity(),
        n >= PHASE_FULL ==> p.decayed_by(n).luma() == 0x00,
        n >= PHASE_FULL ==> p.decayed_by(n + 1) == p.decayed_by(n),
    decreases n,
{
    if n > 0 {
        lemma_fade_out(p, (n - 1) as nat);
    }
}

/// Whether the sprite bit at `(row, col)` has been drawn once the rows before
/// `rows_done` are complete and `cols_done` columns of row `rows_done` are.
spec fn reached(row: int, col: int, rows_done: int, cols_done: int) -> bool {
    (row < rows_done && col < 8) || (row == rows_done && col < cols_done)
}

/// The cell of a drawing in progress.
spec fn partly_drawn(
    screen: Seq<Pixel>,
    sprite: Seq<u8>,
    x: int,
    y: int,
    rows_done: int,
    cols_done: int,
    k: int,
) -> Pixel {
    if reached(sprite_row(k, y), sprite_col(k, x), rows_done, cols_done) {
        screen[k].blitted(source_bit(sprite, x, y, k))
    } else {
        screen[k]
    }
}

/// Whether a drawing in progress has put out a lit pixel.
spec fn partly_collides(
    screen: Seq<Pixel>,
    sprite: Seq<u8>,
    x: int,
    y: int,
    rows_done: int,
    cols_done: int,
) -> bool {
    exists|k: int|
        0 <= k < screen.len() && reached(sprite_row(k, y), sprite_col(k, x), rows_done, cols_done)
            && #[trigger] put_out(screen, sprite, x, y, k)
}

/// The cell on which the sprite bit at `(row, col)` falls is the only one
/// whose sprite coordinates are `(row, col)`.
proof fn lemma_target_cell(x: int, y: int, row: int, col: int)
    requires
        0 <= x < 256,
        0 <= y < 256,
        0 <= row < 32,
        0 <= col < 8,
    ensures
        0 <= ((y + row) % 32) * 64 + (x + col) % 64 < CELLS,
        sprite_row(((y + row) % 32) * 64 + (x + col) % 64, y) == row,
        sprite_col(((y + row) % 32) * 64 + (x + col) % 64, x) == col,
        forall|k: int|
            0 <= k < CELLS && sprite_row(k, y) == row && sprite_col(k, x) == col ==> k == ((y
                + row) % 32) * 64 + (x + col) % 64,
{
}

/// Stores `pixel` in cell `k`.
fn put(cells: &mut Vec<Pixel>, k: usize, pixel: Pixel)
    requires
        k < old(cells)@.len(),
    ensures
        final(cells)@ == old(cells)@.update(k as int, pixel),
    no_unwind
{
    cells[k] = pixel;
}

/// The display.
pub struct Screen {
    cells: Vec<Pixel>,
    frame: Vec<u8>,
}

impl View for Screen {
    type V = Seq<Pixel>;

    closed spec fn view(&self) -> Seq<Pixel> {
        self.cells@
    }
}

impl Screen {
    /// A display always has `CELLS` pixels, each with a phase within the fade.
    #[verifier::type_invariant]
    pub open spec fn wf(self) -> bool {
        &&& self@.len() == CELLS
        &&& forall|k: int| 0 <= k < CELLS ==> (#[trigger] self@[k]).wf()
    }

    /// A cleared display.
    pub fn new() -> (s: Screen)
        ensures
            s@ == blank_screen(),
    {
        let mut cells: Vec<Pixel> = Vec::new();
        let mut k: usize = 0;
        while k < CELLS
            invariant
                k <= CELLS,
                cells@.len() == k,
                forall|j: int| 0 <= j < k ==> cells@[j] == Pixel::blank(),
            decreases CELLS - k,
        {
            cells.push(Pixel { lit: false, phase: 0 });
            k += 1;
        }
        Screen { cells, frame: Vec::new() }
    }

    /// Clears the display: every pixel is off, at the start of its fade.
    pub fn clear(&mut self)
        ensures
            final(self)@ == blank_screen(),
    {
        proof {
            use_type_invariant(&*self);
        }
        let mut k: usize = 0;
        while k < CELLS
            invariant
                k <= CELLS,
                self.cells@.len() == CELLS,
                forall|j: int| 0 <= j < k ==> self.cells@[j] == Pixel::blank(),
                forall|j: int| k <= j < CELLS ==> (#[trigger] self.cells@[j]).wf(),
            decreases CELLS - k,
        {
            put(&mut self.cells, k, Pixel { lit: false, phase: 0 });
            k += 1;
        }
    }

    /// Applies one decay tick to every pixel.
    pub fn decay(&mut self)
        ensures
            final(self)@ == decayed_screen(old(self)@),
    {
        proof {
            use_type_invariant(&*self);
        }
        let mut k: usize = 0;
        while k < CELLS
            invariant
                k <= CELLS,
                self.cells@.len() == CELLS,
                forall|j: int| 0 <= j < CELLS ==> (#[trigger] self.cells@[j]).wf(),
                forall|j: int| 0 <= j < k ==> self.cells@[j] == old(self).cells@[j].decayed(),
                forall|j: int| k <= j < CELLS ==> self.cells@[j] == old(self).cells@[j],
            decreases CELLS - k,
        {
            let pixel = self.cells[k].decay();
            put(&mut self.cells, k, pixel);
            k += 1;
        }
    }

    /// The pixel in column `x mod 64` of row `y mod 32`.
    pub fn pixel(&self, x: u8, y: u8) -> (p: Pixel)
        ensures
            p == self@[cell_index(x as int, y as int)],
            0 <= cell_index(x as int, y as int) < CELLS,
    {
        proof {
            use_type_invariant(self);
        }
        self.cells[(y as usize % HEIGHT) * WIDTH + x as usize % WIDTH]
    }

    /// Draws a sprite with its top left corner at `(x, y)`, one byte per row
    /// and the most significant bit leftmost, wrapping round the edges of the
    /// grid. Returns whether a lit pixel was put out. The sprite is no taller
    /// than the grid, so that no row of it falls on another.
    pub fn draw(&mut self, x: u8, y: u8, sprite: &Vec<u8>) -> (collision: bool)
        requires
            sprite@.len() <= HEIGHT,
        ensures
            final(self)@ == drawn(old(self)@, sprite@, x as int, y as int),
            collision == collides(old(self)@, sprite@, x as int, y as int),
    {
        proof {
            use_type_invariant(&*self);
        }
        let ghost before = self@;
        let ghost xi = x as int;
        let ghost yi = y as int;
        let mut collision = false;
        let mut i: usize = 0;
        while i < sprite.len()
            invariant
                i <= sprite@.len() <= HEIGHT,
                xi == x as int,
                yi == y as int,
                before.len() == CELLS,
                self.cells@.len() == CELLS,
                forall|k: int| 0 <= k < CELLS ==> (#[trigger] self.cells@[k]).wf(),
                forall|k: int|
                    0 <= k < CELLS ==> #[trigger] self.cells@[k] == partly_drawn(
                        before,
                        sprite@,
                        xi,
                        yi,
                        i as int,
                        0,
                        k,
                    ),
                collision == partly_collides(before, sprite@, xi, yi, i as int, 0),
            decreases sprite@.len() - i,
        {
            let row = (y as usize + i) % HEIGHT;
            let byte = sprite[i];
            let mut j: usize = 0;
            while j < 8
                invariant
                    j <= 8,
                    i < sprite@.len() <= HEIGHT,
                    xi == x as int,
                    yi == y as int,
                    row == (yi + i) % 32,
                    byte == sprite@[i as int],
                    before.len() == CELLS,
                    self.cells@.len() == CELLS,
                    forall|k: int| 0 <= k < CELLS ==> (#[trigger] self.cells@[k]).wf(),
                    forall|k: int|
                        0 <= k < CELLS ==> #[trigger] self.cells@[k] == partly_drawn(
                            before,
                            sprite@,
                            xi,
                            yi,
                            i as int,
                            j as int,
                            k,
                        ),
                    collision == partly_collides(before, sprite@, xi, yi, i as int, j as int),
                decreases 8 - j,
            {
                let col = (x as usize + j) % WIDTH;
                let offset = row * WIDTH + col;
                proof {
                    lemma_target_cell(xi, yi, i as int, j as int);
                }
                let bit = (byte >> ((7 - j) as u8)) & 1 == 1;
                let was = self.cells[offset];
                let now = was.blit(bit);
                put(&mut self.cells, offset, now);
                if was.lit && bit {
                    collision = true;
                }
                assert(put_out(before, sprite@, xi, yi, offset as int) == (was.lit && bit));
                j += 1;
            }
            i += 1;
        }
        collision
    }

    /// Renders the display into its frame buffer and returns the buffer: four
    /// bytes per pixel in row-major order. The display itself is unchanged.
    pub fn render(&mut self) -> (frame: &[u8])
        ensures
            frame@ == frame_of(old(self)@),
            final(self)@ == old(self)@,
    {
        proof {
            use_type_invariant(&*self);
        }
        let mut buffer: Vec<u8> = Vec::new();
        let mut k: usize = 0;
        while k < CELLS
            invariant
                k <= CELLS,
                self.cells@.len() == CELLS,
                self.cells@ == old(self).cells@,
                buffer@.len() == 4 * k,
                forall|b: int| 0 <= b < 4 * k ==> buffer@[b] == frame_of(self.cells@)[b],
            decreases CELLS - k,
        {
            let pixel = self.cells[k];
            let luma = pixel.luma_value();
            buffer.push(luma);
            buffer.push(luma);
            buffer.push(luma);
            buffer.push(pixel.opacity_value());
            k += 1;
        }
        self.frame = buffer;
        self.frame.as_slice()
    }
}

} // verus!
