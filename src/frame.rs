use vstd::prelude::*;

verus! {

/// The output row that scanline `j` lands on: scanlines are numbered from the bottom of the
/// image, rows of the buffer from the top.
pub open spec fn row_of(height: nat, j: nat) -> nat {
    (height - 1 - j) as nat
}

/// Position of the pixel at `row`, `col` in a row-major buffer `width` pixels wide.
pub open spec fn index_of(width: nat, row: nat, col: nat) -> nat {
    row * width + col
}

/// A row-major buffer of packed pixels, `width` by `height`.
pub struct Framebuffer {
    width: usize,
    height: usize,
    pixels: Vec<u32>,
}

/// A row and column inside the buffer give a position inside it.
pub proof fn lemma_index_in_bounds(width: nat, height: nat, row: nat, col: nat)
    requires
        row < height,
        col < width,
    ensures
        row * width <= index_of(width, row, col) < width * height,
{
    assert(row * width + col < width * height) by (nonlinear_arith)
        requires
            row < height,
            col < width,
    ;
}

/// Two positions of a row-major buffer coincide only for the same row and column.
pub proof fn lemma_index_distinct(width: nat, r1: nat, c1: nat, r2: nat, c2: nat)
    requires
        c1 < width,
        c2 < width,
        r1 != r2 || c1 != c2,
    ensures
        index_of(width, r1, c1) != index_of(width, r2, c2),
{
    if r1 < r2 {
        assert(r1 * width + c1 < r2 * width + c2) by (nonlinear_arith)
            requires
                r1 < r2,
                c1 < width,
        ;
    } else if r2 < r1 {
        assert(r2 * width + c2 < r1 * width + c1) by (nonlinear_arith)
            requires
                r2 < r1,
                c2 < width,
        ;
    }
}

impl Framebuffer {
    pub closed spec fn spec_width(&self) -> nat {
        self.width as nat
    }

    pub closed spec fn spec_height(&self) -> nat {
        self.height as nat
    }

    /// The pixels, row after row from the top.
    pub closed spec fn view(&self) -> Seq<u32> {
        self.pixels@
    }

    /// The buffer holds exactly `width * height` pixels.
    pub open spec fn wf(&self) -> bool {
        &&& self.spec_width() * self.spec_height() <= usize::MAX
        &&& self@.len() == self.spec_width() * self.spec_height()
    }

    /// The pixel at `row`, `col`, counting rows from the top.
    pub open spec fn spec_pixel(&self, row: nat, col: nat) -> u32 {
        self@[index_of(self.spec_width(), row, col) as int]
    }

    /// A buffer of `width` by `height` pixels, all zero.
    pub fn new(width: usize, height: usize) -> (fb: Framebuffer)
        requires
            width * height <= usize::MAX,
        ensures
            fb.wf(),
            fb.spec_width() == width,
            fb.spec_height() == height,
            fb@ == Seq::new((width * height) as nat, |k: int| 0u32),
    {
        let n: usize = width * height;
        let mut pixels: Vec<u32> = Vec::with_capacity(n);
        let mut k: usize = 0;
        while k < n
            invariant
                k <= n,
                pixels@ == Seq::new(k as nat, |x: int| 0u32),
            decreases n - k,
        {
            pixels.push(0);
            k = k + 1;
            assert(pixels@ =~= Seq::new(k as nat, |x: int| 0u32));
        }
        Framebuffer { width, height, pixels }
    }

    pub fn width(&self) -> (w: usize)
        ensures
            w == self.spec_width(),
    {
        self.width
    }

    pub fn height(&self) -> (h: usize)
        ensures
            h == self.spec_height(),
    {
        self.height
    }

    /// The pixel at `row`, `col`, counting rows from the top.
    pub fn pixel(&self, row: usize, col: usize) -> (p: u32)
        requires
            self.wf(),
            row < self.spec_height(),
            col < self.spec_width(),
        ensures
            p == self.spec_pixel(row as nat, col as nat),
    {
        proof {
            lemma_index_in_bounds(self.width as nat, self.height as nat, row as nat, col as nat);
        }
        self.pixels[row * self.width + col]
    }

    /// Writes the pixel of scanline `j` (counted from the bottom) at column `i`: it lands on
    /// row `height - 1 - j` of the buffer, and no other pixel changes.
    pub fn set_scanline_pixel(&mut self, j: usize, i: usize, value: u32)
        requires
            old(self).wf(),
            j < old(self).spec_height(),
            i < old(self).spec_width(),
        ensures
            final(self).wf(),
            final(self).spec_width() == old(self).spec_width(),
            final(self).spec_height() == old(self).spec_height(),
            final(self)@ == old(self)@.update(
                index_of(
                    old(self).spec_width(),
                    row_of(old(self).spec_height(), j as nat),
                    i as nat,
                ) as int,
                value,
            ),
    {
        let row: usize = self.height - 1 - j;
        proof {
            lemma_index_in_bounds(self.width as nat, self.height as nat, row as nat, i as nat);
        }
        let k: usize = row * self.width + i;
        self.pixels.set(k, value);
    }

    /// The pixels, row after row from the top.
    pub fn into_pixels(self) -> (v: Vec<u32>)
        ensures
            v@ == self@,
    {
        self.pixels
    }
}

} // verus!
