use vstd::prelude::*;
use crate::frame::{Framebuffer, row_of, lemma_index_distinct, lemma_index_in_bounds};

verus! {

/// Fills a `width` by `height` buffer: scanlines go from `height - 1` down to 0, pixels of a
/// scanline from left to right, and the value `shade(i, j)` of column `i` on scanline `j`
/// lands on row `height - 1 - j` of the buffer.
pub fn render<F: Fn(usize, usize) -> u32>(width: usize, height: usize, shade: F) -> (fb:
    Framebuffer)
    requires
        width * height <= usize::MAX,
        forall|i: usize, j: usize| i < width && j < height ==> shade.requires((i, j)),
    ensures
        fb.wf(),
        fb.spec_width() == width,
        fb.spec_height() == height,
        forall|i: usize, j: usize|
            i < width && j < height ==> shade.ensures(
                (i, j),
                #[trigger] fb.spec_pixel(row_of(height as nat, j as nat), i as nat),
            ),
{
    let mut fb = Framebuffer::new(width, height);
    let mut n: usize = height;
    while n > 0
        invariant
            n <= height,
            fb.wf(),
            fb.spec_width() == width,
            fb.spec_height() == height,
            forall|i: usize, j: usize| i < width && j < height ==> shade.requires((i, j)),
            forall|i: usize, j: usize|
                i < width && n <= j < height ==> shade.ensures(
                    (i, j),
                    #[trigger] fb.spec_pixel(row_of(height as nat, j as nat), i as nat),
                ),
        decreases n,
    {
        let j: usize = n - 1;
        let mut i: usize = 0;
        while i < width
            invariant
                j < height,
                n == j + 1,
                i <= width,
                fb.wf(),
                fb.spec_width() == width,
                fb.spec_height() == height,
                forall|i: usize, j: usize| i < width && j < height ==> shade.requires((i, j)),
                forall|ii: usize, jj: usize|
                    ((ii < width && n <= jj < height) || (ii < i && jj == j)) ==> shade.ensures(
                        (ii, jj),
                        #[trigger] fb.spec_pixel(row_of(height as nat, jj as nat), ii as nat),
                    ),
            decreases width - i,
        {
            let p = shade(i, j);
            let ghost before = fb;
            fb.set_scanline_pixel(j, i, p);
            assert forall|ii: usize, jj: usize|
                ((ii < width && n <= jj < height) || (ii < i + 1 && jj == j)) implies shade.ensures(
                    (ii, jj),
                    #[trigger] fb.spec_pixel(row_of(height as nat, jj as nat), ii as nat),
                ) by {
                lemma_index_in_bounds(
                    width as nat,
                    height as nat,
                    row_of(height as nat, jj as nat),
                    ii as nat,
                );
                lemma_index_in_bounds(
                    width as nat,
                    height as nat,
                    row_of(height as nat, j as nat),
                    i as nat,
                );
                if ii != i || jj != j {
                    lemma_index_distinct(
                        width as nat,
                        row_of(height as nat, jj as nat),
                        ii as nat,
                        row_of(height as nat, j as nat),
                        i as nat,
                    );
                    assert(fb.spec_pixel(row_of(height as nat, jj as nat), ii as nat)
                        == before.spec_pixel(row_of(height as nat, jj as nat), ii as nat));
                }
            }
            i = i + 1;
        }
        n = j;
    }
    fb
}

} // verus!
