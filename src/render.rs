use rayon::iter::IndexedParallelIterator;
use rayon::iter::IntoParallelIterator;
use rayon::iter::ParallelIterator;
use vstd::prelude::*;

verus! {

/// Multiplier from the base image size of 100 pixels to the rendered size.
pub const SCALE: usize = 4;

/// Width of the rendered image, in pixels.
pub const WIDTH: usize = 100 * SCALE;

/// Height of the rendered image, in pixels.
pub const HEIGHT: usize = 100 * SCALE;

/// Number of independent camera rays averaged into one pixel of one pass.
pub const SAMPLES_PER_PIXEL: u32 = 35;

/// Odd multiplier that spreads consecutive pass seeds over the whole range.
pub const SEED_SPREAD: u64 = 0x9E37_79B9_7F4A_7C15;

/// Row-major position of pixel `(x, y)`.
pub open spec fn pixel_index(x: int, y: int) -> int {
    y * WIDTH + x
}

/// Seed of the random stream that pixel `(x, y)` samples with during the pass
/// seeded by `pass_seed`. It depends on nothing else, so a pass rendered twice
/// with one seed draws the same numbers at every pixel, in whatever order the
/// pixels are computed.
pub fn pixel_seed(pass_seed: u64, x: usize, y: usize) -> (s: u64)
    requires
        x < WIDTH,
        y < HEIGHT,
    ensures
        s == pass_seed.wrapping_mul(SEED_SPREAD) ^ (pixel_index(x as int, y as int) as u64),
{
    pass_seed.wrapping_mul(SEED_SPREAD) ^ ((y * WIDTH + x) as u64)
}

/// Within one pass no two pixels share a random stream.
pub proof fn lemma_pixel_seeds_distinct(pass_seed: u64, x1: usize, y1: usize, x2: usize, y2: usize)
    requires
        x1 < WIDTH,
        y1 < HEIGHT,
        x2 < WIDTH,
        y2 < HEIGHT,
        x1 != x2 || y1 != y2,
    ensures
        pass_seed.wrapping_mul(SEED_SPREAD) ^ (pixel_index(x1 as int, y1 as int) as u64)
            != pass_seed.wrapping_mul(SEED_SPREAD) ^ (pixel_index(x2 as int, y2 as int) as u64),
{
    let m = pass_seed.wrapping_mul(SEED_SPREAD);
    let i1 = pixel_index(x1 as int, y1 as int) as u64;
    let i2 = pixel_index(x2 as int, y2 as int) as u64;
    let first = pixel_index(x1 as int, y1 as int);
    let second = pixel_index(x2 as int, y2 as int);
    assert(first != second) by (nonlinear_arith)
        requires
            first == y1 * WIDTH + x1,
            second == y2 * WIDTH + x2,
            x1 < WIDTH,
            x2 < WIDTH,
            x1 != x2 || y1 != y2,
    ;
    assert(0 <= first < HEIGHT * WIDTH && 0 <= second < HEIGHT * WIDTH) by (nonlinear_arith)
        requires
            first == y1 * WIDTH + x1,
            second == y2 * WIDTH + x2,
            x1 < WIDTH,
            x2 < WIDTH,
            y1 < HEIGHT,
            y2 < HEIGHT,
    ;
    assert(m ^ i1 != m ^ i2) by (bit_vector)
        requires
            i1 != i2,
    ;
}

/// Relies on rayon's `IndexedParallelIterator::collect_into_vec` over
/// `(0..n).into_par_iter().map(f)`: the target vector is cleared, and the
/// exact-length collect writes the item of index `i` into slot `i`, so the
/// result holds, in index order, what `f` returned on each `i < n`.
#[verifier::external_body]
fn par_map_indices<P: Send, F: Fn(usize) -> P + Sync>(n: usize, f: &F) -> (out: Vec<P>)
    requires
        forall|i: usize| i < n ==> f.requires((i,)),
    ensures
        out@.len() == n,
        forall|i: int| 0 <= i < n ==> f.ensures((i as usize,), #[trigger] out@[i]),
{
    let mut out = Vec::new();
    (0..n).into_par_iter().map(f).collect_into_vec(&mut out);
    out
}

/// One row-major pass over the `WIDTH` x `HEIGHT` pixel grid: row `y`, column
/// `x` holds what `shade` returned on `(x, y)`. Every pixel is computed on its
/// own, the pixels of a row in parallel; no pixel sees another's result.
pub fn render_pass<P: Send, F: Fn(usize, usize) -> P + Sync>(shade: &F) -> (screen: Vec<Vec<P>>)
    requires
        forall|x: usize, y: usize| x < WIDTH && y < HEIGHT ==> shade.requires((x, y)),
    ensures
        screen@.len() == HEIGHT,
        forall|y: int| 0 <= y < HEIGHT ==> (#[trigger] screen@[y])@.len() == WIDTH,
        forall|x: int, y: int|
            0 <= x < WIDTH && 0 <= y < HEIGHT ==> shade.ensures(
                (x as usize, y as usize),
                #[trigger] screen@[y]@[x],
            ),
{
    let mut screen: Vec<Vec<P>> = Vec::new();
    let mut y: usize = 0;
    while y < HEIGHT
        invariant
            y <= HEIGHT,
            screen@.len() == y,
            forall|x: usize, y: usize| x < WIDTH && y < HEIGHT ==> shade.requires((x, y)),
            forall|r: int| 0 <= r < y ==> (#[trigger] screen@[r])@.len() == WIDTH,
            forall|x: int, r: int|
                0 <= x < WIDTH && 0 <= r < y ==> shade.ensures(
                    (x as usize, r as usize),
                    #[trigger] screen@[r]@[x],
                ),
        decreases HEIGHT - y,
    {
        let row_y = y;
        let pixel = |x: usize| -> (c: P)
            requires
                x < WIDTH,
            ensures
                shade.ensures((x, row_y), c),
            { shade(x, row_y) };
        let row = par_map_indices(WIDTH, &pixel);
        assert forall|x: int| 0 <= x < WIDTH implies shade.ensures(
            (x as usize, row_y),
            row@[x],
        ) by {
            assert(pixel.ensures((x as usize,), row@[x]));
        }
        screen.push(row);
        y = y + 1;
    }
    screen
}

} // verus!
