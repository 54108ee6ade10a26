use vstd::prelude::*;
use crate::panel::GlassState;

verus! {

/// Blue and alpha bytes written with every pixel.
pub const BLUE: u8 = 120;

pub const ALPHA: u8 = 255;

/// Sampling stride: every pixel when idle, every second pixel on both axes
/// while a drag is under way.
pub open spec fn step_of(dragging: bool) -> int {
    if dragging {
        2
    } else {
        1
    }
}

/// How many samples cover `n` pixels at stride `step`.
pub open spec fn cells(n: int, step: int) -> int {
    (n + step - 1) / step
}

/// Number of samples in a frame of `width` by `height` pixels.
pub open spec fn sample_count(width: int, height: int, dragging: bool) -> int {
    cells(width, step_of(dragging)) * cells(height, step_of(dragging))
}

/// The pixel at which sample `i` is taken; samples run row by row.
pub open spec fn grid_point(i: int, width: int, dragging: bool) -> (int, int) {
    let s = step_of(dragging);
    let cols = cells(width, s);
    ((i % cols) * s, (i / cols) * s)
}

/// Index of the sample whose value pixel `(x, y)` carries: the one taken at
/// the top left corner of its `step` by `step` block.
pub open spec fn sample_of(x: int, y: int, width: int, dragging: bool) -> int {
    let s = step_of(dragging);
    (y / s) * cells(width, s) + x / s
}

pub open spec fn abs(v: int) -> int {
    if v < 0 {
        -v
    } else {
        v
    }
}

/// The largest absolute displacement on either axis, zero for no samples.
pub open spec fn peak(s: Seq<(i64, i64)>) -> int
    decreases s.len(),
{
    if s.len() == 0 {
        0
    } else {
        let rest = peak(s.drop_last());
        let here = if abs(s.last().0 as int) > abs(s.last().1 as int) {
            abs(s.last().0 as int)
        } else {
            abs(s.last().1 as int)
        };
        if rest > here {
            rest
        } else {
            here
        }
    }
}

/// The scale a frame is normalized by, `num / den` in the samples' unit:
/// 0.6 times the largest absolute displacement.
#[derive(Clone, Copy, Debug, PartialEq, Eq, Structural)]
pub struct Scale {
    pub num: u128,
    pub den: u128,
}

/// The channel byte for displacement `v` against the scale `num / den`:
/// `(v / scale + 0.5) * 255`, rounded down and clamped to `[0, 255]`, written
/// over integers as `(510 v den + 255 num) / (2 num)`. A zero scale (a flat
/// field) gives the midpoint 127.
pub open spec fn channel(v: int, num: int, den: int) -> int {
    if num == 0 {
        127
    } else {
        let q = (510 * v * den + 255 * num) / (2 * num);
        if q < 0 {
            0
        } else if q > 255 {
            255
        } else {
            q
        }
    }
}

/// How many pixels get written: the whole frame, or as many whole pixels as
/// the buffer holds if it is shorter.
pub open spec fn pixels_written(width: int, height: int, len: int) -> int {
    if len / 4 < width * height {
        len / 4
    } else {
        width * height
    }
}

/// Byte `i` of the encoded frame: pixel `i / 4` in row-major order, with
/// red and green from its sample's displacement, then blue and alpha.
pub open spec fn frame_byte(
    samples: Seq<(i64, i64)>,
    width: int,
    dragging: bool,
    num: int,
    den: int,
    i: int,
) -> int {
    let p = i / 4;
    let sample = samples[sample_of(p % width, p / width, width, dragging)];
    if i % 4 == 0 {
        channel(sample.0 as int, num, den)
    } else if i % 4 == 1 {
        channel(sample.1 as int, num, den)
    } else if i % 4 == 2 {
        BLUE as int
    } else {
        ALPHA as int
    }
}

proof fn lemma_cells(n: int, s: int)
    requires
        n >= 0,
        s == 1 || s == 2,
    ensures
        cells(n, s) >= 0,
        forall|x: int| 0 <= x < n ==> #[trigger] (x / s) < cells(n, s),
        forall|c: int| 0 <= c < cells(n, s) ==> #[trigger] (c * s) < n,
{
}

proof fn lemma_sample_in_range(x: int, y: int, width: int, height: int, dragging: bool)
    requires
        0 <= x < width,
        0 <= y < height,
    ensures
        0 <= sample_of(x, y, width, dragging) < sample_count(width, height, dragging),
{
    let s = step_of(dragging);
    lemma_cells(width, s);
    lemma_cells(height, s);
    let cols = cells(width, s);
    let rows = cells(height, s);
    assert(x / s < cols);
    assert(y / s < rows);
    let a = y / s;
    let b = x / s;
    assert(0 <= a * cols + b < rows * cols) by (nonlinear_arith)
        requires
            0 <= a < rows,
            0 <= b < cols,
    ;
    assert(rows * cols == cols * rows) by (nonlinear_arith);
}

proof fn lemma_pixel_in_frame(p: int, width: int, height: int)
    requires
        0 <= p < width * height,
        width > 0,
    ensures
        0 <= p % width < width,
        0 <= p / width < height,
{
    assert(p / width < height) by (nonlinear_arith)
        requires
            0 <= p < width * height,
            width > 0,
    ;
}

/// While dragging, the pixels of each 2 by 2 block share one sample, taken
/// at the block's top left corner; when idle each pixel has its own sample,
/// taken at that pixel.
pub proof fn lemma_block_replication(x: int, y: int, width: int, height: int, dragging: bool)
    requires
        0 <= x < width,
        0 <= y < height,
    ensures
        grid_point(sample_of(x, y, width, dragging), width, dragging) == (
            x - x % step_of(dragging),
            y - y % step_of(dragging),
        ),
        !dragging ==> sample_of(x, y, width, dragging) == y * width + x,
        dragging ==> forall|x2: int, y2: int|
            x2 / 2 == x / 2 && y2 / 2 == y / 2 ==> #[trigger] sample_of(x2, y2, width, dragging)
                == sample_of(x, y, width, dragging),
{
    let s = step_of(dragging);
    let cols = cells(width, s);
    lemma_cells(width, s);
    let a = y / s;
    let b = x / s;
    assert(b < cols);
    assert((a * cols + b) % cols == b && (a * cols + b) / cols == a) by (nonlinear_arith)
        requires
            0 <= a,
            0 <= b < cols,
    ;
}

/// While dragging, the pixels of each 2 by 2 block are encoded to the same
/// bytes, channel by channel.
pub proof fn lemma_block_pixels_equal(
    samples: Seq<(i64, i64)>,
    width: int,
    height: int,
    num: int,
    den: int,
    x: int,
    y: int,
    x2: int,
    y2: int,
    k: int,
)
    requires
        0 <= x < width,
        0 <= x2 < width,
        0 <= y < height,
        0 <= y2 < height,
        x / 2 == x2 / 2,
        y / 2 == y2 / 2,
        0 <= k < 4,
    ensures
        frame_byte(samples, width, true, num, den, 4 * (y * width + x) + k) == frame_byte(
            samples,
            width,
            true,
            num,
            den,
            4 * (y2 * width + x2) + k,
        ),
{
    lemma_pixel_coordinates(x, y, width);
    lemma_pixel_coordinates(x2, y2, width);
    lemma_block_replication(x, y, width, height, true);
    assert(sample_of(x2, y2, width, true) == sample_of(x, y, width, true));
}

proof fn lemma_pixel_coordinates(x: int, y: int, width: int)
    requires
        0 <= x < width,
        0 <= y,
    ensures
        (4 * (y * width + x) + 0) / 4 == y * width + x,
        (4 * (y * width + x) + 1) / 4 == y * width + x,
        (4 * (y * width + x) + 2) / 4 == y * width + x,
        (4 * (y * width + x) + 3) / 4 == y * width + x,
        (y * width + x) % width == x,
        (y * width + x) / width == y,
{
    assert((y * width + x) % width == x && (y * width + x) / width == y) by (nonlinear_arith)
        requires
            0 <= x < width,
            0 <= y,
    ;
}

/// The sampling stride for a drag state.
pub fn sample_step(dragging: bool) -> (r: usize)
    ensures
        r == step_of(dragging),
{
    if dragging {
        2
    } else {
        1
    }
}

/// Whether the samples of a frame can be counted in a `usize`, as
/// `sample_points` requires.
pub fn sample_count_fits(width: u32, height: u32, dragging: bool) -> (r: bool)
    ensures
        r == (sample_count(width as int, height as int, dragging) <= usize::MAX),
{
    let s = sample_step(dragging) as u64;
    let cols: u64 = if s == 1 {
        width as u64
    } else {
        width as u64 / 2 + width as u64 % 2
    };
    let rows: u64 = if s == 1 {
        height as u64
    } else {
        height as u64 / 2 + height as u64 % 2
    };
    assert(cols * rows <= u32::MAX * u32::MAX) by (nonlinear_arith)
        requires
            cols <= u32::MAX,
            rows <= u32::MAX,
    ;
    cols * rows <= usize::MAX as u64
}

/// The pixels at which the displacement field is sampled for a frame, row by
/// row: every pixel when idle, every second one on both axes while dragging.
pub fn sample_points(width: u32, height: u32, dragging: bool) -> (r: Vec<(u32, u32)>)
    requires
        sample_count(width as int, height as int, dragging) <= usize::MAX,
    ensures
        r@.len() == sample_count(width as int, height as int, dragging),
        forall|i: int|
            0 <= i < r@.len() ==> (#[trigger] r@[i].0 as int, r@[i].1 as int) == grid_point(
                i,
                width as int,
                dragging,
            ),
{
    let s = sample_step(dragging);
    let cols = cells_of(width as usize, s);
    let rows = cells_of(height as usize, s);
    proof {
        lemma_cells(width as int, s as int);
        lemma_cells(height as int, s as int);
        assert(cols * rows == sample_count(width as int, height as int, dragging));
    }
    let mut points: Vec<(u32, u32)> = Vec::new();
    let mut row: usize = 0;
    while row < rows
        invariant
            row <= rows,
            cols == cells(width as int, s as int),
            rows == cells(height as int, s as int),
            s == step_of(dragging),
            cols * rows <= usize::MAX,
            points@.len() == row * cols,
            forall|i: int|
                0 <= i < points@.len() ==> (#[trigger] points@[i].0 as int, points@[i].1 as int)
                    == grid_point(i, width as int, dragging),
        decreases rows - row,
    {
        assert(row * s < height) by {
            lemma_cells(height as int, s as int);
        }
        assert((row + 1) * cols <= cols * rows) by (nonlinear_arith)
            requires
                row < rows,
        ;
        let mut col: usize = 0;
        while col < cols
            invariant
                row < rows,
                col <= cols,
                cols == cells(width as int, s as int),
                rows == cells(height as int, s as int),
                s == step_of(dragging),
                row * s < height,
                (row + 1) * cols <= usize::MAX,
                points@.len() == row * cols + col,
                forall|i: int|
                    0 <= i < points@.len() ==> (#[trigger] points@[i].0 as int, points@[i].1 as int)
                        == grid_point(i, width as int, dragging),
            decreases cols - col,
        {
            assert(col * s < width) by {
                lemma_cells(width as int, s as int);
            }
            proof {
                let i = row * cols + col;
                assert(i % (cols as int) == col && i / (cols as int) == row) by (nonlinear_arith)
                    requires
                        i == row * cols + col,
                        col < cols,
                ;
                assert(row * cols + col < (row + 1) * cols) by (nonlinear_arith)
                    requires
                        col < cols,
                ;
            }
            points.push(((col * s) as u32, (row * s) as u32));
            col = col + 1;
        }
        assert(row * cols + cols == (row + 1) * cols) by (nonlinear_arith);
        row = row + 1;
    }
    assert(row * cols == cols * rows) by (nonlinear_arith)
        requires
            row == rows,
    ;
    points
}

/// `cells` computed on machine integers, for the strides in use.
fn cells_of(n: usize, s: usize) -> (r: usize)
    requires
        s == 1 || s == 2,
    ensures
        r == cells(n as int, s as int),
{
    if s == 1 {
        n
    } else {
        n / 2 + n % 2
    }
}

/// The largest absolute displacement among the samples.
fn peak_of(samples: &Vec<(i64, i64)>) -> (r: u64)
    ensures
        r == peak(samples@),
{
    let mut best: u64 = 0;
    let mut i: usize = 0;
    while i < samples.len()
        invariant
            i <= samples@.len(),
            best == peak(samples@.subrange(0, i as int)),
        decreases samples@.len() - i,
    {
        let (dx, dy) = samples[i];
        let ax: u64 = if dx < 0 {
            (-(dx as i128)) as u64
        } else {
            dx as u64
        };
        let ay: u64 = if dy < 0 {
            (-(dy as i128)) as u64
        } else {
            dy as u64
        };
        let here = if ax > ay {
            ax
        } else {
            ay
        };
        proof {
            let next = samples@.subrange(0, i + 1);
            assert(next.drop_last() =~= samples@.subrange(0, i as int));
            assert(next.last() == samples@[i as int]);
        }
        if here > best {
            best = here;
        }
        i = i + 1;
    }
    assert(samples@.subrange(0, samples@.len() as int) =~= samples@);
    best
}

/// `channel` against the scale `3 peak / 5`, computed on machine integers.
fn channel_of(v: i64, peak: u64) -> (r: u8)
    ensures
        r == channel(v as int, 3 * peak as int, 5),
{
    if peak == 0 {
        127
    } else {
        let num: i128 = 2550 * (v as i128) + 765 * (peak as i128);
        let den: i128 = 6 * (peak as i128);
        if num < 0 {
            assert(num / den < 0) by (nonlinear_arith)
                requires
                    num < 0,
                    den > 0,
            ;
            0
        } else {
            let q: i128 = num / den;
            if q > 255 {
                255
            } else {
                q as u8
            }
        }
    }
}

/// Encodes a frame of displacement samples as RGBA bytes into `output`.
/// `samples` holds one `(dx, dy)` per point of `sample_points` for the
/// state's drag flag, in any fixed-point unit; each pixel takes the sample of
/// its block. Red and green map each displacement against the normalization
/// scale, 0.6 times the largest absolute displacement; blue is 120 and alpha
/// 255. A buffer shorter than the frame is filled as far as whole pixels go;
/// bytes after the frame stay as they were. Returns the normalization scale,
/// in the samples' unit.
pub fn compute_shader_with_state(
    state: &GlassState,
    width: u32,
    height: u32,
    samples: &Vec<(i64, i64)>,
    output: &mut Vec<u8>,
) -> (r: Scale)
    requires
        samples@.len() == sample_count(width as int, height as int, state@.dragging),
    ensures
        r.num == 3 * peak(samples@),
        r.den == 5,
        final(output)@.len() == old(output)@.len(),
        width == 0 || height == 0 ==> r.num == 0 && final(output)@ == old(output)@,
        forall|i: int|
            0 <= i < 4 * pixels_written(width as int, height as int, old(output)@.len() as int)
                ==> #[trigger] final(output)@[i] as int == frame_byte(
                samples@,
                width as int,
                state@.dragging,
                r.num as int,
                r.den as int,
                i,
            ),
        forall|i: int|
            4 * pixels_written(width as int, height as int, old(output)@.len() as int) <= i
                < old(output)@.len() ==> #[trigger] final(output)@[i] == old(output)@[i],
{
    let dragging = state.is_dragging();
    let s = sample_step(dragging);
    let max = peak_of(samples);
    let w: usize = width as usize;
    let cols = cells_of(w, s);
    assert(width * height <= u32::MAX * u32::MAX) by (nonlinear_arith)
        requires
            width <= u32::MAX,
            height <= u32::MAX,
    ;
    let total: u64 = width as u64 * height as u64;
    let len0 = output.len();
    let room: usize = len0 / 4;
    let count: usize = if (room as u64) < total {
        room
    } else {
        total as usize
    };
    assert(count == pixels_written(width as int, height as int, output@.len() as int));
    let ghost before = output@;
    let mut p: usize = 0;
    while p < count
        invariant
            p <= count,
            count == pixels_written(width as int, height as int, before.len() as int),
            count <= width * height,
            4 * count <= before.len(),
            before.len() == len0,
            w == width,
            s == step_of(dragging),
            dragging == state@.dragging,
            cols == cells(width as int, s as int),
            max == peak(samples@),
            samples@.len() == sample_count(width as int, height as int, dragging),
            output@.len() == before.len(),
            forall|i: int|
                0 <= i < 4 * p ==> #[trigger] output@[i] as int == frame_byte(
                    samples@,
                    width as int,
                    dragging,
                    3 * max as int,
                    5,
                    i,
                ),
            forall|i: int| 4 * p <= i < before.len() ==> #[trigger] output@[i] == before[i],
        decreases count - p,
    {
        let x = p % w;
        let y = p / w;
        proof {
            lemma_pixel_in_frame(p as int, width as int, height as int);
            lemma_sample_in_range(x as int, y as int, width as int, height as int, dragging);
        }
        assert((y / s) * cols + x / s == sample_of(x as int, y as int, width as int, dragging));
        let n = samples.len();
        assert((y / s) * cols + x / s < n);
        let k = (y / s) * cols + x / s;
        let (dx, dy) = samples[k];
        let red = channel_of(dx, max);
        let green = channel_of(dy, max);
        let base = 4 * p;
        output.set(base, red);
        output.set(base + 1, green);
        output.set(base + 2, BLUE);
        output.set(base + 3, ALPHA);
        proof {
            assert forall|i: int| base <= i < base + 4 implies #[trigger] output@[i] as int
                == frame_byte(samples@, width as int, dragging, 3 * max as int, 5, i) by {
                assert(i / 4 == p);
                assert(i % 4 == i - base);
            }
        }
        p = p + 1;
    }
    proof {
        if width == 0 || height == 0 {
            let s2 = step_of(dragging);
            assert(cells(0, s2) == 0);
            assert(samples@.len() == 0) by (nonlinear_arith)
                requires
                    samples@.len() == cells(width as int, s2) * cells(height as int, s2),
                    cells(width as int, s2) == 0 || cells(height as int, s2) == 0,
            ;
            assert(width * height == 0) by (nonlinear_arith)
                requires
                    width == 0 || height == 0,
            ;
            assert(output@ =~= before);
        }
    }
    Scale { num: 3 * (max as u128), den: 5 }
}

} // verus!
