//! Bayer mosaics: unpacking the samples of a decoded plane and choosing, for each
//! pixel and channel, the samples that reconstruct it.

use super::decode::pattern_name;
use super::dng::{pattern_of, CameraRawCfaPattern};
use vstd::prelude::*;

verus! {

/// Pixel formats of Bayer planes.
#[derive(Debug, Clone, Copy, PartialEq, Eq, Structural)]
pub enum BayerPixelFormat {
    Rggb8,
    Rggb16le,
    Bggr8,
    Bggr16le,
    Gbrg8,
    Gbrg16le,
    Grbg8,
    Grbg16le,
}

/// The colour filter of a Bayer pixel format.
pub fn cfa_pattern_from_pixel(format: BayerPixelFormat) -> (r: CameraRawCfaPattern)
    ensures
        r == (match format {
            BayerPixelFormat::Rggb8 | BayerPixelFormat::Rggb16le => CameraRawCfaPattern::Rggb,
            BayerPixelFormat::Bggr8 | BayerPixelFormat::Bggr16le => CameraRawCfaPattern::Bggr,
            BayerPixelFormat::Gbrg8 | BayerPixelFormat::Gbrg16le => CameraRawCfaPattern::Gbrg,
            BayerPixelFormat::Grbg8 | BayerPixelFormat::Grbg16le => CameraRawCfaPattern::Grbg,
        }),
        r is Rggb <==> format is Rggb8 || format is Rggb16le,
        r is Bggr <==> format is Bggr8 || format is Bggr16le,
        r is Gbrg <==> format is Gbrg8 || format is Gbrg16le,
        r is Grbg <==> format is Grbg8 || format is Grbg16le,
{
    match format {
        BayerPixelFormat::Rggb8 | BayerPixelFormat::Rggb16le => CameraRawCfaPattern::Rggb,
        BayerPixelFormat::Bggr8 | BayerPixelFormat::Bggr16le => CameraRawCfaPattern::Bggr,
        BayerPixelFormat::Gbrg8 | BayerPixelFormat::Gbrg16le => CameraRawCfaPattern::Gbrg,
        BayerPixelFormat::Grbg8 | BayerPixelFormat::Grbg16le => CameraRawCfaPattern::Grbg,
    }
}

/// Bytes of one sample of a Bayer pixel format.
pub open spec fn sample_bytes(format: BayerPixelFormat) -> nat {
    match format {
        BayerPixelFormat::Rggb8
        | BayerPixelFormat::Bggr8
        | BayerPixelFormat::Gbrg8
        | BayerPixelFormat::Grbg8 => 1,
        _ => 2,
    }
}

/// A decoded row that the plane does not hold in full.
#[derive(Debug, Clone, Copy, PartialEq, Eq, Structural)]
pub struct ShortBayerRow {
    pub row: usize,
    pub wide: bool,
}

/// Whether row `y` lies inside a plane of `len` bytes.
pub open spec fn row_fits(len: nat, stride: nat, width: nat, size: nat, y: nat) -> bool {
    y * stride + width * size <= len
}

/// The sample in column `x` of row `y`; two byte samples are little endian.
pub open spec fn sample_at(data: Seq<u8>, stride: nat, size: nat, x: int, y: int) -> u16 {
    let at = y * stride + x * size;
    if size == 1 {
        data[at] as u16
    } else {
        (data[at] + 256 * data[at + 1]) as u16
    }
}

/// Unpacks a Bayer plane row by row. Every sample keeps its integer value.
pub fn unpack_bayer(
    data: &[u8],
    stride: usize,
    width: u32,
    height: u32,
    format: BayerPixelFormat,
) -> (r: Result<Vec<u16>, ShortBayerRow>)
    ensures
        match r {
            Ok(samples) => {
                &&& forall|y: int|
                    0 <= y < height ==> #[trigger] row_fits(
                        data@.len(),
                        stride as nat,
                        width as nat,
                        sample_bytes(format),
                        y as nat,
                    )
                &&& samples@.len() == width * height
                &&& forall|x: int, y: int|
                    #![trigger sample_at(data@, stride as nat, sample_bytes(format), x, y)]
                    0 <= x < width && 0 <= y < height ==> samples@[y * width + x] == sample_at(
                        data@,
                        stride as nat,
                        sample_bytes(format),
                        x,
                        y,
                    )
            },
            Err(short) => {
                &&& short.wide == (sample_bytes(format) == 2)
                &&& short.row < height
                &&& !row_fits(
                    data@.len(),
                    stride as nat,
                    width as nat,
                    sample_bytes(format),
                    short.row as nat,
                )
                &&& forall|y: int|
                    0 <= y < short.row ==> #[trigger] row_fits(
                        data@.len(),
                        stride as nat,
                        width as nat,
                        sample_bytes(format),
                        y as nat,
                    )
            },
        },
{
    let size: usize = match format {
        BayerPixelFormat::Rggb8
        | BayerPixelFormat::Bggr8
        | BayerPixelFormat::Gbrg8
        | BayerPixelFormat::Grbg8 => 1,
        _ => 2,
    };
    let ghost sz = sample_bytes(format);
    let len: usize = data.len();
    let columns: usize = width as usize;
    let rows: usize = height as usize;
    let mut samples: Vec<u16> = Vec::new();
    let mut y: usize = 0;
    while y < rows
        invariant
            y <= rows,
            columns == width,
            rows == height,
            len == data@.len(),
            size == sz,
            sz == sample_bytes(format),
            size == 1 || size == 2,
            columns <= u32::MAX,
            samples@.len() == y * columns,
            forall|j: int|
                0 <= j < y ==> #[trigger] row_fits(
                    data@.len(),
                    stride as nat,
                    columns as nat,
                    sz,
                    j as nat,
                ),
            forall|i: int, j: int|
                #![trigger sample_at(data@, stride as nat, sz, i, j)]
                0 <= i < columns && 0 <= j < y ==> samples@[j * columns + i] == sample_at(
                    data@,
                    stride as nat,
                    sz,
                    i,
                    j,
                ),
        decreases rows - y,
    {
        assert(columns * sz >= 0 && y * stride >= 0) by (nonlinear_arith);
        let start: usize = match y.checked_mul(stride) {
            Some(start) => start,
            None => {
                assert(!row_fits(data@.len(), stride as nat, columns as nat, sz, y as nat));
                return Err(ShortBayerRow { row: y, wide: size == 2 });
            },
        };
        let span: usize = match columns.checked_mul(size) {
            Some(span) => span,
            None => {
                assert(!row_fits(data@.len(), stride as nat, columns as nat, sz, y as nat));
                return Err(ShortBayerRow { row: y, wide: size == 2 });
            },
        };
        if len < start || len - start < span {
            assert(!row_fits(data@.len(), stride as nat, columns as nat, sz, y as nat));
            return Err(ShortBayerRow { row: y, wide: size == 2 });
        }
        assert(row_fits(data@.len(), stride as nat, columns as nat, sz, y as nat));
        let mut x: usize = 0;
        while x < columns
            invariant
                x <= columns,
                y < rows,
                len == data@.len(),
                size == sz,
                size == 1 || size == 2,
                start == y * stride,
                span == columns * size,
                start + span <= data@.len(),
                samples@.len() == y * columns + x,
                forall|i: int, j: int|
                    #![trigger sample_at(data@, stride as nat, sz, i, j)]
                    0 <= i < columns && 0 <= j && (j < y || (j == y && i < x))
                        ==> samples@[j * columns
                        + i] == sample_at(data@, stride as nat, sz, i, j),
            decreases columns - x,
        {
            let ghost before = samples@;
            assert(columns * 1 == columns);
            let value: u16 = if size == 1 {
                data[start + x] as u16
            } else {
                assert(x * 2 + 2 <= columns * 2);
                data[start + x * 2] as u16 + 256 * (data[start + x * 2 + 1] as u16)
            };
            assert(value == sample_at(data@, stride as nat, sz, x as int, y as int));
            samples.push(value);
            assert forall|i: int, j: int|
                #![trigger sample_at(data@, stride as nat, sz, i, j)]
                0 <= i < columns && 0 <= j && (j < y || (j == y && i < x + 1)) implies samples@[j
                * columns + i] == sample_at(data@, stride as nat, sz, i, j) by {
                if j < y {
                    assert(j * columns + i < y * columns) by (nonlinear_arith)
                        requires
                            0 <= i < columns,
                            0 <= j < y,
                    ;
                    assert(0 <= j * columns) by (nonlinear_arith)
                        requires
                            0 <= j,
                            0 <= columns,
                    ;
                    assert(samples@[j * columns + i] == before[j * columns + i]);
                }
            }
            x = x + 1;
        }
        assert((y + 1) * columns == y * columns + columns) by (nonlinear_arith);
        y = y + 1;
    }
    assert(columns * rows == rows * columns) by (nonlinear_arith);
    Ok(samples)
}

/// Colour of one sample of a mosaic.
#[derive(Debug, Clone, Copy, PartialEq, Eq, Structural)]
pub enum CfaColor {
    Red,
    Green,
    Blue,
}

/// Colour of the sample in column `x` of row `y`.
pub open spec fn color_at(pattern: CameraRawCfaPattern, x: int, y: int) -> CfaColor {
    let even_row = y % 2 == 0;
    let even_column = x % 2 == 0;
    match pattern {
        CameraRawCfaPattern::Rggb => if even_row && even_column {
            CfaColor::Red
        } else if !even_row && !even_column {
            CfaColor::Blue
        } else {
            CfaColor::Green
        },
        CameraRawCfaPattern::Bggr => if even_row && even_column {
            CfaColor::Blue
        } else if !even_row && !even_column {
            CfaColor::Red
        } else {
            CfaColor::Green
        },
        CameraRawCfaPattern::Gbrg => if even_row == even_column {
            CfaColor::Green
        } else if even_row {
            CfaColor::Blue
        } else {
            CfaColor::Red
        },
        CameraRawCfaPattern::Grbg => if even_row == even_column {
            CfaColor::Green
        } else if even_row {
            CfaColor::Red
        } else {
            CfaColor::Blue
        },
    }
}

/// Colour of the sample in column `x` of row `y`.
pub fn cfa_color(pattern: CameraRawCfaPattern, x: usize, y: usize) -> (r: CfaColor)
    ensures
        r == color_at(pattern, x as int, y as int),
{
    let even_row = y % 2 == 0;
    let even_column = x % 2 == 0;
    match pattern {
        CameraRawCfaPattern::Rggb => if even_row && even_column {
            CfaColor::Red
        } else if !even_row && !even_column {
            CfaColor::Blue
        } else {
            CfaColor::Green
        },
        CameraRawCfaPattern::Bggr => if even_row && even_column {
            CfaColor::Blue
        } else if !even_row && !even_column {
            CfaColor::Red
        } else {
            CfaColor::Green
        },
        CameraRawCfaPattern::Gbrg => if even_row == even_column {
            CfaColor::Green
        } else if even_row {
            CfaColor::Blue
        } else {
            CfaColor::Red
        },
        CameraRawCfaPattern::Grbg => if even_row == even_column {
            CfaColor::Green
        } else if even_row {
            CfaColor::Red
        } else {
            CfaColor::Blue
        },
    }
}

/// Every two by two block of a mosaic has one red, two green and one blue sample:
/// of two samples side by side, and of two one above the other, exactly one is green.
pub proof fn green_alternates(pattern: CameraRawCfaPattern, x: int, y: int)
    ensures
        (color_at(pattern, x, y) == CfaColor::Green) != (color_at(pattern, x + 1, y)
            == CfaColor::Green),
        (color_at(pattern, x, y) == CfaColor::Green) != (color_at(pattern, x, y + 1)
            == CfaColor::Green),
        color_at(pattern, x, y) == CfaColor::Red ==> color_at(pattern, x + 1, y + 1)
            == CfaColor::Blue,
        color_at(pattern, x, y) == CfaColor::Blue ==> color_at(pattern, x + 1, y + 1)
            == CfaColor::Red,
{
}

/// How finely a mosaic is reconstructed.
#[derive(Debug, Clone, Copy, PartialEq, Eq, Structural)]
pub enum CameraRawDebayerQuality {
    /// Average of the neighbours of the wanted colour.
    Bilinear,
    /// As before, with green interpolated along the weaker gradient.
    EdgeAware,
}

/// Which samples reconstruct one channel of one pixel. Indices are into the
/// mosaic, row by row.
#[derive(Debug, Clone)]
pub enum Reconstruction {
    /// The sample of the pixel itself.
    Sample(usize),
    /// The mean of these samples, in this order; there is at least one.
    Mean(Vec<usize>),
    /// The mean of the pair with the smaller difference, the horizontal one where
    /// they are equal, or of the only pair.
    Gradient { horizontal: Option<(usize, usize)>, vertical: Option<(usize, usize)> },
}

/// Coordinate `c` moved by `d`, held inside `0..extent`.
pub open spec fn clamped(c: int, d: int, extent: int) -> int {
    if c + d < 0 {
        0
    } else if c + d > extent - 1 {
        extent - 1
    } else {
        c + d
    }
}

/// The eight neighbours of a pixel, row by row, with coordinates held inside the
/// mosaic: the `k`-th one in steps of `(dx, dy)`.
pub open spec fn neighbour_step(k: int) -> (int, int) {
    if k == 0 {
        (-1, -1)
    } else if k == 1 {
        (0, -1)
    } else if k == 2 {
        (1, -1)
    } else if k == 3 {
        (-1, 0)
    } else if k == 4 {
        (1, 0)
    } else if k == 5 {
        (-1, 1)
    } else if k == 6 {
        (0, 1)
    } else {
        (1, 1)
    }
}

/// Indices of those among the first `k` neighbours that have the wanted colour.
pub open spec fn neighbour_taps(
    width: int,
    height: int,
    x: int,
    y: int,
    pattern: CameraRawCfaPattern,
    wanted: CfaColor,
    k: nat,
) -> Seq<int>
    decreases k,
{
    if k == 0 {
        seq![]
    } else {
        let rest = neighbour_taps(width, height, x, y, pattern, wanted, (k - 1) as nat);
        let (dx, dy) = neighbour_step(k - 1);
        let nx = clamped(x, dx, width);
        let ny = clamped(y, dy, height);
        if color_at(pattern, nx, ny) == wanted {
            rest.push(ny * width + nx)
        } else {
            rest
        }
    }
}

/// Mathematical reading of a list of indices.
pub open spec fn indices(v: Seq<usize>) -> Seq<int> {
    Seq::new(v.len(), |i: int| v[i] as int)
}

fn clamp_step(c: usize, step: usize, extent: usize) -> (r: usize)
    requires
        c < extent,
        step <= 2,
    ensures
        r == clamped(c as int, step - 1, extent as int),
        r < extent,
{
    if step == 0 {
        if c == 0 {
            0
        } else {
            c - 1
        }
    } else if step == 1 {
        c
    } else if c == extent - 1 {
        c
    } else {
        c + 1
    }
}

proof fn lemma_index_inside(x: int, y: int, width: int, height: int)
    requires
        0 <= x < width,
        0 <= y < height,
    ensures
        0 <= y * width + x < width * height,
{
    assert(0 <= y * width) by (nonlinear_arith)
        requires
            0 <= y,
            0 < width,
    ;
    assert(y * width + x < width * height) by (nonlinear_arith)
        requires
            0 <= x < width,
            0 <= y,
            y + 1 <= height,
    ;
}

/// Indices of the neighbours that have the wanted colour, row by row.
pub fn neighboring_color_taps(
    width: usize,
    height: usize,
    x: usize,
    y: usize,
    pattern: CameraRawCfaPattern,
    wanted: CfaColor,
) -> (taps: Vec<usize>)
    requires
        x < width,
        y < height,
        width * height <= usize::MAX,
    ensures
        indices(taps@) == neighbour_taps(
            width as int,
            height as int,
            x as int,
            y as int,
            pattern,
            wanted,
            8,
        ),
        forall|i: int| 0 <= i < taps@.len() ==> #[trigger] taps@[i] < width * height,
{
    let mut taps: Vec<usize> = Vec::new();
    let mut k: usize = 0;
    assert(indices(taps@) =~= seq![]);
    while k < 8
        invariant
            k <= 8,
            x < width,
            y < height,
            width * height <= usize::MAX,
            indices(taps@) == neighbour_taps(
                width as int,
                height as int,
                x as int,
                y as int,
                pattern,
                wanted,
                k as nat,
            ),
            forall|i: int| 0 <= i < taps@.len() ==> #[trigger] taps@[i] < width * height,
        decreases 8 - k,
    {
        let (sx, sy): (usize, usize) = if k == 0 {
            (0, 0)
        } else if k == 1 {
            (1, 0)
        } else if k == 2 {
            (2, 0)
        } else if k == 3 {
            (0, 1)
        } else if k == 4 {
            (2, 1)
        } else if k == 5 {
            (0, 2)
        } else if k == 6 {
            (1, 2)
        } else {
            (2, 2)
        };
        let nx: usize = clamp_step(x, sx, width);
        let ny: usize = clamp_step(y, sy, height);
        if cfa_color(pattern, nx, ny) == wanted {
            proof {
                lemma_index_inside(nx as int, ny as int, width as int, height as int);
                assert(ny * width <= usize::MAX);
            }
            let ghost before = taps@;
            taps.push(ny * width + nx);
            assert(indices(taps@) =~= indices(before).push(ny * width + nx));
        }
        k = k + 1;
    }
    taps
}

/// The pair of samples left and right of a pixel, where both are green.
pub open spec fn horizontal_pair(
    width: int,
    x: int,
    y: int,
    pattern: CameraRawCfaPattern,
) -> Option<(int, int)> {
    let left = clamped(x, -1, width);
    let right = clamped(x, 1, width);
    if color_at(pattern, left, y) == CfaColor::Green && color_at(pattern, right, y)
        == CfaColor::Green {
        Some((y * width + left, y * width + right))
    } else {
        None
    }
}

/// The pair of samples above and below a pixel, where both are green.
pub open spec fn vertical_pair(
    width: int,
    height: int,
    x: int,
    y: int,
    pattern: CameraRawCfaPattern,
) -> Option<(int, int)> {
    let top = clamped(y, -1, height);
    let bottom = clamped(y, 1, height);
    if color_at(pattern, x, top) == CfaColor::Green && color_at(pattern, x, bottom)
        == CfaColor::Green {
        Some((top * width + x, bottom * width + x))
    } else {
        None
    }
}

/// Mathematical reading of an optional pair of indices.
pub open spec fn pair(p: Option<(usize, usize)>) -> Option<(int, int)> {
    match p {
        Some((a, b)) => Some((a as int, b as int)),
        None => None,
    }
}

/// The green pairs along both axes of a pixel.
pub fn edge_aware_green_taps(
    width: usize,
    height: usize,
    x: usize,
    y: usize,
    pattern: CameraRawCfaPattern,
) -> (r: (Option<(usize, usize)>, Option<(usize, usize)>))
    requires
        x < width,
        y < height,
        width * height <= usize::MAX,
    ensures
        pair(r.0) == horizontal_pair(width as int, x as int, y as int, pattern),
        pair(r.1) == vertical_pair(width as int, height as int, x as int, y as int, pattern),
        r.0 matches Some((a, b)) ==> a < width * height && b < width * height,
        r.1 matches Some((a, b)) ==> a < width * height && b < width * height,
{
    let left: usize = clamp_step(x, 0, width);
    let right: usize = clamp_step(x, 2, width);
    let top: usize = clamp_step(y, 0, height);
    let bottom: usize = clamp_step(y, 2, height);
    proof {
        lemma_index_inside(left as int, y as int, width as int, height as int);
        lemma_index_inside(right as int, y as int, width as int, height as int);
        lemma_index_inside(x as int, top as int, width as int, height as int);
        lemma_index_inside(x as int, bottom as int, width as int, height as int);
    }
    let horizontal = if cfa_color(pattern, left, y) == CfaColor::Green && cfa_color(
        pattern,
        right,
        y,
    ) == CfaColor::Green {
        Some((y * width + left, y * width + right))
    } else {
        None
    };
    let vertical = if cfa_color(pattern, x, top) == CfaColor::Green && cfa_color(
        pattern,
        x,
        bottom,
    ) == CfaColor::Green {
        Some((top * width + x, bottom * width + x))
    } else {
        None
    };
    (horizontal, vertical)
}

/// Chooses the samples that reconstruct one channel of one pixel.
pub fn reconstruction(
    width: usize,
    height: usize,
    x: usize,
    y: usize,
    pattern: CameraRawCfaPattern,
    quality: CameraRawDebayerQuality,
    wanted: CfaColor,
) -> (r: Reconstruction)
    requires
        x < width,
        y < height,
        width * height <= usize::MAX,
    ensures
        ({
            let center = color_at(pattern, x as int, y as int);
            let (w, h, cx, cy) = (width as int, height as int, x as int, y as int);
            let taps = neighbour_taps(w, h, cx, cy, pattern, wanted, 8);
            let across = horizontal_pair(w, cx, cy, pattern);
            let down = vertical_pair(w, h, cx, cy, pattern);
            let gradient = wanted != center && wanted == CfaColor::Green && quality
                == CameraRawDebayerQuality::EdgeAware;
            match r {
                Reconstruction::Sample(at) => at == y * width + x && (wanted == center || (gradient
                    && across is None && down is None) || (!gradient && taps.len() == 0)),
                Reconstruction::Mean(found) => wanted != center && !gradient && indices(found@)
                    == taps && taps.len() > 0,
                Reconstruction::Gradient { horizontal, vertical } => gradient && pair(horizontal)
                    == across && pair(vertical) == down && (across is Some || down is Some),
            }
        }),
{
    proof {
        lemma_index_inside(x as int, y as int, width as int, height as int);
    }
    let own: usize = y * width + x;
    let center = cfa_color(pattern, x, y);
    if wanted == center {
        return Reconstruction::Sample(own);
    }
    if wanted == CfaColor::Green && quality == CameraRawDebayerQuality::EdgeAware {
        let (horizontal, vertical) = edge_aware_green_taps(width, height, x, y, pattern);
        if horizontal.is_none() && vertical.is_none() {
            return Reconstruction::Sample(own);
        }
        return Reconstruction::Gradient { horizontal, vertical };
    }
    let taps = neighboring_color_taps(width, height, x, y, pattern, wanted);
    assert(indices(taps@).len() == taps@.len());
    if taps.len() == 0 {
        Reconstruction::Sample(own)
    } else {
        Reconstruction::Mean(taps)
    }
}

/// A mosaic with a neighbour on every side has samples of all colours around each
/// pixel: the wanted colour is always among the neighbours.
pub proof fn interior_pixel_sees_every_color(
    width: int,
    height: int,
    x: int,
    y: int,
    pattern: CameraRawCfaPattern,
    wanted: CfaColor,
)
    requires
        0 < x < width - 1,
        0 < y < height - 1,
        wanted != color_at(pattern, x, y),
    ensures
        neighbour_taps(width, height, x, y, pattern, wanted, 8).len() > 0,
{
    reveal_with_fuel(neighbour_taps, 9);
}

/// The colour that a letter of a filter's name stands for.
pub open spec fn letter_color(letter: char) -> Option<CfaColor> {
    if letter == 'R' || letter == 'r' {
        Some(CfaColor::Red)
    } else if letter == 'G' || letter == 'g' {
        Some(CfaColor::Green)
    } else if letter == 'B' || letter == 'b' {
        Some(CfaColor::Blue)
    } else {
        None
    }
}

/// A filter is what its name spells: the four letters are the colours of the top left two
/// by two block, row by row, and every other sample has the colour of the sample in that
/// block whose column and row are as even or odd as its own.
pub proof fn filters_are_what_their_names_spell(pattern: CameraRawCfaPattern, x: int, y: int)
    ensures
        pattern_name(pattern).len() == 4,
        letter_color(pattern_name(pattern)[2 * (y % 2) + x % 2]) == Some(color_at(pattern, x, y)),
        color_at(CameraRawCfaPattern::Rggb, 0, 0) is Red,
        color_at(CameraRawCfaPattern::Rggb, 1, 0) is Green,
        color_at(CameraRawCfaPattern::Rggb, 0, 1) is Green,
        color_at(CameraRawCfaPattern::Rggb, 1, 1) is Blue,
        color_at(CameraRawCfaPattern::Bggr, 0, 0) is Blue,
        color_at(CameraRawCfaPattern::Bggr, 1, 0) is Green,
        color_at(CameraRawCfaPattern::Bggr, 0, 1) is Green,
        color_at(CameraRawCfaPattern::Bggr, 1, 1) is Red,
        color_at(CameraRawCfaPattern::Gbrg, 0, 0) is Green,
        color_at(CameraRawCfaPattern::Gbrg, 1, 0) is Blue,
        color_at(CameraRawCfaPattern::Gbrg, 0, 1) is Red,
        color_at(CameraRawCfaPattern::Gbrg, 1, 1) is Green,
        color_at(CameraRawCfaPattern::Grbg, 0, 0) is Green,
        color_at(CameraRawCfaPattern::Grbg, 1, 0) is Red,
        color_at(CameraRawCfaPattern::Grbg, 0, 1) is Blue,
        color_at(CameraRawCfaPattern::Grbg, 1, 1) is Green,
        color_at(pattern, x, y) == color_at(pattern, x + 2, y),
        color_at(pattern, x, y) == color_at(pattern, x, y + 2),
        color_at(pattern, x, y) == color_at(pattern, x % 2, y % 2),
{
    reveal_strlit("Rggb");
    reveal_strlit("Bggr");
    reveal_strlit("Gbrg");
    reveal_strlit("Grbg");
}

/// The number by which a file tells a colour: 0 red, 1 green, 2 blue.
pub open spec fn numbered_color(number: u32) -> Option<CfaColor> {
    if number == 0 {
        Some(CfaColor::Red)
    } else if number == 1 {
        Some(CfaColor::Green)
    } else if number == 2 {
        Some(CfaColor::Blue)
    } else {
        None
    }
}

/// A mosaic is developed in the colours that its file numbers: the filter that four numbers
/// stand for has these colours in its top left block, row by row. No two filters have the
/// same numbers, and whatever has one green on each diagonal end and one red and one blue
/// beside them is a filter.
pub proof fn files_and_mosaics_agree(values: Seq<u32>, x: int, y: int)
    ensures
        pattern_of(values) matches Some(pattern) ==> {
            &&& values.len() == 4
            &&& numbered_color(values[2 * (y % 2) + x % 2]) == Some(color_at(pattern, x, y))
        },
        pattern_of(values) is Some <==> {
            &&& values.len() == 4
            &&& ({
                ||| values[0] == 1 && values[3] == 1 && ((values[1] == 0 && values[2] == 2) || (
                values[1] == 2 && values[2] == 0))
                ||| values[1] == 1 && values[2] == 1 && ((values[0] == 0 && values[3] == 2) || (
                values[0] == 2 && values[3] == 0))
            })
        },
{
    if values.len() == 4 {
        assert(values =~= seq![values[0], values[1], values[2], values[3]]);
    }
}

/// What lies inside a mosaic is reconstructed from neighbours: from those at most one column
/// and one row away, of the wanted colour and of no other, and from every one of them.
pub proof fn taps_are_the_wanted_neighbours(
    width: int,
    height: int,
    x: int,
    y: int,
    pattern: CameraRawCfaPattern,
    wanted: CfaColor,
    nx: int,
    ny: int,
)
    requires
        0 <= x < width,
        0 <= y < height,
        0 <= nx < width,
        0 <= ny < height,
        (nx, ny) != (x, y),
        wanted != color_at(pattern, x, y),
    ensures
        neighbour_taps(width, height, x, y, pattern, wanted, 8).contains(ny * width + nx) <==> -1
            <= nx - x <= 1 && -1 <= ny - y <= 1 && color_at(pattern, nx, ny) == wanted,
{
    reveal_with_fuel(neighbour_taps, 9);
    let taps = neighbour_taps(width, height, x, y, pattern, wanted, 8);
    if taps.contains(ny * width + nx) {
        let i = choose|i: int| 0 <= i < taps.len() && taps[i] == ny * width + nx;
        lemma_taps_near(width, height, x, y, pattern, wanted, 8, i, nx, ny);
    }
    if -1 <= nx - x <= 1 && -1 <= ny - y <= 1 && color_at(pattern, nx, ny) == wanted {
        let k = if ny < y {
            nx - x + 1
        } else if ny == y {
            if nx < x {
                3
            } else {
                4
            }
        } else {
            nx - x + 6
        };
        assert(neighbour_step(k) == (nx - x, ny - y));
        lemma_tap_taken(width, height, x, y, pattern, wanted, 8, k, nx, ny);
    }
}

proof fn lemma_same_place(width: int, ax: int, ay: int, bx: int, by: int)
    requires
        0 <= ax < width,
        0 <= bx < width,
        ay * width + ax == by * width + bx,
    ensures
        ax == bx,
        ay == by,
{
    if ay < by {
        assert((by - ay) * width >= width) by (nonlinear_arith)
            requires
                by - ay >= 1,
                width > 0,
        ;
        assert(by * width - ay * width == (by - ay) * width) by (nonlinear_arith);
    }
    if by < ay {
        assert((ay - by) * width >= width) by (nonlinear_arith)
            requires
                ay - by >= 1,
                width > 0,
        ;
        assert(ay * width - by * width == (ay - by) * width) by (nonlinear_arith);
    }
}

proof fn lemma_taps_near(
    width: int,
    height: int,
    x: int,
    y: int,
    pattern: CameraRawCfaPattern,
    wanted: CfaColor,
    k: nat,
    i: int,
    nx: int,
    ny: int,
)
    requires
        k <= 8,
        0 <= x < width,
        0 <= y < height,
        0 <= nx < width,
        0 <= i < neighbour_taps(width, height, x, y, pattern, wanted, k).len(),
        neighbour_taps(width, height, x, y, pattern, wanted, k)[i] == ny * width + nx,
    ensures
        -1 <= nx - x <= 1,
        -1 <= ny - y <= 1,
        color_at(pattern, nx, ny) == wanted,
    decreases k,
{
    let rest = neighbour_taps(width, height, x, y, pattern, wanted, (k - 1) as nat);
    let (dx, dy) = neighbour_step(k - 1);
    let tx = clamped(x, dx, width);
    let ty = clamped(y, dy, height);
    if i < rest.len() {
        lemma_taps_near(width, height, x, y, pattern, wanted, (k - 1) as nat, i, nx, ny);
    } else {
        lemma_same_place(width, nx, ny, tx, ty);
    }
}

proof fn lemma_tap_taken(
    width: int,
    height: int,
    x: int,
    y: int,
    pattern: CameraRawCfaPattern,
    wanted: CfaColor,
    n: nat,
    k: int,
    nx: int,
    ny: int,
)
    requires
        0 <= k < n <= 8,
        0 <= nx < width,
        0 <= ny < height,
        neighbour_step(k) == (nx - x, ny - y),
        color_at(pattern, nx, ny) == wanted,
    ensures
        neighbour_taps(width, height, x, y, pattern, wanted, n).contains(ny * width + nx),
    decreases n,
{
    let rest = neighbour_taps(width, height, x, y, pattern, wanted, (n - 1) as nat);
    let taps = neighbour_taps(width, height, x, y, pattern, wanted, n);
    if k < n - 1 {
        lemma_tap_taken(width, height, x, y, pattern, wanted, (n - 1) as nat, k, nx, ny);
        let i = choose|i: int| 0 <= i < rest.len() && rest[i] == ny * width + nx;
        assert(taps[i] == ny * width + nx);
    } else {
        assert(taps[taps.len() - 1] == ny * width + nx);
    }
}

/// Green that is interpolated along an axis comes from the two neighbours on that axis, one
/// on each side, both of them green: inside a mosaic every pixel that is not green has both
/// pairs.
pub proof fn green_pairs_lie_on_both_sides(
    width: int,
    height: int,
    x: int,
    y: int,
    pattern: CameraRawCfaPattern,
)
    requires
        0 < x < width - 1,
        0 < y < height - 1,
        !(color_at(pattern, x, y) is Green),
    ensures
        horizontal_pair(width, x, y, pattern) == Some((y * width + (x - 1), y * width + (x + 1))),
        vertical_pair(width, height, x, y, pattern) == Some(
            ((y - 1) * width + x, (y + 1) * width + x),
        ),
        color_at(pattern, x - 1, y) is Green,
        color_at(pattern, x + 1, y) is Green,
        color_at(pattern, x, y - 1) is Green,
        color_at(pattern, x, y + 1) is Green,
{
}

/// Samples of two bytes count their second byte 256 times, samples of one byte are that
/// byte, and rows lie a stride apart.
pub proof fn samples_are_little_endian(data: Seq<u8>, stride: nat, x: int, y: int)
    requires
        0 <= x,
        0 <= y,
    ensures
        sample_at(data, stride, 1, x, y) == data[y * stride + x],
        sample_at(data, stride, 2, x, y) == data[y * stride + 2 * x] + 256 * data[y * stride + 2 * x
            + 1],
        sample_at(data, stride, 1, x, y + 1) == data[y * stride + stride + x],
{
    assert((y + 1) * stride == y * stride + stride) by (nonlinear_arith);
}

/// A row that fits has all its samples within the plane, and a row of which some sample does
/// not lie within the plane does not fit.
pub proof fn rows_that_fit_are_whole(len: nat, stride: nat, width: nat, size: nat, y: nat, x: int)
    requires
        0 <= x < width,
        size >= 1,
    ensures
        row_fits(len, stride, width, size, y) ==> y * stride + x * size + size <= len,
        x == width - 1 && y * stride + x * size + size <= len ==> row_fits(
            len,
            stride,
            width,
            size,
            y,
        ),
{
    assert(x * size + size <= width * size) by (nonlinear_arith)
        requires
            0 <= x < width,
            size >= 1,
    ;
    if x == width - 1 {
        assert(x * size + size == width * size) by (nonlinear_arith)
            requires
                x == width - 1,
        ;
    }
}

/// Formats of eight bits have samples of one byte, formats of sixteen bits of two.
pub proof fn samples_are_as_wide_as_their_format(format: BayerPixelFormat)
    ensures
        format is Rggb8 || format is Bggr8 || format is Gbrg8 || format is Grbg8 ==> sample_bytes(
            format,
        ) == 1,
        !(format is Rggb8) && !(format is Bggr8) && !(format is Gbrg8) && !(format is Grbg8)
            ==> sample_bytes(format) == 2,
{
}

} // verus!
