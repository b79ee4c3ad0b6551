//! The cell encoder: turns a decoded image into one frame's terminal output
//! blob. Every grid cell becomes a cursor-positioning escape sequence, a
//! true-color escape sequence, and a double-width glyph chosen by the pixel's
//! alpha. Work is split into equal horizontal bands; each band's bytes are
//! produced independently and concatenated in band order, so the output is
//! the same however many workers run the bands.
use vstd::prelude::*;
use crate::frame::{Image, Pixel};
use rayon::iter::{IntoParallelIterator, ParallelIterator};

verus! {

/// The ASCII decimal digits of `n`, most significant first.
pub open spec fn dec_digits(n: int) -> Seq<u8>
    decreases n,
{
    if n < 10 {
        seq![(48 + n) as u8]
    } else {
        dec_digits(n / 10).push((48 + n % 10) as u8)
    }
}

/// One rendered cell: the pixel's color channels, passed through unmodified,
/// and whether the glyph is the filled block or the blank.
#[derive(Clone, Copy, PartialEq, Eq, Structural, Debug)]
pub struct Cell {
    pub r: u8,
    pub g: u8,
    pub b: u8,
    pub filled: bool,
}

/// The glyph policy: a fully transparent pixel maps to the blank glyph,
/// any pixel with positive alpha maps to the filled block glyph; the color
/// channels are never altered.
pub open spec fn cell_of(p: Pixel) -> Cell {
    Cell { r: p.r, g: p.g, b: p.b, filled: p.a > 0 }
}

/// Renders one pixel to a cell under the glyph policy.
pub fn encode_cell(p: Pixel) -> (c: Cell)
    ensures
        c == cell_of(p),
        c.r == p.r,
        c.g == p.g,
        c.b == p.b,
        c.filled == (p.a > 0),
{
    Cell { r: p.r, g: p.g, b: p.b, filled: p.a > 0 }
}

/// The glyph's UTF-8 bytes: two full-block characters when filled, two
/// spaces when blank (each cell is two columns wide).
pub open spec fn glyph_bytes(filled: bool) -> Seq<u8> {
    if filled {
        seq![0xe2u8, 0x96u8, 0x88u8, 0xe2u8, 0x96u8, 0x88u8]
    } else {
        seq![0x20u8, 0x20u8]
    }
}

/// The full escape-sequence bytes for the cell at grid column `x`, row `y`:
/// absolute cursor addressing to terminal column `2 * x`, a 24-bit foreground
/// color carrying the pixel's RGB verbatim, then the glyph.
pub open spec fn cell_bytes(y: int, x: int, p: Pixel) -> Seq<u8> {
    seq![0x1bu8, 0x5bu8] + dec_digits(y) + seq![0x3bu8] + dec_digits(2 * x) + seq![0x48u8]
        + seq![0x1bu8, 0x5bu8, 0x33u8, 0x38u8, 0x3bu8, 0x32u8, 0x3bu8] + dec_digits(p.r as int)
        + seq![0x3bu8] + dec_digits(p.g as int) + seq![0x3bu8] + dec_digits(p.b as int)
        + seq![0x6du8] + glyph_bytes(cell_of(p).filled)
}

/// The bytes of row `y`'s first `x` cells, in cell order.
pub open spec fn row_bytes_upto(img: Image, y: int, x: int) -> Seq<u8>
    decreases x,
{
    if x <= 0 {
        Seq::empty()
    } else {
        row_bytes_upto(img, y, x - 1) + cell_bytes(y, x - 1, img.pixel_at(x - 1, y))
    }
}

/// The bytes of one whole row of the grid.
pub open spec fn row_bytes(img: Image, y: int) -> Seq<u8> {
    row_bytes_upto(img, y, img.width as int)
}

/// The bytes of the rows in `[y0, y1)`, in row order.
pub open spec fn rows_bytes(img: Image, y0: int, y1: int) -> Seq<u8>
    decreases y1 - y0,
{
    if y1 <= y0 {
        Seq::empty()
    } else {
        rows_bytes(img, y0, y1 - 1) + row_bytes(img, y1 - 1)
    }
}

/// The bytes of band `b`: the `band_rows` consecutive rows it owns.
pub open spec fn band_bytes(img: Image, band_rows: int, b: int) -> Seq<u8> {
    rows_bytes(img, b * band_rows, (b + 1) * band_rows)
}

/// The whole frame's bytes: the first `nrows` rows in order.
pub open spec fn frame_bytes(img: Image, nrows: int) -> Seq<u8> {
    rows_bytes(img, 0, nrows)
}

/// Appends one byte.
fn push_byte(buf: &mut Vec<u8>, c: u8)
    ensures
        final(buf)@ == old(buf)@ + seq![c],
{
    buf.push(c);
    proof {
        assert(old(buf)@.push(c) =~= old(buf)@ + seq![c]);
    }
}

/// Appends the ASCII decimal digits of `n`.
fn push_dec(buf: &mut Vec<u8>, n: u32)
    ensures
        final(buf)@ == old(buf)@ + dec_digits(n as int),
    decreases n,
{
    if n < 10 {
        push_byte(buf, 48 + n as u8);
    } else {
        push_dec(buf, n / 10);
        push_byte(buf, 48 + (n % 10) as u8);
        proof {
            assert(old(buf)@ + dec_digits(n as int / 10) + seq![(48 + n as int % 10) as u8]
                =~= old(buf)@ + dec_digits(n as int));
        }
    }
}

/// Appends the escape-sequence bytes of the cell at grid column `x`, row `y`.
fn push_cell(buf: &mut Vec<u8>, y: u32, x: u32, p: Pixel)
    requires
        x < 0x8000_0000,
    ensures
        final(buf)@ == old(buf)@ + cell_bytes(y as int, x as int, p),
{
    let c = encode_cell(p);
    push_byte(buf, 0x1b);
    push_byte(buf, 0x5b);
    proof {
        assert(old(buf)@ + seq![0x1bu8] + seq![0x5bu8] =~= old(buf)@ + seq![0x1bu8, 0x5bu8]);
    }
    push_dec(buf, y);
    push_byte(buf, 0x3b);
    push_dec(buf, 2 * x);
    push_byte(buf, 0x48);
    push_byte(buf, 0x1b);
    push_byte(buf, 0x5b);
    push_byte(buf, 0x33);
    push_byte(buf, 0x38);
    push_byte(buf, 0x3b);
    push_byte(buf, 0x32);
    push_byte(buf, 0x3b);
    proof {
        let pre = old(buf)@ + seq![0x1bu8, 0x5bu8] + dec_digits(y as int) + seq![0x3bu8]
            + dec_digits(2 * x as int) + seq![0x48u8];
        assert(pre + seq![0x1bu8] + seq![0x5bu8] + seq![0x33u8] + seq![0x38u8] + seq![0x3bu8]
            + seq![0x32u8] + seq![0x3bu8] =~= pre + seq![
            0x1bu8,
            0x5bu8,
            0x33u8,
            0x38u8,
            0x3bu8,
            0x32u8,
            0x3bu8,
        ]);
    }
    push_dec(buf, p.r as u32);
    push_byte(buf, 0x3b);
    push_dec(buf, p.g as u32);
    push_byte(buf, 0x3b);
    push_dec(buf, p.b as u32);
    push_byte(buf, 0x6d);
    if c.filled {
        push_byte(buf, 0xe2);
        push_byte(buf, 0x96);
        push_byte(buf, 0x88);
        push_byte(buf, 0xe2);
        push_byte(buf, 0x96);
        push_byte(buf, 0x88);
        proof {
            let pre = old(buf)@ + seq![0x1bu8, 0x5bu8] + dec_digits(y as int) + seq![0x3bu8]
                + dec_digits(2 * x as int) + seq![0x48u8] + seq![
                0x1bu8,
                0x5bu8,
                0x33u8,
                0x38u8,
                0x3bu8,
                0x32u8,
                0x3bu8,
            ] + dec_digits(p.r as int) + seq![0x3bu8] + dec_digits(p.g as int) + seq![0x3bu8]
                + dec_digits(p.b as int) + seq![0x6du8];
            assert(pre + seq![0xe2u8] + seq![0x96u8] + seq![0x88u8] + seq![0xe2u8] + seq![0x96u8]
                + seq![0x88u8] =~= pre + glyph_bytes(true));
        }
    } else {
        push_byte(buf, 0x20);
        push_byte(buf, 0x20);
        proof {
            let pre = old(buf)@ + seq![0x1bu8, 0x5bu8] + dec_digits(y as int) + seq![0x3bu8]
                + dec_digits(2 * x as int) + seq![0x48u8] + seq![
                0x1bu8,
                0x5bu8,
                0x33u8,
                0x38u8,
                0x3bu8,
                0x32u8,
                0x3bu8,
            ] + dec_digits(p.r as int) + seq![0x3bu8] + dec_digits(p.g as int) + seq![0x3bu8]
                + dec_digits(p.b as int) + seq![0x6du8];
            assert(pre + seq![0x20u8] + seq![0x20u8] =~= pre + glyph_bytes(false));
        }
    }
    proof {
        assert(buf@ =~= old(buf)@ + cell_bytes(y as int, x as int, p));
    }
}

/// Appends the escape-sequence bytes of one whole grid row.
fn push_row(buf: &mut Vec<u8>, img: &Image, y: u32)
    requires
        img.wf(),
        img.width < 0x8000_0000,
        y < img.height,
    ensures
        final(buf)@ == old(buf)@ + row_bytes(*img, y as int),
{
    let w = img.width;
    let mut x: u32 = 0;
    while x < w
        invariant
            img.wf(),
            img.width == w,
            w < 0x8000_0000,
            y < img.height,
            x <= w,
            buf@ == old(buf)@ + row_bytes_upto(*img, y as int, x as int),
        decreases w - x,
    {
        let p = img.get(x, y);
        proof {
            assert(old(buf)@ + row_bytes_upto(*img, y as int, x as int) + cell_bytes(
                y as int,
                x as int,
                p,
            ) =~= old(buf)@ + row_bytes_upto(*img, y as int, x as int + 1));
        }
        push_cell(buf, y, x, p);
        x = x + 1;
    }
}

/// Appends the escape-sequence bytes of the rows in `[y0, y1)`.
fn push_rows(buf: &mut Vec<u8>, img: &Image, y0: u32, y1: u32)
    requires
        img.wf(),
        img.width < 0x8000_0000,
        y0 <= y1,
        y1 <= img.height,
    ensures
        final(buf)@ == old(buf)@ + rows_bytes(*img, y0 as int, y1 as int),
{
    let mut y: u32 = y0;
    while y < y1
        invariant
            img.wf(),
            img.width < 0x8000_0000,
            y0 <= y,
            y <= y1,
            y1 <= img.height,
            buf@ == old(buf)@ + rows_bytes(*img, y0 as int, y as int),
        decreases y1 - y,
    {
        proof {
            assert(old(buf)@ + rows_bytes(*img, y0 as int, y as int) + row_bytes(*img, y as int)
                =~= old(buf)@ + rows_bytes(*img, y0 as int, y as int + 1));
        }
        push_row(buf, img, y);
        y = y + 1;
    }
}

/// Encodes one band: the bytes of the `band_rows` rows that band `b` owns.
/// Each band writes only its own output; no state is shared between bands.
pub fn encode_band(img: &Image, band_rows: u32, b: u32) -> (out: Vec<u8>)
    requires
        img.wf(),
        img.width < 0x8000_0000,
        (b + 1) as int * band_rows as int <= img.height as int,
    ensures
        out@ == band_bytes(*img, band_rows as int, b as int),
{
    if band_rows == 0 {
        proof {
            assert(b as int * 0 == 0 && (b as int + 1) * 0 == 0) by (nonlinear_arith);
        }
        return Vec::new();
    }
    proof {
        let k = band_rows as int;
        let bb = b as int;
        assert(0 <= bb * k && bb * k <= (bb + 1) * k && (bb + 1) * k <= img.height as int && bb + 1
            <= (bb + 1) * k) by (nonlinear_arith)
            requires
                0 <= bb,
                1 <= k,
                (bb + 1) * k <= img.height as int,
        ;
    }
    let y0 = b * band_rows;
    let y1 = (b + 1) * band_rows;
    let mut out: Vec<u8> = Vec::new();
    push_rows(&mut out, img, y0, y1);
    proof {
        assert(Seq::<u8>::empty() + rows_bytes(*img, y0 as int, y1 as int) =~= rows_bytes(
            *img,
            y0 as int,
            y1 as int,
        ));
    }
    out
}

/// Splitting at any row boundary and concatenating gives the same bytes as
/// encoding the rows in one piece.
proof fn lemma_rows_bytes_split(img: Image, y0: int, y1: int, y2: int)
    requires
        y0 <= y1 <= y2,
    ensures
        rows_bytes(img, y0, y2) == rows_bytes(img, y0, y1) + rows_bytes(img, y1, y2),
    decreases y2 - y1,
{
    if y2 == y1 {
        assert(rows_bytes(img, y0, y1) + Seq::<u8>::empty() =~= rows_bytes(img, y0, y1));
    } else {
        lemma_rows_bytes_split(img, y0, y1, y2 - 1);
        assert(rows_bytes(img, y0, y1) + rows_bytes(img, y1, y2 - 1) + row_bytes(img, y2 - 1)
            =~= rows_bytes(img, y0, y1) + (rows_bytes(img, y1, y2 - 1) + row_bytes(img, y2 - 1)));
    }
}

/// The concatenation of the first `k` blobs, in order.
pub open spec fn cat_upto(blobs: Seq<Seq<u8>>, k: int) -> Seq<u8>
    decreases k,
{
    if k <= 0 {
        Seq::empty()
    } else {
        cat_upto(blobs, k - 1) + blobs[k - 1]
    }
}

/// Band determinism: concatenating the per-band bytes in band index order —
/// whatever order or parallelism the bands were computed with — yields
/// exactly the bytes of encoding the covered rows sequentially. The output
/// depends only on the image and the band geometry, never on the workers.
pub proof fn lemma_band_determinism(img: Image, band_rows: int, n_bands: int)
    requires
        0 <= band_rows,
        0 <= n_bands,
        n_bands * band_rows <= img.height as int,
    ensures
        cat_upto(Seq::new(n_bands as nat, |b: int| band_bytes(img, band_rows, b)), n_bands)
            == frame_bytes(img, n_bands * band_rows),
    decreases n_bands,
{
    let blobs = Seq::new(n_bands as nat, |b: int| band_bytes(img, band_rows, b));
    if n_bands == 0 {
        assert(n_bands * band_rows == 0) by (nonlinear_arith)
            requires
                n_bands == 0,
        ;
        assert(cat_upto(blobs, 0) =~= frame_bytes(img, 0));
    } else {
        let m = n_bands - 1;
        assert(m * band_rows <= n_bands * band_rows && 0 <= m * band_rows) by (nonlinear_arith)
            requires
                0 <= m,
                0 <= band_rows,
                n_bands == m + 1,
        ;
        lemma_band_determinism(img, band_rows, m);
        let prev = Seq::new(m as nat, |b: int| band_bytes(img, band_rows, b));
        assert(forall|i: int| 0 <= i < m ==> blobs[i] == prev[i]);
        lemma_cat_upto_agree(blobs, prev, m);
        assert(cat_upto(blobs, m) == frame_bytes(img, m * band_rows));
        lemma_rows_bytes_split(img, 0, m * band_rows, n_bands * band_rows);
        assert((m + 1) * band_rows == m * band_rows + band_rows) by (nonlinear_arith);
        assert(n_bands * band_rows == m * band_rows + band_rows) by (nonlinear_arith)
            requires
                n_bands == m + 1,
        ;
        assert(blobs[m] == band_bytes(img, band_rows, m));
        assert(band_bytes(img, band_rows, m) == rows_bytes(
            img,
            m * band_rows,
            n_bands * band_rows,
        ));
        assert(cat_upto(blobs, n_bands) == cat_upto(blobs, m) + blobs[m]);
        assert(frame_bytes(img, n_bands * band_rows) == frame_bytes(img, m * band_rows)
            + rows_bytes(img, m * band_rows, n_bands * band_rows));
    }
}

/// Two blob sequences that agree on their first `k` entries concatenate to
/// the same prefix.
proof fn lemma_cat_upto_agree(a: Seq<Seq<u8>>, b: Seq<Seq<u8>>, k: int)
    requires
        k <= a.len(),
        k <= b.len(),
        forall|i: int| 0 <= i < k ==> a[i] == b[i],
    ensures
        cat_upto(a, k) == cat_upto(b, k),
    decreases k,
{
    if k > 0 {
        lemma_cat_upto_agree(a, b, k - 1);
    }
}

/// Relies on rayon's `IntoParallelIterator` for ranges and
/// `ParallelIterator::map`/`collect`: collecting a mapped indexed range into
/// a `Vec` yields the closure's results in index order, however many workers
/// ran them. The closure only calls the verified `encode_band`.
#[verifier::external_body]
fn par_encode_bands(img: &Image, band_rows: u32, n_bands: u32) -> (blobs: Vec<Vec<u8>>)
    requires
        img.wf(),
        img.width < 0x8000_0000,
        n_bands as int * band_rows as int <= img.height as int,
    ensures
        blobs@.len() == n_bands,
        forall|b: int|
            0 <= b < n_bands ==> (#[trigger] blobs@[b])@ == band_bytes(
                *img,
                band_rows as int,
                b,
            ),
{
    (0..n_bands).into_par_iter().map(|b| encode_band(img, band_rows, b)).collect()
}

/// Concatenates the per-band blobs in band index order.
fn concat_blobs(blobs: Vec<Vec<u8>>) -> (out: Vec<u8>)
    ensures
        out@ == cat_upto(blobs@.map_values(|v: Vec<u8>| v@), blobs@.len() as int),
{
    let ghost views = blobs@.map_values(|v: Vec<u8>| v@);
    let mut out: Vec<u8> = Vec::new();
    let n = blobs.len();
    let mut i: usize = 0;
    while i < n
        invariant
            n == blobs@.len(),
            i <= n,
            views == blobs@.map_values(|v: Vec<u8>| v@),
            out@ == cat_upto(views, i as int),
        decreases n - i,
    {
        let blob = &blobs[i];
        let mut j: usize = 0;
        let m = blob.len();
        proof {
            assert(cat_upto(views, i as int) + blob@.take(0) =~= cat_upto(views, i as int));
        }
        while j < m
            invariant
                i < n,
                n == blobs@.len(),
                m == blob@.len(),
                blob@ == views[i as int],
                j <= m,
                views == blobs@.map_values(|v: Vec<u8>| v@),
                out@ == cat_upto(views, i as int) + blob@.take(j as int),
            decreases m - j,
        {
            out.push(blob[j]);
            proof {
                assert((cat_upto(views, i as int) + blob@.take(j as int)).push(blob@[j as int])
                    =~= cat_upto(views, i as int) + blob@.take(j as int + 1));
            }
            j = j + 1;
        }
        proof {
            assert(blob@.take(m as int) =~= views[i as int]);
            assert(out@ =~= cat_upto(views, i as int + 1));
        }
        i = i + 1;
    }
    out
}

/// The number of rows a frame encodes: the grid height rounded down to a
/// whole number of bands (rows past the last full band are left out, as the
/// band partition owns only full bands).
pub open spec fn encoded_rows(img: Image, n_bands: int) -> int {
    (img.height as int / n_bands) * n_bands
}

/// Rounding the height down to whole bands never exceeds the height.
proof fn lemma_encoded_rows_bound(h: int, n: int)
    requires
        h >= 0,
        n >= 1,
    ensures
        0 <= (h / n) * n <= h,
        h / n >= 0,
    decreases h,
{
    if h >= n {
        lemma_encoded_rows_bound(h - n, n);
        assert((h - n) / n == h / n - 1) by (nonlinear_arith)
            requires
                n >= 1 && h >= n,
        ;
        assert((h / n) * n == (h / n - 1) * n + n) by (nonlinear_arith);
    } else {
        assert(h / n == 0) by (nonlinear_arith)
            requires
                n >= 1 && 0 <= h < n,
        ;
    }
}

/// Encodes a whole frame, the bands computed in parallel by rayon's worker
/// pool and concatenated in band index order.
pub fn encode_frame(img: &Image, n_bands: u32) -> (out: Vec<u8>)
    requires
        img.wf(),
        img.width < 0x8000_0000,
        n_bands > 0,
    ensures
        out@ == frame_bytes(*img, encoded_rows(*img, n_bands as int)),
{
    let chunk = img.height / n_bands;
    proof {
        lemma_encoded_rows_bound(img.height as int, n_bands as int);
        assert(n_bands as int * chunk as int == chunk as int * n_bands as int)
            by (nonlinear_arith);
    }
    let blobs = par_encode_bands(img, chunk, n_bands);
    proof {
        assert(blobs@.map_values(|v: Vec<u8>| v@) =~= Seq::new(
            n_bands as nat,
            |b: int| band_bytes(*img, chunk as int, b),
        ));
        lemma_band_determinism(*img, chunk as int, n_bands as int);
    }
    concat_blobs(blobs)
}

/// Encodes the same rows with a single worker, band by band in band order:
/// by band determinism it returns byte-identical output to the parallel
/// encoder on the same image and band count.
pub fn encode_frame_seq(img: &Image, n_bands: u32) -> (out: Vec<u8>)
    requires
        img.wf(),
        img.width < 0x8000_0000,
        n_bands > 0,
    ensures
        out@ == frame_bytes(*img, encoded_rows(*img, n_bands as int)),
{
    let chunk = img.height / n_bands;
    proof {
        lemma_encoded_rows_bound(img.height as int, n_bands as int);
        assert(chunk as int * n_bands as int == (img.height as int / n_bands as int)
            * n_bands as int) by (nonlinear_arith)
            requires
                chunk as int == img.height as int / n_bands as int,
        ;
    }
    let total = chunk * n_bands;
    let mut out: Vec<u8> = Vec::new();
    push_rows(&mut out, img, 0, total);
    proof {
        assert(Seq::<u8>::empty() + rows_bytes(*img, 0, total as int) =~= rows_bytes(
            *img,
            0,
            total as int,
        ));
    }
    out
}

} // verus!
