use vstd::prelude::*;
use vstd::arithmetic::div_mod::lemma_fundamental_div_mod_converse;

verus! {

/// The row pitch that a GPU buffer-to-texture copy demands, as `wgpu`
/// publishes it.
///
/// Trusted: `wgpu::COPY_BYTES_PER_ROW_ALIGNMENT`, a constant declared as
/// `256` in the `wgpu-types` source that `wgpu` re-exports.
#[verifier::external_body]
fn copy_bytes_per_row_alignment() -> (align: u32)
    ensures
        align == 256,
{
    wgpu::COPY_BYTES_PER_ROW_ALIGNMENT
}

/// The smallest multiple of the copy alignment that holds `width` RGBA8 pixels.
pub open spec fn padded_row_len(width: int) -> int {
    (width * 4 + 255) / 256 * 256
}

/// Bytes per row of a readback buffer: `width * 4` rounded up to the GPU's
/// copy alignment.
pub fn aligned_bytes_per_row(width: u32) -> (bytes_per_row: u32)
    requires
        width * 4 + 256 <= u32::MAX,
    ensures
        bytes_per_row == padded_row_len(width as int),
        bytes_per_row % 256 == 0,
        width * 4 <= bytes_per_row < width * 4 + 256,
{
    let unaligned = width * 4;
    let align = copy_bytes_per_row_alignment();
    let bytes_per_row = (unaligned + align - 1) / align * align;
    proof {
        let q = (unaligned + 255) / 256;
        let r = (unaligned + 255) % 256;
        assert(unaligned + 255 == q * 256 + r) by (nonlinear_arith)
            requires q == (unaligned + 255) / 256, r == (unaligned + 255) % 256;
        assert((q * 256) % 256 == 0) by (nonlinear_arith);
    }
    bytes_per_row
}

/// The bytes of `rows` rows of `row_len` bytes each, taken from a buffer
/// whose rows start every `stride` bytes.
pub open spec fn unpadded(data: Seq<u8>, row_len: int, stride: int, rows: int) -> Seq<u8> {
    Seq::new((rows * row_len) as nat, |k: int| data[(k / row_len) * stride + k % row_len])
}

proof fn lemma_index_in_row(row: int, row_len: int, j: int)
    requires
        row >= 0,
        0 <= j < row_len,
    ensures
        (row * row_len + j) / row_len == row,
        (row * row_len + j) % row_len == j,
{
    lemma_fundamental_div_mod_converse(row * row_len + j, row_len, row, j);
}

/// Strips the row padding of a GPU readback buffer: keeps the first
/// `width * 4` bytes of each of the `height` rows that start every
/// `bytes_per_row` bytes.
pub fn unpad_rows(data: &[u8], width: u32, height: u32, bytes_per_row: u32) -> (pixels: Vec<u8>)
    requires
        width * 4 <= bytes_per_row,
        height * bytes_per_row <= u32::MAX,
        height > 0 ==> (height - 1) * bytes_per_row + width * 4 <= data@.len(),
    ensures
        pixels@ == unpadded(data@, width * 4, bytes_per_row as int, height as int),
{
    let row_len = width * 4;
    let data_len = data.len();
    proof {
        assert(width * height * 4 <= bytes_per_row * height && width * height <= width
            * height * 4) by (nonlinear_arith)
            requires width * 4 <= bytes_per_row;
    }
    let mut pixels: Vec<u8> = Vec::with_capacity((width * height * 4) as usize);
    let mut row: u32 = 0;
    while row < height
        invariant
            row <= height,
            row_len == width * 4,
            row_len <= bytes_per_row,
            height * bytes_per_row <= u32::MAX,
            height > 0 ==> (height - 1) * bytes_per_row + row_len <= data@.len(),
            data_len == data@.len(),
            pixels@.len() == row * row_len,
            forall|k: int|
                0 <= k < pixels@.len() ==> #[trigger] pixels@[k] == data@[(k / row_len as int)
                    * bytes_per_row + k % row_len as int],
        decreases height - row,
    {
        proof {
            assert(row * bytes_per_row <= (height - 1) * bytes_per_row) by (nonlinear_arith)
                requires row <= height - 1;
            assert((height - 1) * bytes_per_row <= height * bytes_per_row) by (nonlinear_arith)
                requires height >= 1;
        }
        let start = (row * bytes_per_row) as usize;
        let end = start + row_len as usize;
        let mut i = start;
        while i < end
            invariant
                start == row * bytes_per_row,
                end == start + row_len,
                start <= i <= end,
                end <= data@.len(),
                row < height,
                row_len == width * 4,
                pixels@.len() == row * row_len + (i - start),
                forall|k: int|
                    0 <= k < pixels@.len() ==> #[trigger] pixels@[k] == data@[(k
                        / row_len as int) * bytes_per_row + k % row_len as int],
            decreases end - i,
        {
            proof {
                lemma_index_in_row(row as int, row_len as int, (i - start) as int);
            }
            pixels.push(data[i]);
            i = i + 1;
        }
        proof {
            assert((row + 1) * row_len == row * row_len + row_len) by (nonlinear_arith);
        }
        row = row + 1;
    }
    assert(pixels@ =~= unpadded(data@, width * 4, bytes_per_row as int, height as int));
    pixels
}

/// Byte `k` of the XRGB8888 (little-endian) image made from the RGBA8
/// pixels in `rgba`: each pixel is stored as blue, green, red, then an
/// unused zero byte.
pub open spec fn xrgb_byte(rgba: Seq<u8>, k: int) -> u8 {
    let p = k / 4;
    let c = k % 4;
    if c == 0 {
        rgba[4 * p + 2]
    } else if c == 1 {
        rgba[4 * p + 1]
    } else if c == 2 {
        rgba[4 * p]
    } else {
        0
    }
}

/// The XRGB8888 image made from every whole RGBA8 pixel in `rgba`.
pub open spec fn xrgb_from_rgba(rgba: Seq<u8>) -> Seq<u8> {
    Seq::new((rgba.len() / 4 * 4) as nat, |k: int| xrgb_byte(rgba, k))
}

/// Converts RGBA8 pixels into the XRGB8888 layout of a Wayland shared
/// memory buffer: each pixel becomes the little-endian word
/// `(r << 16) | (g << 8) | b`, the alpha channel being dropped.
pub fn xrgb8888_from_rgba(rgba: &[u8]) -> (canvas: Vec<u8>)
    ensures
        canvas@ == xrgb_from_rgba(rgba@),
{
    let rgba_len = rgba.len();
    let pixel_count = rgba_len / 4;
    let mut canvas: Vec<u8> = Vec::with_capacity(pixel_count * 4);
    let mut p: usize = 0;
    while p < pixel_count
        invariant
            pixel_count == rgba@.len() / 4,
            rgba_len == rgba@.len(),
            p <= pixel_count,
            canvas@.len() == 4 * p,
            forall|k: int| 0 <= k < canvas@.len() ==> #[trigger] canvas@[k] == xrgb_byte(rgba@, k),
        decreases pixel_count - p,
    {
        proof {
            assert(4 * p + 3 < rgba@.len()) by (nonlinear_arith)
                requires p < pixel_count, pixel_count == rgba@.len() / 4;
        }
        let base = 4 * p;
        let r = rgba[base];
        let g = rgba[base + 1];
        let b = rgba[base + 2];
        proof {
            lemma_index_in_row(p as int, 4, 0);
            lemma_index_in_row(p as int, 4, 1);
            lemma_index_in_row(p as int, 4, 2);
            lemma_index_in_row(p as int, 4, 3);
        }
        canvas.push(b);
        canvas.push(g);
        canvas.push(r);
        canvas.push(0);
        p = p + 1;
    }
    assert(canvas@ =~= xrgb_from_rgba(rgba@));
    canvas
}

/// Every pixel of the converted image, read as a little-endian 32-bit word,
/// is `(r << 16) | (g << 8) | b` of the source pixel.
pub proof fn lemma_xrgb_word(rgba: Seq<u8>, p: int)
    requires
        0 <= p < rgba.len() / 4,
    ensures
        ({
            let out = xrgb_from_rgba(rgba);
            out[4 * p] + out[4 * p + 1] * 256 + out[4 * p + 2] * 65536 + out[4 * p + 3]
                * 16777216 == rgba[4 * p] * 65536 + rgba[4 * p + 1] * 256 + rgba[4 * p + 2]
        }),
{
    lemma_index_in_row(p, 4, 0);
    lemma_index_in_row(p, 4, 1);
    lemma_index_in_row(p, 4, 2);
    lemma_index_in_row(p, 4, 3);
    assert(4 * p + 3 < rgba.len() / 4 * 4) by (nonlinear_arith)
        requires 0 <= p < rgba.len() / 4;
}

/// A buffer whose rows carry no padding comes back unchanged, up to its
/// last row.
pub proof fn lemma_unpadded_tight_rows(data: Seq<u8>, row_len: int, rows: int)
    requires
        row_len > 0,
        rows >= 0,
        rows * row_len <= data.len(),
    ensures
        unpadded(data, row_len, row_len, rows) == data.subrange(0, rows * row_len),
{
    let u = unpadded(data, row_len, row_len, rows);
    assert forall|k: int| 0 <= k < rows * row_len implies #[trigger] u[k] == data[k] by {
        vstd::arithmetic::div_mod::lemma_fundamental_div_mod(k, row_len);
        vstd::arithmetic::mul::lemma_mul_is_commutative(row_len, k / row_len);
    }
    assert(u =~= data.subrange(0, rows * row_len));
}

} // verus!
