//! Pixel work on 32-bit BGRA bitmaps, as the Windows overlay icon is drawn:
//! finding the bounding box of drawn glyph ink, halving a bitmap with a box
//! filter, and deriving the monochrome transparency mask.
//!
//! A bitmap of `size` by `size` pixels is a byte sequence of `size * size * 4`
//! bytes, row by row, four bytes per pixel in the order blue, green, red, alpha.
use vstd::prelude::*;

verus! {

/// The index of the first byte of pixel (`x`, `y`) in a bitmap `width` wide.
pub open spec fn pixel_base(width: int, x: int, y: int) -> int {
    (y * width + x) * 4
}

/// (`x`, `y`) lies inside a `size` by `size` bitmap.
pub open spec fn in_square(size: int, x: int, y: int) -> bool {
    0 <= x < size && 0 <= y < size
}

/// Pixel (`x`, `y`) holds glyph ink: its green or its blue channel is above 20
/// (white ink drawn on black lights them up).
pub open spec fn is_ink(bits: Seq<u8>, size: int, x: int, y: int) -> bool {
    bits[pixel_base(size, x, y) + 1] > 20 || bits[pixel_base(size, x, y)] > 20
}

/// Some pixel of the bitmap holds ink.
pub open spec fn has_ink(bits: Seq<u8>, size: int) -> bool {
    exists|x: int, y: int| in_square(size, x, y) && #[trigger] is_ink(bits, size, x, y)
}

/// (`min_x`, `min_y`)-(`max_x`, `max_y`) is the tightest box around the ink:
/// every ink pixel lies within it and ink touches each of its four edges.
pub open spec fn is_ink_bounding_box(
    bits: Seq<u8>,
    size: int,
    min_x: int,
    min_y: int,
    max_x: int,
    max_y: int,
) -> bool {
    &&& forall|x: int, y: int|
        in_square(size, x, y) && #[trigger] is_ink(bits, size, x, y) ==> min_x <= x <= max_x
            && min_y <= y <= max_y
    &&& exists|y: int| in_square(size, min_x, y) && #[trigger] is_ink(bits, size, min_x, y)
    &&& exists|y: int| in_square(size, max_x, y) && #[trigger] is_ink(bits, size, max_x, y)
    &&& exists|x: int| in_square(size, x, min_y) && #[trigger] is_ink(bits, size, x, min_y)
    &&& exists|x: int| in_square(size, x, max_y) && #[trigger] is_ink(bits, size, x, max_y)
}

/// A pixel inside a bitmap has all four of its bytes inside the buffer.
pub proof fn lemma_pixel_in_buffer(width: int, height: int, x: int, y: int)
    requires
        0 <= x < width,
        0 <= y < height,
    ensures
        0 <= pixel_base(width, x, y),
        pixel_base(width, x, y) + 4 <= width * height * 4,
{
    assert(0 <= y * width) by (nonlinear_arith)
        requires
            0 <= y,
            0 <= x < width,
    ;
    assert(y * width + x < width * height) by (nonlinear_arith)
        requires
            0 <= x < width,
            0 <= y < height,
    ;
}

/// Pixel (`xp`, `yp`) comes before (`x`, `y`) in row-major scan order.
pub open spec fn scanned_before(xp: int, yp: int, x: int, y: int) -> bool {
    yp < y || (yp == y && xp < x)
}

/// What a row-major scan of the ink knows after reaching pixel (`x`, `y`).
pub open spec fn ink_scan_state(
    bits: Seq<u8>,
    size: int,
    min_x: int,
    min_y: int,
    max_x: int,
    max_y: int,
    w_min_x: int,
    w_max_x: int,
    w_min_y: int,
    w_max_y: int,
    x: int,
    y: int,
) -> bool {
    if max_x < 0 {
        &&& min_x == size && min_y == size && max_y == -1
        &&& forall|xp: int, yp: int|
            in_square(size, xp, yp) && scanned_before(xp, yp, x, y) ==> !#[trigger] is_ink(
                bits,
                size,
                xp,
                yp,
            )
    } else {
        &&& 0 <= min_x <= max_x < size && 0 <= min_y <= max_y < size
        &&& forall|xp: int, yp: int|
            in_square(size, xp, yp) && scanned_before(xp, yp, x, y) && #[trigger] is_ink(
                bits,
                size,
                xp,
                yp,
            ) ==> min_x <= xp <= max_x && min_y <= yp <= max_y
        &&& in_square(size, min_x, w_min_x) && is_ink(bits, size, min_x, w_min_x)
        &&& in_square(size, max_x, w_max_x) && is_ink(bits, size, max_x, w_max_x)
        &&& in_square(size, w_min_y, min_y) && is_ink(bits, size, w_min_y, min_y)
        &&& in_square(size, w_max_y, max_y) && is_ink(bits, size, w_max_y, max_y)
    }
}

/// The bounding box of the glyph ink in a `size` by `size` bitmap, as
/// (left, top, right, bottom), or `None` when nothing was drawn.
pub fn ink_bounds(bits: &[u8], size: i32) -> (r: Option<(i32, i32, i32, i32)>)
    requires
        0 <= size,
        bits@.len() == size * size * 4,
        size * size * 4 <= i32::MAX,
    ensures
        r is None <==> !has_ink(bits@, size as int),
        r matches Some((a, b, c, d)) ==> is_ink_bounding_box(
            bits@,
            size as int,
            a as int,
            b as int,
            c as int,
            d as int,
        ),
{
    let mut min_x: i32 = size;
    let mut min_y: i32 = size;
    let mut max_x: i32 = -1;
    let mut max_y: i32 = -1;
    let ghost mut w_min_x: int = 0;
    let ghost mut w_max_x: int = 0;
    let ghost mut w_min_y: int = 0;
    let ghost mut w_max_y: int = 0;
    let mut y: i32 = 0;
    while y < size
        invariant
            0 <= y <= size,
            bits@.len() == size * size * 4,
            size * size * 4 <= i32::MAX,
            ink_scan_state(
                bits@,
                size as int,
                min_x as int,
                min_y as int,
                max_x as int,
                max_y as int,
                w_min_x,
                w_max_x,
                w_min_y,
                w_max_y,
                0,
                y as int,
            ),
        decreases size - y,
    {
        let mut x: i32 = 0;
        while x < size
            invariant
                0 <= y < size,
                0 <= x <= size,
                bits@.len() == size * size * 4,
                size * size * 4 <= i32::MAX,
                ink_scan_state(
                    bits@,
                    size as int,
                    min_x as int,
                    min_y as int,
                    max_x as int,
                    max_y as int,
                    w_min_x,
                    w_max_x,
                    w_min_y,
                    w_max_y,
                    x as int,
                    y as int,
                ),
            decreases size - x,
        {
            proof {
                lemma_pixel_in_buffer(size as int, size as int, x as int, y as int);
            }
            let i = ((y * size + x) * 4) as usize;
            if bits[i + 1] > 20 || bits[i] > 20 {
                assert(is_ink(bits@, size as int, x as int, y as int));
                if x < min_x {
                    min_x = x;
                    proof {
                        w_min_x = y as int;
                    }
                }
                if y < min_y {
                    min_y = y;
                    proof {
                        w_min_y = x as int;
                    }
                }
                if x > max_x {
                    max_x = x;
                    proof {
                        w_max_x = y as int;
                    }
                }
                if y > max_y {
                    max_y = y;
                    proof {
                        w_max_y = x as int;
                    }
                }
            }
            x += 1;
        }
        proof {
            assert forall|xp: int, yp: int|
                in_square(size as int, xp, yp) && scanned_before(
                    xp,
                    yp,
                    0,
                    y + 1,
                ) implies scanned_before(xp, yp, size as int, y as int) by {}
        }
        y += 1;
    }
    if max_x < 0 {
        assert(!has_ink(bits@, size as int)) by {
            assert forall|xp: int, yp: int| in_square(size as int, xp, yp) implies !#[trigger] is_ink(
                bits@,
                size as int,
                xp,
                yp,
            ) by {
                assert(scanned_before(xp, yp, 0, size as int));
            }
        }
        None
    } else {
        assert(is_ink(bits@, size as int, min_x as int, w_min_x));
        assert(is_ink(bits@, size as int, max_x as int, w_max_x));
        assert(is_ink(bits@, size as int, w_min_y, min_y as int));
        assert(is_ink(bits@, size as int, w_max_y, max_y as int));
        assert forall|xp: int, yp: int|
            in_square(size as int, xp, yp) && #[trigger] is_ink(
                bits@,
                size as int,
                xp,
                yp,
            ) implies min_x <= xp <= max_x && min_y <= yp <= max_y by {
            assert(scanned_before(xp, yp, 0, size as int));
        }
        Some((min_x, min_y, max_x, max_y))
    }
}

/// The index of the first byte of pixel (`x`, `y`) in a `width` by `height`
/// bitmap.
pub fn pixel_index(width: i32, height: i32, x: i32, y: i32) -> (i: usize)
    requires
        0 <= x < width,
        0 <= y < height,
        width * height * 4 <= i32::MAX,
    ensures
        i == pixel_base(width as int, x as int, y as int),
        i + 4 <= width * height * 4,
{
    proof {
        lemma_pixel_in_buffer(width as int, height as int, x as int, y as int);
    }
    ((y * width + x) * 4) as usize
}

/// Byte `k` of pixel (`x`, `y`) of a bitmap `size` wide.
pub open spec fn channel(bits: Seq<u8>, size: int, x: int, y: int, k: int) -> int {
    bits[pixel_base(size, x, y) + k] as int
}

/// Byte `k` of pixel (`x`, `y`) of the half-size bitmap: the integer mean of
/// that byte over the two-by-two block of source pixels it covers.
pub open spec fn box_average(src: Seq<u8>, src_size: int, x: int, y: int, k: int) -> int {
    (channel(src, src_size, 2 * x, 2 * y, k) + channel(src, src_size, 2 * x + 1, 2 * y, k)
        + channel(src, src_size, 2 * x, 2 * y + 1, k) + channel(
        src,
        src_size,
        2 * x + 1,
        2 * y + 1,
        k,
    )) / 4
}

/// Pixels scanned earlier lie earlier in the buffer.
proof fn lemma_scan_order_in_buffer(width: int, xp: int, yp: int, x: int, y: int)
    requires
        0 <= xp < width,
        0 <= x <= width,
        0 <= yp,
        scanned_before(xp, yp, x, y),
    ensures
        pixel_base(width, xp, yp) + 4 <= pixel_base(width, x, y),
{
    if yp < y {
        assert(yp * width + xp + 1 <= y * width + x) by (nonlinear_arith)
            requires
                0 <= xp < width,
                0 <= x,
                yp < y,
        ;
    }
}

/// The end of one row is the start of the next.
proof fn lemma_row_end(width: int, y: int)
    ensures
        pixel_base(width, width, y) == pixel_base(width, 0, y + 1),
{
    assert(y * width + width == (y + 1) * width) by (nonlinear_arith);
}

/// Halves a `src_size` by `src_size` bitmap to `dst_size` by `dst_size`,
/// each destination byte the mean of the two-by-two source block below it.
pub fn downsample_2x(src: &[u8], src_size: i32, dst_size: i32) -> (dst: Vec<u8>)
    requires
        0 <= dst_size,
        2 * dst_size <= src_size,
        src@.len() == src_size * src_size * 4,
        src_size * src_size * 4 <= i32::MAX,
    ensures
        dst@.len() == dst_size * dst_size * 4,
        forall|x: int, y: int, k: int|
            #![trigger dst@[pixel_base(dst_size as int, x, y) + k]]
            in_square(dst_size as int, x, y) && 0 <= k < 4 ==> dst@[pixel_base(
                dst_size as int,
                x,
                y,
            ) + k] == box_average(src@, src_size as int, x, y, k),
{
    let mut dst: Vec<u8> = Vec::new();
    let mut y: i32 = 0;
    while y < dst_size
        invariant
            0 <= y <= dst_size,
            0 <= dst_size,
            2 * dst_size <= src_size,
            src@.len() == src_size * src_size * 4,
            src_size * src_size * 4 <= i32::MAX,
            dst@.len() == pixel_base(dst_size as int, 0, y as int),
            forall|xp: int, yp: int, k: int|
                #![trigger dst@[pixel_base(dst_size as int, xp, yp) + k]]
                in_square(dst_size as int, xp, yp) && yp < y && 0 <= k < 4 ==> dst@[pixel_base(
                    dst_size as int,
                    xp,
                    yp,
                ) + k] == box_average(src@, src_size as int, xp, yp, k),
        decreases dst_size - y,
    {
        let mut x: i32 = 0;
        while x < dst_size
            invariant
                0 <= y < dst_size,
                0 <= x <= dst_size,
                2 * dst_size <= src_size,
                src@.len() == src_size * src_size * 4,
                src_size * src_size * 4 <= i32::MAX,
                dst@.len() == pixel_base(dst_size as int, x as int, y as int),
                forall|xp: int, yp: int, k: int|
                    #![trigger dst@[pixel_base(dst_size as int, xp, yp) + k]]
                    in_square(dst_size as int, xp, yp) && scanned_before(
                        xp,
                        yp,
                        x as int,
                        y as int,
                    ) && 0 <= k < 4 ==> dst@[pixel_base(dst_size as int, xp, yp) + k]
                        == box_average(src@, src_size as int, xp, yp, k),
            decreases dst_size - x,
        {
            let ghost before = dst@;
            let i00 = pixel_index(src_size, src_size, 2 * x, 2 * y);
            let i10 = pixel_index(src_size, src_size, 2 * x + 1, 2 * y);
            let i01 = pixel_index(src_size, src_size, 2 * x, 2 * y + 1);
            let i11 = pixel_index(src_size, src_size, 2 * x + 1, 2 * y + 1);
            let mut k: usize = 0;
            while k < 4
                invariant
                    0 <= k <= 4,
                    0 <= y < dst_size,
                    0 <= x < dst_size,
                    i00 == pixel_base(src_size as int, 2 * x, 2 * y),
                    i10 == pixel_base(src_size as int, 2 * x + 1, 2 * y),
                    i01 == pixel_base(src_size as int, 2 * x, 2 * y + 1),
                    i11 == pixel_base(src_size as int, 2 * x + 1, 2 * y + 1),
                    i00 + 4 <= src@.len(),
                    i10 + 4 <= src@.len(),
                    i01 + 4 <= src@.len(),
                    i11 + 4 <= src@.len(),
                    dst@.len() == before.len() + k,
                    forall|j: int| 0 <= j < before.len() ==> dst@[j] == before[j],
                    forall|j: int|
                        0 <= j < k ==> dst@[before.len() + j] == box_average(
                            src@,
                            src_size as int,
                            x as int,
                            y as int,
                            j,
                        ),
                decreases 4 - k,
            {
                let sum: u32 = src[i00 + k] as u32 + src[i10 + k] as u32 + src[i01 + k] as u32
                    + src[i11 + k] as u32;
                dst.push((sum / 4) as u8);
                k += 1;
            }
            proof {
                assert forall|xp: int, yp: int, kk: int|
                    in_square(dst_size as int, xp, yp) && scanned_before(
                        xp,
                        yp,
                        x + 1,
                        y as int,
                    ) && 0 <= kk < 4 implies #[trigger] dst@[pixel_base(dst_size as int, xp, yp)
                    + kk] == box_average(src@, src_size as int, xp, yp, kk) by {
                    if scanned_before(xp, yp, x as int, y as int) {
                        lemma_scan_order_in_buffer(
                            dst_size as int,
                            xp,
                            yp,
                            x as int,
                            y as int,
                        );
                        assert(dst@[pixel_base(dst_size as int, xp, yp) + kk] == before[pixel_base(
                            dst_size as int,
                            xp,
                            yp,
                        ) + kk]);
                    } else {
                        assert(xp == x && yp == y);
                        assert(pixel_base(dst_size as int, xp, yp) == before.len());
                    }
                }
                assert(dst@.len() == pixel_base(dst_size as int, x + 1, y as int));
            }
            x += 1;
        }
        proof {
            lemma_row_end(dst_size as int, y as int);
            assert forall|xp: int, yp: int, k: int|
                in_square(dst_size as int, xp, yp) && yp < y + 1 && 0 <= k < 4 implies #[trigger] dst@[pixel_base(
                dst_size as int,
                xp,
                yp,
            ) + k] == box_average(src@, src_size as int, xp, yp, k) by {
                assert(scanned_before(xp, yp, dst_size as int, y as int));
            }
        }
        y += 1;
    }
    proof {
        assert(pixel_base(dst_size as int, 0, dst_size as int) == dst_size * dst_size * 4) by (nonlinear_arith);
    }
    dst
}

/// Halving an evenly filled bitmap keeps it evenly filled: when every source
/// pixel holds the same byte `v` in channel `k`, so does every pixel of the
/// half-size bitmap.
pub proof fn lemma_downsample_keeps_flat_color(src: Seq<u8>, src_size: int, x: int, y: int, k: int, v: u8)
    requires
        0 <= x && 2 * x + 1 < src_size,
        0 <= y && 2 * y + 1 < src_size,
        forall|sx: int, sy: int|
            in_square(src_size, sx, sy) ==> #[trigger] channel(src, src_size, sx, sy, k) == v as int,
    ensures
        box_average(src, src_size, x, y, k) == v as int,
{
    assert(channel(src, src_size, 2 * x, 2 * y, k) == v as int);
    assert(channel(src, src_size, 2 * x + 1, 2 * y, k) == v as int);
    assert(channel(src, src_size, 2 * x, 2 * y + 1, k) == v as int);
    assert(channel(src, src_size, 2 * x + 1, 2 * y + 1, k) == v as int);
}

/// Bytes per row of a monochrome mask `width` pixels wide: one bit per pixel,
/// rows padded to a multiple of 16 bits.
pub open spec fn mask_row_stride(width: int) -> int {
    ((width + 15) / 16) * 2
}

/// Entry (`j`, `y`) of a grid `stride` wide, stored row by row.
pub open spec fn cell(stride: int, j: int, y: int) -> int {
    y * stride + j
}

/// Pixel (`x`, `y`) is fully transparent: its alpha byte is zero.
pub open spec fn is_transparent(bits: Seq<u8>, width: int, x: int, y: int) -> bool {
    bits[pixel_base(width, x, y) + 3] == 0
}

/// The mask bit for pixel column `b` of a mask byte, most significant first.
pub open spec fn mask_bit(b: int) -> u8 {
    0x80u8 >> (b as u32)
}

/// Pixel `j * 8 + b` of row `y` is in the bitmap and transparent.
pub open spec fn masked(bits: Seq<u8>, width: int, y: int, j: int, b: int) -> bool {
    j * 8 + b < width && is_transparent(bits, width, j * 8 + b, y)
}

/// Mask byte `j` of row `y` with the first `n` of its eight pixels entered.
pub open spec fn mask_byte(bits: Seq<u8>, width: int, y: int, j: int, n: nat) -> u8
    decreases n,
{
    if n == 0 {
        0
    } else {
        let prev = mask_byte(bits, width, y, j, (n - 1) as nat);
        if masked(bits, width, y, j, n - 1) {
            prev | mask_bit(n - 1)
        } else {
            prev
        }
    }
}

/// How many pixels of mask byte `j` a row scan has entered once it reaches
/// column `x`.
pub open spec fn entered(x: int, j: int) -> nat {
    if x <= j * 8 {
        0
    } else if x - j * 8 >= 8 {
        8
    } else {
        (x - j * 8) as nat
    }
}

/// Entry (`j`, `y`) of a `w` by `h` grid lies inside it.
pub proof fn lemma_cell_in_grid(w: int, h: int, j: int, y: int)
    requires
        0 <= j < w,
        0 <= y < h,
    ensures
        0 <= cell(w, j, y) < w * h,
{
    assert(0 <= y * w + j < w * h) by (nonlinear_arith)
        requires
            0 <= j < w,
            0 <= y < h,
    ;
}

/// Distinct grid entries are stored apart.
proof fn lemma_cells_distinct(w: int, j1: int, y1: int, j2: int, y2: int)
    requires
        0 <= j1 < w,
        0 <= j2 < w,
        j1 != j2 || y1 != y2,
    ensures
        cell(w, j1, y1) != cell(w, j2, y2),
{
    if y1 != y2 {
        if y1 < y2 {
            assert(y1 * w + j1 < y2 * w + j2) by (nonlinear_arith)
                requires
                    0 <= j1 < w,
                    0 <= j2,
                    y1 < y2,
            ;
        } else {
            assert(y2 * w + j2 < y1 * w + j1) by (nonlinear_arith)
                requires
                    0 <= j2 < w,
                    0 <= j1,
                    y2 < y1,
            ;
        }
    }
}

/// Pixels past the right edge add nothing to a mask byte.
proof fn lemma_mask_byte_settles(bits: Seq<u8>, width: int, y: int, j: int, n: nat, m: nat)
    requires
        n <= m,
        j * 8 + n >= width,
    ensures
        mask_byte(bits, width, y, j, m) == mask_byte(bits, width, y, j, n),
    decreases m,
{
    if m > n {
        lemma_mask_byte_settles(bits, width, y, j, n, (m - 1) as nat);
    }
}

proof fn lemma_bit_or(v: u8, b: u32, c: u32)
    requires
        b < 8,
        c < 8,
    ensures
        ((v | (0x80u8 >> c)) & (0x80u8 >> b) != 0) == ((v & (0x80u8 >> b)) != 0 || b == c),
{
    assert(((v | (0x80u8 >> c)) & (0x80u8 >> b) != 0) == ((v & (0x80u8 >> b)) != 0 || b == c))
        by (bit_vector)
        requires
            b < 8,
            c < 8,
    ;
}

proof fn lemma_bit_of_zero(b: u32)
    ensures
        (0u8 & (0x80u8 >> b)) == 0,
{
    assert((0u8 & (0x80u8 >> b)) == 0) by (bit_vector);
}

/// Bit `b` of a mask byte is set exactly when pixel `b` of it was entered and
/// is a transparent pixel of the bitmap.
pub proof fn lemma_mask_byte_bits(bits: Seq<u8>, width: int, y: int, j: int, n: nat, b: int)
    requires
        n <= 8,
        0 <= b < 8,
    ensures
        (mask_byte(bits, width, y, j, n) & mask_bit(b) != 0) == (b < n && masked(
            bits,
            width,
            y,
            j,
            b,
        )),
    decreases n,
{
    if n == 0 {
        lemma_bit_of_zero(b as u32);
    } else {
        lemma_mask_byte_bits(bits, width, y, j, (n - 1) as nat, b);
        if masked(bits, width, y, j, n - 1) {
            lemma_bit_or(mask_byte(bits, width, y, j, (n - 1) as nat), b as u32, (n - 1) as u32);
        }
    }
}

/// The monochrome mask of a `width` by `height` bitmap: one bit per pixel,
/// most significant bit first, rows `mask_row_stride(width)` bytes long; a
/// bit is set exactly when its pixel is fully transparent, and padding bits
/// stay clear.
pub fn mask_from_alpha(bits: &[u8], width: i32, height: i32) -> (mask: Vec<u8>)
    requires
        0 <= width <= i32::MAX - 15,
        0 <= height,
        bits@.len() == width * height * 4,
        width * height * 4 <= i32::MAX,
        mask_row_stride(width as int) * height <= i32::MAX,
    ensures
        mask@.len() == mask_row_stride(width as int) * height,
        forall|j: int, y: int|
            #![trigger mask@[cell(mask_row_stride(width as int), j, y)]]
            0 <= j < mask_row_stride(width as int) && 0 <= y < height ==> mask@[cell(
                mask_row_stride(width as int),
                j,
                y,
            )] == mask_byte(bits@, width as int, y, j, 8),
        forall|x: int, y: int|
            #![trigger is_transparent(bits@, width as int, x, y)]
            0 <= x < width && 0 <= y < height ==> (mask@[cell(
                mask_row_stride(width as int),
                x / 8,
                y,
            )] & mask_bit(x % 8) != 0) == is_transparent(bits@, width as int, x, y),
{
    let row_stride: i32 = ((width + 15) / 16) * 2;
    let ghost stride = row_stride as int;
    proof {
        assert(stride * height >= 0) by (nonlinear_arith)
            requires
                stride >= 0,
                height >= 0,
        ;
    }
    let mut mask: Vec<u8> = vec![0u8; (row_stride * height) as usize];
    proof {
        assert forall|j: int, yp: int|
            #![trigger mask@[cell(stride, j, yp)]]
            0 <= j < stride && 0 <= yp < height implies mask@[cell(stride, j, yp)] == 0 by {
            lemma_cell_in_grid(stride, height as int, j, yp);
        }
    }
    let mut y: i32 = 0;
    while y < height
        invariant
            0 <= y <= height,
            0 <= width,
            stride == row_stride,
            row_stride == mask_row_stride(width as int),
            row_stride >= 0,
            bits@.len() == width * height * 4,
            width * height * 4 <= i32::MAX,
            row_stride * height <= i32::MAX,
            mask@.len() == row_stride * height,
            forall|j: int, yp: int|
                #![trigger mask@[cell(stride, j, yp)]]
                0 <= j < stride && 0 <= yp < y ==> mask@[cell(stride, j, yp)] == mask_byte(
                    bits@,
                    width as int,
                    yp,
                    j,
                    8,
                ),
            forall|j: int, yp: int|
                #![trigger mask@[cell(stride, j, yp)]]
                0 <= j < stride && y <= yp < height ==> mask@[cell(stride, j, yp)] == 0,
        decreases height - y,
    {
        let mut x: i32 = 0;
        while x < width
            invariant
                0 <= y < height,
                0 <= x <= width,
                stride == row_stride,
                row_stride == mask_row_stride(width as int),
                row_stride >= 0,
                bits@.len() == width * height * 4,
                width * height * 4 <= i32::MAX,
                row_stride * height <= i32::MAX,
                mask@.len() == row_stride * height,
                forall|j: int, yp: int|
                    #![trigger mask@[cell(stride, j, yp)]]
                    0 <= j < stride && 0 <= yp < y ==> mask@[cell(stride, j, yp)] == mask_byte(
                        bits@,
                        width as int,
                        yp,
                        j,
                        8,
                    ),
                forall|j: int, yp: int|
                    #![trigger mask@[cell(stride, j, yp)]]
                    0 <= j < stride && y < yp < height ==> mask@[cell(stride, j, yp)] == 0,
                forall|j: int|
                    #![trigger mask@[cell(stride, j, y as int)]]
                    0 <= j < stride ==> mask@[cell(stride, j, y as int)] == mask_byte(
                        bits@,
                        width as int,
                        y as int,
                        j,
                        entered(x as int, j),
                    ),
            decreases width - x,
        {
            let i = pixel_index(width, height, x, y);
            let alpha = bits[i + 3];
            let ghost jx: int = (x as int) / 8;
            let ghost bx: int = (x as int) % 8;
            proof {
                assert(0 <= jx < stride);
                lemma_cell_in_grid(stride, height as int, jx, y as int);
                assert(x as int == jx * 8 + bx);
                assert(entered(x as int, jx) == bx);
                assert(entered(x + 1, jx) == bx + 1);
            }
            let ghost before = mask@;
            if alpha == 0 {
                let byte_index = (y * row_stride + x / 8) as usize;
                assert(byte_index == cell(stride, jx, y as int));
                let bit: u8 = 0x80u8 >> ((x % 8) as u32);
                let old_byte = mask[byte_index];
                mask.set(byte_index, old_byte | bit);
                proof {
                    assert(masked(bits@, width as int, y as int, jx, bx));
                    assert(mask_byte(bits@, width as int, y as int, jx, (bx + 1) as nat)
                        == mask_byte(bits@, width as int, y as int, jx, bx as nat) | mask_bit(bx));
                }
            } else {
                proof {
                    assert(!masked(bits@, width as int, y as int, jx, bx));
                }
            }
            proof {
                assert forall|j: int, yp: int|
                    0 <= j < stride && 0 <= yp < height && (j != jx || yp != y) implies #[trigger] mask@[cell(
                    stride,
                    j,
                    yp,
                )] == before[cell(stride, j, yp)] by {
                    lemma_cells_distinct(stride, j, yp, jx, y as int);
                    lemma_cell_in_grid(stride, height as int, j, yp);
                }
                assert forall|j: int|
                    #![trigger mask@[cell(stride, j, y as int)]]
                    0 <= j < stride implies mask@[cell(stride, j, y as int)] == mask_byte(
                    bits@,
                    width as int,
                    y as int,
                    j,
                    entered(x + 1, j),
                ) by {
                    if j != jx {
                        assert(entered(x + 1, j) == entered(x as int, j));
                        assert(mask@[cell(stride, j, y as int)] == before[cell(
                            stride,
                            j,
                            y as int,
                        )]);
                    }
                }
            }
            x += 1;
        }
        proof {
            assert forall|j: int|
                #![trigger mask@[cell(stride, j, y as int)]]
                0 <= j < stride implies mask@[cell(stride, j, y as int)] == mask_byte(
                bits@,
                width as int,
                y as int,
                j,
                8,
            ) by {
                if entered(width as int, j) < 8 {
                    lemma_mask_byte_settles(
                        bits@,
                        width as int,
                        y as int,
                        j,
                        entered(width as int, j),
                        8,
                    );
                }
            }
        }
        y += 1;
    }
    proof {
        assert forall|x: int, yp: int|
            #![trigger is_transparent(bits@, width as int, x, yp)]
            0 <= x < width && 0 <= yp < height implies (mask@[cell(stride, x / 8, yp)] & mask_bit(
            x % 8,
        ) != 0) == is_transparent(bits@, width as int, x, yp) by {
            assert(0 <= x / 8 < stride);
            lemma_mask_byte_bits(bits@, width as int, yp, x / 8, 8, x % 8);
            assert((x / 8) * 8 + x % 8 == x);
        }
    }
    mask
}

/// A mask bit is set exactly when its pixel's alpha byte is zero: any
/// pixel with some opacity, however little, stays out of the mask.
pub proof fn lemma_mask_bit_iff_alpha_zero(bits: Seq<u8>, width: int, x: int, y: int)
    requires
        0 <= x < width,
    ensures
        (mask_byte(bits, width, y, x / 8, 8) & (0x80u8 >> ((x % 8) as u32)) != 0) == (bits[(y
            * width + x) * 4 + 3] == 0),
{
    lemma_mask_byte_bits(bits, width, y, x / 8, 8, x % 8);
    assert((x / 8) * 8 + x % 8 == x);
}

/// Ink is read from the raw bytes: a pixel holds ink exactly when its green
/// or its blue byte is above 20.
pub proof fn lemma_ink_is_bright_green_or_blue(bits: Seq<u8>, size: int, x: int, y: int)
    ensures
        is_ink(bits, size, x, y) == (bits[(y * size + x) * 4 + 1] > 20 || bits[(y * size + x) * 4]
            > 20),
{
}

/// Each byte of the half-size bitmap is the floor of the mean of the same
/// byte of the four source pixels it covers, so it lies between their
/// smallest and largest value.
pub proof fn lemma_box_average_is_block_mean(src: Seq<u8>, src_size: int, x: int, y: int, k: int)
    ensures
        box_average(src, src_size, x, y, k) == (src[((2 * y) * src_size + 2 * x) * 4 + k] as int
            + src[((2 * y) * src_size + 2 * x + 1) * 4 + k] as int + src[((2 * y + 1) * src_size + 2
            * x) * 4 + k] as int + src[((2 * y + 1) * src_size + 2 * x + 1) * 4 + k] as int) / 4,
        0 <= box_average(src, src_size, x, y, k) <= 255,
{
}

} // verus!
