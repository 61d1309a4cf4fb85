//! Verified pixel-buffer transforms: channel swizzles and the row-pitch
//! aware copy used when reading back a mapped capture surface.

use vstd::prelude::*;

verus! {

/// Where byte `k` of a channel-swapped buffer comes from: the blue and red
/// channel of every 4-byte pixel swap, green and alpha stay.
pub open spec fn swap_index(k: int) -> int {
    if k % 4 == 0 {
        k + 2
    } else if k % 4 == 2 {
        k - 2
    } else {
        k
    }
}

/// `src` with the first and third channel of every 4-byte pixel swapped:
/// the BGRA-to-RGBA (equally, RGBA-to-BGRA) conversion.
pub open spec fn channel_swapped_seq(src: Seq<u8>) -> Seq<u8> {
    Seq::new(src.len(), |k: int| src[swap_index(k)])
}

/// `src` with the alpha channel of every 4-byte pixel dropped: the
/// RGBA-to-RGB conversion.
pub open spec fn rgb_of(src: Seq<u8>) -> Seq<u8> {
    Seq::new(3 * (src.len() / 4), |k: int| src[4 * (k / 3) + k % 3])
}

/// `src` (packed RGB) with an opaque alpha byte appended to every pixel:
/// the RGB-to-RGBA conversion.
pub open spec fn with_alpha(src: Seq<u8>) -> Seq<u8> {
    Seq::new(
        4 * (src.len() / 3),
        |k: int|
            if k % 4 == 3 {
                255u8
            } else {
                src[3 * (k / 4) + k % 4]
            },
    )
}

/// Converts packed BGRA bytes to packed RGBA bytes (or back), pixel by
/// pixel.
pub fn bgra_to_rgba(src: &Vec<u8>) -> (r: Vec<u8>)
    requires
        src@.len() % 4 == 0,
    ensures
        r@ == channel_swapped_seq(src@),
{
    let len = src.len();
    let n = len / 4;
    assert(4 * n == len);
    let mut out: Vec<u8> = Vec::new();
    let mut p: usize = 0;
    while p < n
        invariant
            4 * n == src@.len(),
            src@.len() <= usize::MAX,
            p <= n,
            out@.len() == 4 * p,
            forall|k: int| 0 <= k < 4 * p ==> out@[k] == channel_swapped_seq(src@)[k],
        decreases n - p,
    {
        let ghost prev = out@;
        out.push(src[4 * p + 2]);
        out.push(src[4 * p + 1]);
        out.push(src[4 * p]);
        out.push(src[4 * p + 3]);
        assert forall|k: int| 0 <= k < 4 * (p + 1) implies out@[k] == channel_swapped_seq(src@)[k]
            by {
            if k < 4 * p {
                assert(out@[k] == prev[k]);
            } else {
                let j = k - 4 * p;
                assert(k == 4 * p + j && 0 <= j < 4);
                assert(k % 4 == j);
                assert(out@[k] == channel_swapped_seq(src@)[k]);
            }
        }
        p = p + 1;
    }
    assert(out@ =~= channel_swapped_seq(src@));
    out
}

/// Drops the alpha channel: packed RGBA bytes to packed RGB bytes.
pub fn rgba_to_rgb(src: &Vec<u8>) -> (r: Vec<u8>)
    requires
        src@.len() % 4 == 0,
    ensures
        r@ == rgb_of(src@),
        4 * r@.len() == 3 * src@.len(),
{
    let len = src.len();
    let n = len / 4;
    assert(4 * n == len);
    let mut out: Vec<u8> = Vec::new();
    let mut p: usize = 0;
    while p < n
        invariant
            4 * n == src@.len(),
            src@.len() <= usize::MAX,
            p <= n,
            out@.len() == 3 * p,
            forall|k: int| 0 <= k < 3 * p ==> out@[k] == rgb_of(src@)[k],
        decreases n - p,
    {
        let ghost prev = out@;
        out.push(src[4 * p]);
        out.push(src[4 * p + 1]);
        out.push(src[4 * p + 2]);
        assert forall|k: int| 0 <= k < 3 * (p + 1) implies out@[k] == rgb_of(src@)[k] by {
            if k < 3 * p {
                assert(out@[k] == prev[k]);
            } else {
                let j = k - 3 * p;
                assert(k == 3 * p + j && 0 <= j < 3);
                assert(k / 3 == p && k % 3 == j);
                assert(out@[k] == src@[4 * p + j]);
            }
        }
        p = p + 1;
    }
    assert(out@ =~= rgb_of(src@));
    out
}

/// Appends an opaque alpha byte to every pixel: packed RGB bytes to packed
/// RGBA bytes.
pub fn rgb_to_rgba(src: &Vec<u8>) -> (r: Vec<u8>)
    requires
        src@.len() % 3 == 0,
        src@.len() <= usize::MAX - src@.len() / 3,
    ensures
        r@ == with_alpha(src@),
        3 * r@.len() == 4 * src@.len(),
{
    let len = src.len();
    let n = len / 3;
    assert(3 * n == len);
    let mut out: Vec<u8> = Vec::new();
    let mut p: usize = 0;
    while p < n
        invariant
            3 * n == src@.len(),
            src@.len() <= usize::MAX - n,
            p <= n,
            out@.len() == 4 * p,
            forall|k: int| 0 <= k < 4 * p ==> out@[k] == with_alpha(src@)[k],
        decreases n - p,
    {
        let ghost prev = out@;
        out.push(src[3 * p]);
        out.push(src[3 * p + 1]);
        out.push(src[3 * p + 2]);
        out.push(255);
        assert forall|k: int| 0 <= k < 4 * (p + 1) implies out@[k] == with_alpha(src@)[k] by {
            if k < 4 * p {
                assert(out@[k] == prev[k]);
            } else {
                let j = k - 4 * p;
                assert(k == 4 * p + j && 0 <= j < 4);
                assert(k / 4 == p && k % 4 == j);
                if j < 3 {
                    assert(out@[k] == src@[3 * p + j]);
                } else {
                    assert(out@[k] == 255u8);
                }
            }
        }
        p = p + 1;
    }
    assert(out@ =~= with_alpha(src@));
    out
}

/// Copies `height` rows of `4 * width` logical bytes out of a mapped buffer
/// whose rows are `row_pitch` bytes apart. The source row stride may exceed
/// the logical row width, so every row is copied independently rather than
/// as one flat block.
pub fn copy_rows(mapped: &Vec<u8>, width: usize, height: usize, row_pitch: usize) -> (r: Vec<u8>)
    requires
        4 * width <= row_pitch,
        height * row_pitch <= mapped@.len(),
    ensures
        r@.len() == 4 * width * height,
        forall|y: int, i: int|
            0 <= y < height && 0 <= i < 4 * width ==> #[trigger] r@[y * (4 * width) + i]
                == mapped@[y * row_pitch + i],
{
    let total: usize = mapped.len();
    let row_bytes = 4 * width;
    let mut out: Vec<u8> = Vec::new();
    let mut y: usize = 0;
    while y < height
        invariant
            total == mapped@.len(),
            row_bytes == 4 * width,
            row_bytes <= row_pitch,
            height * row_pitch <= mapped@.len(),
            y <= height,
            out@.len() == y * row_bytes,
            forall|yy: int, i: int|
                0 <= yy < y && 0 <= i < row_bytes ==> #[trigger] out@[yy * row_bytes + i]
                    == mapped@[yy * row_pitch + i],
        decreases height - y,
    {
        assert(y * row_pitch + row_pitch <= mapped@.len()) by (nonlinear_arith)
            requires
                y < height,
                height * row_pitch <= mapped@.len(),
                0 <= row_pitch,
        ;
        assert(y * row_bytes <= y * row_pitch) by (nonlinear_arith)
            requires
                row_bytes <= row_pitch,
                0 <= y,
        ;
        let row_start = y * row_pitch;
        let ghost prev = out@;
        let mut i: usize = 0;
        while i < row_bytes
            invariant
                row_start == y * row_pitch,
                row_start + row_bytes <= row_start + row_pitch,
                row_start + row_pitch <= mapped@.len(),
                total == mapped@.len(),
                i <= row_bytes,
                out@.len() == prev.len() + i,
                out@ == prev + mapped@.subrange(row_start as int, row_start + i),
            decreases row_bytes - i,
        {
            out.push(mapped[row_start + i]);
            assert(out@ == prev + mapped@.subrange(row_start as int, row_start + i + 1));
            i = i + 1;
        }
        assert forall|yy: int, ii: int|
            0 <= yy < y + 1 && 0 <= ii < row_bytes implies #[trigger] out@[yy * row_bytes + ii]
            == mapped@[yy * row_pitch + ii] by {
            if yy < y {
                assert(yy * row_bytes + row_bytes <= y * row_bytes) by (nonlinear_arith)
                    requires
                        0 <= yy,
                        yy + 1 <= y,
                        0 <= row_bytes,
                ;
                assert(0 <= yy * row_bytes + ii < prev.len());
                assert(out@[yy * row_bytes + ii] == prev[yy * row_bytes + ii]);
            } else {
                assert(yy * row_bytes == y * row_bytes && yy * row_pitch == y * row_pitch)
                    by (nonlinear_arith)
                    requires
                        yy == y,
                ;
                assert(out@[y * row_bytes + ii] == mapped@.subrange(
                    row_start as int,
                    row_start + row_bytes,
                )[ii]);
            }
        }
        assert((y + 1) * row_bytes == y * row_bytes + row_bytes) by (nonlinear_arith);
        y = y + 1;
    }
    assert(out@.len() == 4 * width * height) by (nonlinear_arith)
        requires
            out@.len() == height * (4 * width),
    ;
    out
}

} // verus!
