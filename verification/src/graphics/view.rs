//! Two-dimensional views of locked surface memory: rows of `pitch` texels of
//! which the first `width` are the picture.

use vstd::prelude::*;
use super::types::Rect;
use vstd::slice::SliceAdditionalExecFns;

verus! {

/// The shape of a locked surface image: `height` rows of `pitch` texels, of
/// which the first `width` of each row belong to the picture.
#[derive(Debug, Clone, Copy)]
pub struct View2D {
    width: usize,
    height: usize,
    pitch: usize,
}

/// The number of rows a 2D copy writes: the rows from `rect.y` on, at most
/// `rect.h` of them, among the first `height` complete rows of the data.
pub open spec fn rows_written(height: nat, pitch: nat, data_len: nat, rect: Rect) -> nat {
    let avail = if data_len / pitch < height { data_len / pitch } else { height };
    if rect.y >= avail {
        0
    } else if rect.h < avail - rect.y {
        rect.h as nat
    } else {
        (avail - rect.y) as nat
    }
}

/// Whether position `i` of the data is written by a 2D copy of `rows` rows
/// starting at row `y`: it lies in one of those rows, in the columns
/// `[x, x + w)` of the rectangle.
pub open spec fn written(i: int, y: int, rows: int, pitch: int, x: int, w: int) -> bool {
    y * pitch <= i < (y + rows) * pitch && x <= i % pitch < x + w
}

/// The source element a written position receives: the source row of the
/// same rectangle row (source rows are `w` elements long), at the column's
/// offset within the rectangle.
pub open spec fn source_index(i: int, y: int, pitch: int, x: int, w: int) -> int {
    (i / pitch - y) * w + (i % pitch - x)
}

proof fn lemma_row_position(i: int, q: int, p: int)
    requires
        p > 0,
        q >= 0,
        q * p <= i < q * p + p,
    ensures
        i / p == q,
        i % p == i - q * p,
{
    vstd::arithmetic::div_mod::lemma_fundamental_div_mod_converse(i, p, q, i - q * p);
}

impl View2D {
    /// Rows are at least as long as the picture is wide, and not empty.
    #[verifier::type_invariant]
    spec fn rows_hold_picture(self) -> bool {
        self.pitch > 0 && self.width <= self.pitch
    }

    pub closed spec fn spec_width(self) -> nat {
        self.width as nat
    }

    pub closed spec fn spec_height(self) -> nat {
        self.height as nat
    }

    pub closed spec fn spec_pitch(self) -> nat {
        self.pitch as nat
    }

    /// The view of `height` rows of `pitch` texels, `width` of them in the picture.
    pub fn new(width: usize, height: usize, pitch: usize) -> (r: Self)
        requires
            pitch > 0,
            width <= pitch,
        ensures
            r.spec_width() == width,
            r.spec_height() == height,
            r.spec_pitch() == pitch,
    {
        View2D { width, height, pitch }
    }

    pub fn height(&self) -> (r: usize)
        ensures
            r == self.spec_height(),
    {
        self.height
    }

    pub fn width(&self) -> (r: usize)
        ensures
            r == self.spec_width(),
    {
        self.width
    }

    pub fn pitch(&self) -> (r: usize)
        ensures
            r == self.spec_pitch(),
            r > 0,
            self.spec_width() <= r,
    {
        proof {
            use_type_invariant(self);
        }
        self.pitch
    }

    /// The position of the texel in row `row`, column `col`.
    pub fn texel_offset(&self, row: usize, col: usize, data_len: usize) -> (r: usize)
        requires
            row * self.spec_pitch() + col < data_len,
        ensures
            r == row * self.spec_pitch() + col,
    {
        proof {
            assert(row * self.pitch <= row * self.pitch + col);
        }
        row * self.pitch + col
    }

    /// The picture part `[start, end)` of row `row`, when the data of `data_len`
    /// texels holds that row completely and it is one of the view's rows.
    pub fn row_bounds(&self, row: usize, data_len: usize) -> (r: Option<(usize, usize)>)
        ensures
            row < self.spec_height() && (row + 1) * self.spec_pitch() <= data_len ==> r == Some(
                ((row * self.spec_pitch()) as usize, (row * self.spec_pitch() + self.spec_width()) as usize),
            ),
            !(row < self.spec_height() && (row + 1) * self.spec_pitch() <= data_len) ==> r is None,
    {
        proof {
            use_type_invariant(self);
        }
        if row < self.height && row < data_len / self.pitch {
            proof {
                assert((row + 1) * self.pitch <= data_len) by (nonlinear_arith)
                    requires
                        row < data_len / self.pitch,
                        self.pitch > 0,
                ;
                assert(row * self.pitch + self.pitch == (row + 1) * self.pitch) by (nonlinear_arith);
            }
            let start = row * self.pitch;
            Some((start, start + self.width))
        } else {
            proof {
                if row < self.height && (row + 1) * self.pitch <= data_len {
                    assert(row < data_len / self.pitch) by (nonlinear_arith)
                        requires
                            (row + 1) * self.pitch <= data_len,
                            self.pitch > 0,
                    ;
                }
            }
            None
        }
    }

    /// Copies a row-major source of `rect.w`-texel rows into the rectangle
    /// `rect` of the picture: source row `r` lands in picture row `rect.y + r`
    /// at columns `rect.x .. rect.x + rect.w`. Rows past the end of the view
    /// (or of the data) are not written.
    pub fn copy_from_slice_2d<T: Copy>(&self, data: &mut [T], src: &[T], rect: Rect)
        requires
            rect.w > 0,
            rect.w * rect.h <= usize::MAX,
            src@.len() >= rect.w * rect.h,
            rows_written(self.spec_height(), self.spec_pitch(), old(data)@.len(), rect) > 0
                ==> rect.x + rect.w <= self.spec_width(),
        ensures
            final(data)@.len() == old(data)@.len(),
            forall|i: int|
                0 <= i < old(data)@.len() ==> #[trigger] final(data)@[i] == if written(
                    i,
                    rect.y as int,
                    rows_written(self.spec_height(), self.spec_pitch(), old(data)@.len(), rect) as int,
                    self.spec_pitch() as int,
                    rect.x as int,
                    rect.w as int,
                ) {
                    src@[source_index(i, rect.y as int, self.spec_pitch() as int, rect.x as int, rect.w as int)]
                } else {
                    old(data)@[i]
                },
    {
        proof {
            use_type_invariant(self);
        }
        let pitch = self.pitch;
        let per_pitch = data.len() / pitch;
        let avail = if per_pitch < self.height { per_pitch } else { self.height };
        let n: usize = if rect.y >= avail {
            0
        } else if rect.h < avail - rect.y {
            rect.h
        } else {
            avail - rect.y
        };
        let data_len = data.len();
        let src_len = src.len();
        let ghost old_data = data@;
        let ghost len = data@.len() as int;
        let ghost y = rect.y as int;
        let ghost x = rect.x as int;
        let ghost w = rect.w as int;
        assert(n == rows_written(self.spec_height(), self.spec_pitch(), old_data.len(), rect));
        proof {
            assert(per_pitch * pitch <= len) by (nonlinear_arith)
                requires
                    per_pitch == len / pitch as int,
                    pitch > 0,
            ;
            if n > 0 {
                assert((y + n) * pitch <= per_pitch * pitch) by (nonlinear_arith)
                    requires
                        y + n <= per_pitch,
                        pitch >= 0,
                ;
            }
            assert(n * w <= rect.h * w) by (nonlinear_arith)
                requires
                    n <= rect.h,
                    w >= 0,
            ;
            assert(rect.h * w == rect.w * rect.h) by (nonlinear_arith)
                requires
                    w == rect.w,
            ;
        }
        let mut k: usize = 0;
        while k < n
            invariant
                k <= n,
                n == rows_written(self.spec_height(), self.spec_pitch(), old_data.len(), rect),
                pitch == self.spec_pitch(),
                pitch > 0,
                y == rect.y,
                x == rect.x,
                w == rect.w,
                n > 0 ==> x + w <= pitch,
                len == old_data.len(),
                data@.len() == len,
                len == data_len,
                src@.len() == src_len,
                n > 0 ==> (y + n) * pitch <= len,
                n * w <= src@.len(),
                forall|i: int|
                    0 <= i < len ==> #[trigger] data@[i] == if written(i, y, k as int, pitch as int, x, w) {
                        src@[source_index(i, y, pitch as int, x, w)]
                    } else {
                        old_data[i]
                    },
            decreases n - k,
        {
            proof {
                assert((y + k + 1) * pitch <= (y + n) * pitch) by (nonlinear_arith)
                    requires
                        k + 1 <= n,
                        pitch >= 0,
                ;
                assert((y + k + 1) * pitch == (y + k) * pitch + pitch) by (nonlinear_arith);
                assert((k + 1) * w <= n * w) by (nonlinear_arith)
                    requires
                        k + 1 <= n,
                        w >= 0,
                ;
                assert((k + 1) * w == k * w + w) by (nonlinear_arith);
            }
            let row_base = (rect.y + k) * pitch;
            let base = row_base + rect.x;
            let sbase = k * rect.w;
            let ghost row_start = data@;
            let mut c: usize = 0;
            while c < rect.w
                invariant
                    c <= w,
                    w == rect.w,
                    x == rect.x,
                    pitch > 0,
                    x + w <= pitch,
                    row_base == (y + k) * pitch,
                    base == row_base + x,
                    row_base + pitch <= len,
                    sbase == k * w,
                    sbase + w <= src@.len(),
                    data@.len() == len,
                    len == data_len,
                    src@.len() == src_len,
                    row_start.len() == len,
                    forall|i: int|
                        0 <= i < len ==> #[trigger] data@[i] == if base <= i < base + c {
                            src@[sbase + (i - base)]
                        } else {
                            row_start[i]
                        },
                decreases w - c,
            {
                data.set(base + c, src[sbase + c]);
                c = c + 1;
            }
            proof {
                assert forall|i: int| 0 <= i < len implies #[trigger] data@[i] == if written(
                    i,
                    y,
                    (k + 1) as int,
                    pitch as int,
                    x,
                    w,
                ) {
                    src@[source_index(i, y, pitch as int, x, w)]
                } else {
                    old_data[i]
                } by {
                    assert(data@[i] == if base <= i < base + w {
                        src@[sbase + (i - base)]
                    } else {
                        row_start[i]
                    });
                    if row_base <= i < row_base + pitch {
                        lemma_row_position(i, y + k, pitch as int);
                        assert(i / (pitch as int) - y == k);
                        assert(source_index(i, y, pitch as int, x, w) == k * w + (i - base));
                        assert(!written(i, y, k as int, pitch as int, x, w));
                        assert(y * pitch <= (y + k) * pitch) by (nonlinear_arith)
                            requires
                                k >= 0,
                                pitch >= 0,
                        ;
                        assert((y + (k + 1)) * pitch == (y + k) * pitch + pitch) by (nonlinear_arith);
                        assert(written(i, y, (k + 1) as int, pitch as int, x, w) == (base <= i < base + w));
                    } else if i < row_base {
                        assert(written(i, y, (k + 1) as int, pitch as int, x, w) == written(i, y, k as int, pitch as int, x, w));
                    } else {
                        assert(!written(i, y, (k + 1) as int, pitch as int, x, w));
                        assert(!written(i, y, k as int, pitch as int, x, w));
                    }
                }
            }
            k = k + 1;
        }
    }
}

/// The extent of a mipmap level along one axis: the base extent halved once per
/// level (rounded down), but never below one texel.
pub open spec fn mip_extent_of(dim: usize, level: u32) -> usize {
    if dim >> level == 0 {
        1
    } else {
        dim >> level
    }
}

/// The extent of mipmap level `level` along an axis of `dim` texels.
pub fn mip_extent(dim: usize, level: u32) -> (r: usize)
    requires
        level < 32,
    ensures
        r == mip_extent_of(dim, level),
{
    let e = dim >> level;
    if e == 0 {
        1
    } else {
        e
    }
}

/// The byte length of mipmap level `level` of a surface: level 0 is the image;
/// level 1 spans the first mip offset; the last level runs from its offset to
/// the end of the mip chain; any other level runs to the next level's offset.
pub open spec fn mip_len_of(
    level: int,
    num_mips: u32,
    image_size: u32,
    mip_size: u32,
    mip_offset: Seq<u32>,
) -> int {
    if level == 0 {
        image_size as int
    } else if level == 1 {
        mip_offset[1] as int
    } else if level == num_mips - 1 {
        mip_size - mip_offset[level - 1]
    } else {
        mip_offset[level] - mip_offset[level - 1]
    }
}

/// The byte length of mipmap level `level` of a surface.
pub fn mip_len(level: usize, num_mips: u32, image_size: u32, mip_size: u32, mip_offset: &[u32]) -> (r: usize)
    requires
        level < mip_offset@.len(),
        level >= 2 ==> num_mips >= 1,
        level >= 2 ==> 0 <= mip_len_of(level as int, num_mips, image_size, mip_size, mip_offset@),
    ensures
        r == mip_len_of(level as int, num_mips, image_size, mip_size, mip_offset@),
{
    if level == 0 {
        image_size as usize
    } else if level == 1 {
        mip_offset[1] as usize
    } else if level as u64 == (num_mips - 1) as u64 {
        (mip_size as usize) - (mip_offset[level - 1] as usize)
    } else {
        (mip_offset[level] as usize) - (mip_offset[level - 1] as usize)
    }
}

} // verus!
