//! Host-side RGBA framebuffer and the display backends that present it.
use vstd::prelude::*;

use crate::error::Result;
use crate::text::{decimal, u64_to_decimal};
use vstd::string::StrSliceExecFns;
use crate::seqs::{copy_into_vec, copy_within_bounds, splice};

verus! {

/// Byte offset of pixel `(x, y)` in an RGBA buffer `cols` pixels wide.
pub open spec fn pixel_offset(cols: nat, x: nat, y: nat) -> nat {
    (y * cols + x) * 4
}

/// The RGBA value of pixel `(x, y)` of a `cols` × `rows` buffer, or all
/// zeros outside it.
pub open spec fn pixel_of(bytes: Seq<u8>, cols: nat, rows: nat, x: nat, y: nat) -> (u8, u8, u8, u8) {
    if x < cols && y < rows {
        let o = pixel_offset(cols, x, y) as int;
        (bytes[o], bytes[o + 1], bytes[o + 2], bytes[o + 3])
    } else {
        (0u8, 0u8, 0u8, 0u8)
    }
}

/// `bytes` with pixel `(x, y)` of a `cols` × `rows` buffer set to `c`;
/// unchanged when the pixel lies outside.
pub open spec fn with_pixel(bytes: Seq<u8>, cols: nat, rows: nat, x: nat, y: nat, c: (u8, u8, u8, u8)) -> Seq<u8> {
    if x < cols && y < rows {
        let o = pixel_offset(cols, x, y) as int;
        bytes.update(o, c.0).update(o + 1, c.1).update(o + 2, c.2).update(o + 3, c.3)
    } else {
        bytes
    }
}

/// Number of bytes of row `row` of a rectangle copy: `w` pixels clamped to the
/// part of the framebuffer right of column `x`, clamped again to the bytes of
/// a buffer of `avail` bytes that remain after `start`.
pub open spec fn clamp_copy(cols: nat, x: nat, w: nat, start: int, avail: int) -> int {
    let cb = (if w <= cols - x { w } else { (cols - x) as nat }) * 4;
    if start + cb <= avail { cb as int } else { avail - start }
}

/// The framebuffer bytes after `blit_from` has copied the first `n` rows of the
/// rectangle: row `r` of `src` (at `r * stride`) lands at pixel `(x, y + r)`,
/// clamped to the framebuffer and to the end of `src`; rows below the last
/// framebuffer row are skipped.
pub open spec fn blit_from_rows(
    dst: Seq<u8>,
    cols: nat,
    rows: nat,
    src: Seq<u8>,
    stride: nat,
    x: nat,
    y: nat,
    w: nat,
    n: nat,
) -> Seq<u8>
    decreases n,
{
    if n == 0 {
        dst
    } else {
        let prev = blit_from_rows(dst, cols, rows, src, stride, x, y, w, (n - 1) as nat);
        let r = (n - 1) as nat;
        if y + r >= rows {
            prev
        } else {
            let s0: int = (r * stride) as int;
            let act = clamp_copy(cols, x, w, s0, src.len() as int);
            let d0: int = ((y + r) * cols * 4 + x * 4) as int;
            let len = if d0 + act <= prev.len() { act } else { prev.len() - d0 };
            splice(prev, d0, src.subrange(s0, s0 + len))
        }
    }
}

/// The contents of `dst` after `blit_to` has copied the first `n` rows: pixel
/// row `y + r` of the framebuffer (from column `x`) lands at `r * stride` in
/// `dst`, clamped to the framebuffer and to the end of `dst`; later rows
/// overwrite earlier ones where they overlap.
pub open spec fn blit_to_rows(
    dst: Seq<u8>,
    fb: Seq<u8>,
    cols: nat,
    rows: nat,
    stride: nat,
    x: nat,
    y: nat,
    w: nat,
    n: nat,
) -> Seq<u8>
    decreases n,
{
    if n == 0 {
        dst
    } else {
        let prev = blit_to_rows(dst, fb, cols, rows, stride, x, y, w, (n - 1) as nat);
        let r = (n - 1) as nat;
        if y + r >= rows {
            prev
        } else {
            let s0: int = ((y + r) * cols * 4 + x * 4) as int;
            let act = clamp_copy(cols, x, w, s0, fb.len() as int);
            let d0: int = (r * stride) as int;
            let len = if d0 + act <= prev.len() { act } else { prev.len() - d0 };
            if act == 0 {
                prev
            } else {
                splice(prev, d0, fb.subrange(s0, s0 + len))
            }
        }
    }
}

/// Byte offset of row `r` in a buffer whose rows are `stride` bytes apart.
pub open spec fn row_start(r: nat, stride: nat) -> nat {
    r * stride
}

/// Whether `blit_from` can copy a `w` x `h` rectangle at `(x, y)` from a
/// buffer of `src_len` bytes with rows `stride` bytes apart: every row that
/// lands inside the framebuffer must start within the source. A rectangle
/// that starts right of the framebuffer copies nothing and needs nothing.
pub open spec fn blit_from_fits(cols: nat, rows: nat, src_len: nat, stride: nat, x: nat, y: nat, h: nat) -> bool {
    forall|r: nat| r < h && y + r < rows && x <= cols ==> #[trigger] row_start(r, stride) <= src_len
}

/// Whether `blit_to` can copy a `w` x `h` rectangle at `(x, y)` into a buffer
/// of `dst_len` bytes with rows `stride` bytes apart: every row that holds
/// framebuffer bytes must start within the destination.
pub open spec fn blit_to_fits(cols: nat, rows: nat, dst_len: nat, stride: nat, x: nat, y: nat, w: nat, h: nat) -> bool {
    forall|r: nat|
        r < h && y + r < rows ==> x <= cols && (w > 0 && x < cols ==> #[trigger] row_start(r, stride) <= dst_len)
}

proof fn lemma_pixel_in_bounds(cols: nat, rows: nat, x: nat, y: nat)
    requires
        x < cols,
        y < rows,
    ensures
        pixel_offset(cols, x, y) + 4 <= cols * rows * 4,
        y * cols <= y * cols + x,
        y * cols + x <= (y * cols + x) * 4,
{
    assert((y * cols + x) * 4 + 4 <= cols * rows * 4) by (nonlinear_arith)
        requires
            x < cols,
            y < rows,
    ;
    assert(y * cols >= 0) by (nonlinear_arith);
}

proof fn lemma_row_in_bounds(cols: nat, rows: nat, x: nat, y: nat)
    requires
        x <= cols,
        y < rows,
    ensures
        y * cols * 4 + x * 4 + (cols - x) * 4 <= cols * rows * 4,
        cols * 4 <= cols * rows * 4,
{
    assert(y * cols * 4 + x * 4 + (cols - x) * 4 <= cols * rows * 4) by (nonlinear_arith)
        requires
            x <= cols,
            y < rows,
    ;
    assert(cols * 4 <= cols * rows * 4) by (nonlinear_arith)
        requires
            y < rows,
    ;
}

proof fn lemma_from_rows_past_end(
    dst: Seq<u8>,
    cols: nat,
    rows: nat,
    src: Seq<u8>,
    stride: nat,
    x: nat,
    y: nat,
    w: nat,
    k: nat,
    n: nat,
)
    requires
        k <= n,
        y + k >= rows,
    ensures
        blit_from_rows(dst, cols, rows, src, stride, x, y, w, n) == blit_from_rows(
            dst,
            cols,
            rows,
            src,
            stride,
            x,
            y,
            w,
            k,
        ),
    decreases n - k,
{
    if n > k {
        lemma_from_rows_past_end(dst, cols, rows, src, stride, x, y, w, k, (n - 1) as nat);
    }
}

proof fn lemma_to_rows_past_end(
    dst: Seq<u8>,
    fb: Seq<u8>,
    cols: nat,
    rows: nat,
    stride: nat,
    x: nat,
    y: nat,
    w: nat,
    k: nat,
    n: nat,
)
    requires
        k <= n,
        y + k >= rows,
    ensures
        blit_to_rows(dst, fb, cols, rows, stride, x, y, w, n) == blit_to_rows(
            dst,
            fb,
            cols,
            rows,
            stride,
            x,
            y,
            w,
            k,
        ),
    decreases n - k,
{
    if n > k {
        lemma_to_rows_past_end(dst, fb, cols, rows, stride, x, y, w, k, (n - 1) as nat);
    }
}

/// Simple RGBA framebuffer stored in host memory.
pub struct Framebuffer {
    width: u32,
    height: u32,
    pixels: Vec<u8>,  // width * height * 4 (RGBA)
}

impl Framebuffer {
    /// The buffer holds four bytes for each pixel.
    pub closed spec fn wf(&self) -> bool {
        self.pixels@.len() == self.width * self.height * 4
    }

    /// Width in pixels.
    pub closed spec fn cols(&self) -> nat {
        self.width as nat
    }

    /// Height in pixels.
    pub closed spec fn rows(&self) -> nat {
        self.height as nat
    }

    /// The RGBA bytes, row by row.
    pub closed spec fn bytes(&self) -> Seq<u8> {
        self.pixels@
    }

    /// Create a new framebuffer with the given dimensions (pixels initialised to 0).
    pub fn new(width: u32, height: u32) -> (fb: Self)
        requires
            width * height * 4 <= usize::MAX,
        ensures
            fb.wf(),
            fb.cols() == width,
            fb.rows() == height,
            fb.bytes() == Seq::new((width * height * 4) as nat, |i: int| 0u8),
    {
        assert(width * height <= width * height * 4) by (nonlinear_arith);
        let n = (width as usize) * (height as usize) * 4;
        let pixels = vec![0u8; n];
        assert(pixels@ =~= Seq::new((width * height * 4) as nat, |i: int| 0u8));
        Framebuffer { width, height, pixels }
    }

    pub fn width(&self) -> (w: u32)
        ensures
            w == self.cols(),
    {
        self.width
    }

    pub fn height(&self) -> (h: u32)
        ensures
            h == self.rows(),
    {
        self.height
    }

    /// Number of bytes per row (always `width * 4` for RGBA).
    pub fn stride(&self) -> (s: u32)
        requires
            self.cols() * 4 <= u32::MAX,
        ensures
            s == self.cols() * 4,
    {
        self.width * 4
    }

    /// The framebuffer as its debug form shows it: width, height and stride,
    /// the pixels left out.
    pub fn debug_text(&self) -> (s: String)
        requires
            self.cols() * 4 <= u32::MAX,
        ensures
            s@ == "Framebuffer { width: "@ + decimal(self.cols()) + ", height: "@ + decimal(self.rows())
                + ", stride: "@ + decimal(self.cols() * 4) + ", .. }"@,
    {
        String::from_str("Framebuffer { width: ").concat(u64_to_decimal(self.width as u64).as_str()).concat(
            ", height: ",
        ).concat(u64_to_decimal(self.height as u64).as_str()).concat(", stride: ").concat(
            u64_to_decimal(self.stride() as u64).as_str(),
        ).concat(", .. }")
    }

    /// Read-only access to the pixel data.
    pub fn data(&self) -> (d: &[u8])
        requires
            self.wf(),
        ensures
            d@ == self.bytes(),
            d@.len() == self.cols() * self.rows() * 4,
    {
        self.pixels.as_slice()
    }

    /// Mutable access to the pixel data.
    pub fn data_mut(&mut self) -> (d: &mut [u8])
        requires
            old(self).wf(),
        ensures
            d@.len() == old(self).cols() * old(self).rows() * 4,
            final(d)@.len() == d@.len() ==> final(self).wf(),
            d@ == old(self).bytes(),
            final(self).cols() == old(self).cols(),
            final(self).rows() == old(self).rows(),
            final(self).bytes() == final(d)@,
    {
        self.pixels.as_mut_slice()
    }

    /// Set a single pixel (bounds-checked — silently ignored if out of range).
    pub fn set_pixel(&mut self, x: u32, y: u32, r: u8, g: u8, b: u8, a: u8)
        requires
            old(self).wf(),
        ensures
            final(self).wf(),
            final(self).cols() == old(self).cols(),
            final(self).rows() == old(self).rows(),
            final(self).bytes() == with_pixel(
                old(self).bytes(),
                old(self).cols(),
                old(self).rows(),
                x as nat,
                y as nat,
                (r, g, b, a),
            ),
    {
        let _len = self.pixels.len();
        if x >= self.width || y >= self.height {
            return;
        }
        proof {
            lemma_pixel_in_bounds(self.width as nat, self.height as nat, x as nat, y as nat);
        }
        let idx = ((y as usize) * (self.width as usize) + (x as usize)) * 4;
        self.pixels.set(idx, r);
        self.pixels.set(idx + 1, g);
        self.pixels.set(idx + 2, b);
        self.pixels.set(idx + 3, a);
    }

    /// Get a single pixel (returns (0,0,0,0) if out of bounds).
    pub fn get_pixel(&self, x: u32, y: u32) -> (p: (u8, u8, u8, u8))
        requires
            self.wf(),
        ensures
            p == pixel_of(self.bytes(), self.cols(), self.rows(), x as nat, y as nat),
    {
        let _len = self.pixels.len();
        if x >= self.width || y >= self.height {
            return (0, 0, 0, 0);
        }
        proof {
            lemma_pixel_in_bounds(self.width as nat, self.height as nat, x as nat, y as nat);
        }
        let idx = ((y as usize) * (self.width as usize) + (x as usize)) * 4;
        (self.pixels[idx], self.pixels[idx + 1], self.pixels[idx + 2], self.pixels[idx + 3])
    }

    /// Fill the entire framebuffer with a single colour.
    pub fn fill(&mut self, color: [u8; 4])
        requires
            old(self).wf(),
        ensures
            final(self).wf(),
            final(self).cols() == old(self).cols(),
            final(self).rows() == old(self).rows(),
            final(self).bytes() == Seq::new(old(self).bytes().len(), |i: int| color@[i % 4]),
    {
        proof {
            assert(self.width * self.height * 4 == (self.width * self.height) * 4) by (nonlinear_arith);
        }
        let len = self.pixels.len();
        let ghost old_len = len as nat;
        let ghost w0 = self.width;
        let ghost h0 = self.height;
        let mut i: usize = 0;
        while i < len
            invariant
                len == self.pixels@.len(),
                len == old_len,
                self.width == w0,
                self.height == h0,
                len == w0 * h0 * 4,
                len % 4 == 0,
                i % 4 == 0,
                i <= len,
                forall|k: int| 0 <= k < i ==> self.pixels@[k] == color@[k % 4],
            decreases len - i,
        {
            self.pixels.set(i, color[0]);
            self.pixels.set(i + 1, color[1]);
            self.pixels.set(i + 2, color[2]);
            self.pixels.set(i + 3, color[3]);
            i = i + 4;
        }
        assert(self.pixels@ =~= Seq::new(old_len, |k: int| color@[k % 4]));
    }

    /// Copy a rectangle from `src` into the framebuffer at `(x, y)`.
    ///
    /// `src_stride` is the number of bytes per row in `src`.
    /// The copy is clamped to the framebuffer bounds; a rectangle that starts
    /// right of the framebuffer leaves it unchanged.
    pub fn blit_from(&mut self, src: &[u8], src_stride: u32, x: u32, y: u32, w: u32, h: u32)
        requires
            old(self).wf(),
            blit_from_fits(
                old(self).cols(),
                old(self).rows(),
                src@.len(),
                src_stride as nat,
                x as nat,
                y as nat,
                h as nat,
            ),
        ensures
            final(self).wf(),
            final(self).cols() == old(self).cols(),
            final(self).rows() == old(self).rows(),
            x <= old(self).cols() ==> final(self).bytes() == blit_from_rows(
                old(self).bytes(),
                old(self).cols(),
                old(self).rows(),
                src@,
                src_stride as nat,
                x as nat,
                y as nat,
                w as nat,
                h as nat,
            ),
            x > old(self).cols() ==> final(self).bytes() == old(self).bytes(),
    {
        if x > self.width {
            return;
        }
        let ghost old_bytes = self.pixels@;
        let ghost cols = self.width as nat;
        let ghost rows = self.height as nat;
        let src_len = src.len();
        let _pixels_len = self.pixels.len();
        let mut row: u32 = 0;
        while row < h
            invariant
                self.width == cols,
                self.height == rows,
                self.pixels@.len() == cols * rows * 4,
                self.pixels@.len() <= usize::MAX,
                src_len == src@.len(),
                row <= h,
                x <= cols,
                blit_from_fits(cols, rows, src@.len(), src_stride as nat, x as nat, y as nat, h as nat),
                self.pixels@ == blit_from_rows(
                    old_bytes,
                    cols,
                    rows,
                    src@,
                    src_stride as nat,
                    x as nat,
                    y as nat,
                    w as nat,
                    row as nat,
                ),
            ensures
                self.pixels@.len() == cols * rows * 4,
                self.width == cols,
                self.height == rows,
                self.pixels@ == blit_from_rows(
                    old_bytes,
                    cols,
                    rows,
                    src@,
                    src_stride as nat,
                    x as nat,
                    y as nat,
                    w as nat,
                    h as nat,
                ),
            decreases h - row,
        {
            let sy64: u64 = y as u64 + row as u64;
            if sy64 >= self.height as u64 {
                proof {
                    lemma_from_rows_past_end(
                        old_bytes,
                        cols,
                        rows,
                        src@,
                        src_stride as nat,
                        x as nat,
                        y as nat,
                        w as nat,
                        row as nat,
                        h as nat,
                    );
                }
                break;
            }
            proof {
                let rr = row as nat;
                assert(rr < h && y + rr < rows);
                assert(blit_from_fits(cols, rows, src@.len(), src_stride as nat, x as nat, y as nat, h as nat));
                assert(row_start(rr, src_stride as nat) <= src@.len());
                assert(x <= cols);
                lemma_row_in_bounds(cols, rows, x as nat, sy64 as nat);
                assert((row as nat) * (src_stride as nat) == row * src_stride);
                assert((sy64 as nat) * cols * 4 == sy64 * self.width * 4);
            }
            let sy = sy64 as usize;
            let sx_start = x as usize;
            let room = self.width as usize - sx_start;
            let copy_w = if (w as usize) <= room { w as usize } else { room };
            let copy_w_bytes = copy_w * 4;
            let src_row_start = row as usize * src_stride as usize;
            let src_end = if copy_w_bytes <= src_len - src_row_start {
                src_row_start + copy_w_bytes
            } else {
                src_len
            };
            let actual = src_end - src_row_start;
            if actual == 0 {
                row = row + 1;
                proof {
                    assert(self.pixels@ =~= splice(
                        self.pixels@,
                        (sy * self.width * 4 + x * 4) as int,
                        src@.subrange(src_row_start as int, src_row_start as int),
                    ));
                }
                continue;
            }
            let dst_start = sy * (self.width as usize) * 4 + sx_start * 4;
            let dst_len = self.pixels.len();
            let dst_end = if actual <= dst_len - dst_start {
                dst_start + actual
            } else {
                dst_len
            };
            let actual = dst_end - dst_start;
            if actual == 0 {
                row = row + 1;
                proof {
                    assert(self.pixels@ =~= splice(
                        self.pixels@,
                        dst_start as int,
                        src@.subrange(src_row_start as int, src_row_start as int),
                    ));
                }
                continue;
            }
            copy_into_vec(&mut self.pixels, dst_start, src, src_row_start, actual);
            row = row + 1;
        }
    }

    /// Copy a rectangle from the framebuffer into `dst` at `(x, y)`.
    ///
    /// `dst_stride` is the number of bytes per row in `dst`.
    pub fn blit_to(&self, dst: &mut [u8], dst_stride: u32, x: u32, y: u32, w: u32, h: u32)
        requires
            self.wf(),
            blit_to_fits(
                self.cols(),
                self.rows(),
                old(dst)@.len(),
                dst_stride as nat,
                x as nat,
                y as nat,
                w as nat,
                h as nat,
            ),
        ensures
            final(dst)@ == blit_to_rows(
                old(dst)@,
                self.bytes(),
                self.cols(),
                self.rows(),
                dst_stride as nat,
                x as nat,
                y as nat,
                w as nat,
                h as nat,
            ),
    {
        let ghost cols = self.width as nat;
        let ghost rows = self.height as nat;
        let dst_len = dst.len();
        let src_len = self.pixels.len();
        let mut row: u32 = 0;
        while row < h
            invariant
                self.width == cols,
                self.height == rows,
                self.pixels@.len() == cols * rows * 4,
                src_len == self.pixels@.len(),
                dst_len == dst@.len(),
                dst@.len() == old(dst)@.len(),
                row <= h,
                blit_to_fits(cols, rows, dst@.len(), dst_stride as nat, x as nat, y as nat, w as nat, h as nat),
                dst@ == blit_to_rows(
                    old(dst)@,
                    self.pixels@,
                    cols,
                    rows,
                    dst_stride as nat,
                    x as nat,
                    y as nat,
                    w as nat,
                    row as nat,
                ),
            ensures
                dst@ == blit_to_rows(
                    old(dst)@,
                    self.pixels@,
                    cols,
                    rows,
                    dst_stride as nat,
                    x as nat,
                    y as nat,
                    w as nat,
                    h as nat,
                ),
            decreases h - row,
        {
            let sy64: u64 = y as u64 + row as u64;
            if sy64 >= self.height as u64 {
                proof {
                    lemma_to_rows_past_end(
                        old(dst)@,
                        self.pixels@,
                        cols,
                        rows,
                        dst_stride as nat,
                        x as nat,
                        y as nat,
                        w as nat,
                        row as nat,
                        h as nat,
                    );
                }
                break;
            }
            proof {
                let rr = row as nat;
                assert(rr < h && y + rr < rows);
                assert(blit_to_fits(cols, rows, dst@.len(), dst_stride as nat, x as nat, y as nat, w as nat, h as nat));
                let rs = row_start(rr, dst_stride as nat);
                assert(x <= cols && (w > 0 && x < cols ==> rs <= dst@.len()));
                lemma_row_in_bounds(cols, rows, x as nat, sy64 as nat);
                assert((sy64 as nat) * cols * 4 == sy64 * self.width * 4);
            }
            let sy = sy64 as usize;
            let sx_start = x as usize;
            let room = self.width as usize - sx_start;
            let copy_w = if (w as usize) <= room { w as usize } else { room };
            let copy_w_bytes = copy_w * 4;
            let src_start = sy * (self.width as usize) * 4 + sx_start * 4;
            let src_end = if copy_w_bytes <= src_len - src_start {
                src_start + copy_w_bytes
            } else {
                src_len
            };
            let actual = src_end - src_start;
            if actual == 0 {
                row = row + 1;
                continue;
            }
            proof {
                assert((row as nat) * (dst_stride as nat) <= dst@.len());
                assert((row as nat) * (dst_stride as nat) == row * dst_stride);
            }
            let dst_start = row as usize * dst_stride as usize;
            let dst_end = if actual <= dst_len - dst_start {
                dst_start + actual
            } else {
                dst_len
            };
            let actual2 = dst_end - dst_start;
            if actual2 == 0 {
                row = row + 1;
                proof {
                    assert(dst@ =~= splice(
                        dst@,
                        dst_start as int,
                        self.pixels@.subrange(src_start as int, src_start as int),
                    ));
                }
                continue;
            }
            copy_within_bounds(dst, dst_start, self.pixels.as_slice(), src_start, actual2);
            row = row + 1;
        }
    }
}

/// Events emitted by a display backend.
#[derive(Debug, Clone, Copy, PartialEq, Eq, Structural)]
pub enum DisplayEvent {
    /// The window needs to be repainted.
    Expose,
    /// The window was closed by the user.
    Close,
    /// The window was resized.
    Resize { w: u32, h: u32 },
    /// No event is available.
    Empty,
}

/// Trait for display backends that present a [`Framebuffer`] to the user.
pub trait DisplayBackend {
    /// Present the latest framebuffer contents.
    fn update(&mut self, fb: &Framebuffer) -> Result<()>;

    /// Set the window title.
    fn set_title(&self, title: &str);

    /// Close the display window.
    fn close(&mut self);

    /// Poll for display events (non-blocking).
    fn process_events(&mut self) -> Vec<DisplayEvent>;
}

/// Headless display backend that discards all output. Useful for CI and
/// testing environments where no windowing system is available.
pub struct NullDisplay {
    updated_once: bool,
}

impl NullDisplay {
    /// Whether a frame has been presented since the display was created.
    pub closed spec fn has_updated(&self) -> bool {
        self.updated_once
    }

    pub fn new() -> (d: Self)
        ensures
            !d.has_updated(),
    {
        NullDisplay { updated_once: false }
    }
}

impl Default for NullDisplay {
    fn default() -> (d: Self)
        ensures
            !d.has_updated(),
    {
        Self::new()
    }
}

impl DisplayBackend for NullDisplay {
    fn update(&mut self, _fb: &Framebuffer) -> (r: Result<()>)
        ensures
            r is Ok,
            final(self).has_updated(),
    {
        if !self.updated_once {
            self.updated_once = true;
        }
        Ok(())
    }

    fn set_title(&self, _title: &str) {
    }

    fn close(&mut self)
        ensures
            final(self).has_updated() == old(self).has_updated(),
    {
    }

    fn process_events(&mut self) -> (events: Vec<DisplayEvent>)
        ensures
            events@.len() == 0,
            final(self).has_updated() == old(self).has_updated(),
    {
        Vec::new()
    }
}

/// Distinct pixels of a buffer `cols` wide start four bytes apart or more.
proof fn lemma_distinct_pixels(cols: nat, x: nat, y: nat, x2: nat, y2: nat)
    requires
        x < cols,
        x2 < cols,
        x != x2 || y != y2,
    ensures
        pixel_offset(cols, x, y) + 4 <= pixel_offset(cols, x2, y2) || pixel_offset(cols, x2, y2) + 4
            <= pixel_offset(cols, x, y),
{
    if y < y2 {
        assert(y * cols + x < y2 * cols + x2) by (nonlinear_arith)
            requires
                y < y2,
                x < cols,
        ;
    } else if y2 < y {
        assert(y2 * cols + x2 < y * cols + x) by (nonlinear_arith)
            requires
                y2 < y,
                x2 < cols,
        ;
    }
}

/// Reading a pixel back after setting it gives the colour that was set.
pub proof fn lemma_get_after_set(bytes: Seq<u8>, cols: nat, rows: nat, x: nat, y: nat, c: (u8, u8, u8, u8))
    requires
        bytes.len() == cols * rows * 4,
        x < cols,
        y < rows,
    ensures
        pixel_of(with_pixel(bytes, cols, rows, x, y, c), cols, rows, x, y) == c,
{
    lemma_pixel_in_bounds(cols, rows, x, y);
}

/// Setting a pixel leaves every other pixel as it was.
pub proof fn lemma_set_keeps_other_pixels(
    bytes: Seq<u8>,
    cols: nat,
    rows: nat,
    x: nat,
    y: nat,
    c: (u8, u8, u8, u8),
    x2: nat,
    y2: nat,
)
    requires
        bytes.len() == cols * rows * 4,
        x != x2 || y != y2,
    ensures
        pixel_of(with_pixel(bytes, cols, rows, x, y, c), cols, rows, x2, y2) == pixel_of(bytes, cols, rows, x2, y2),
{
    if x < cols && y < rows && x2 < cols && y2 < rows {
        lemma_pixel_in_bounds(cols, rows, x, y);
        lemma_pixel_in_bounds(cols, rows, x2, y2);
        lemma_distinct_pixels(cols, x, y, x2, y2);
    }
}

/// After a fill, every pixel inside the buffer has the fill colour.
pub proof fn lemma_get_after_fill(cols: nat, rows: nat, color: Seq<u8>, x: nat, y: nat)
    requires
        color.len() == 4,
        x < cols,
        y < rows,
    ensures
        pixel_of(Seq::new(cols * rows * 4, |i: int| color[i % 4]), cols, rows, x, y) == (
            color[0],
            color[1],
            color[2],
            color[3],
        ),
{
    lemma_pixel_in_bounds(cols, rows, x, y);
    let o = pixel_offset(cols, x, y) as int;
    assert(o % 4 == 0) by (nonlinear_arith)
        requires
            o == (y * cols + x) * 4,
    ;
    assert((o + 1) % 4 == 1 && (o + 2) % 4 == 2 && (o + 3) % 4 == 3);
}

/// Byte offset in the framebuffer where row `j` of a rectangle at `(x, y)`
/// starts.
pub open spec fn rect_row_start(cols: nat, x: nat, y: nat, j: nat) -> nat {
    (y + j) * cols * 4 + x * 4
}

proof fn lemma_rect_rows_ordered(cols: nat, x: nat, y: nat, j: nat, r: nat, w: nat)
    requires
        j < r,
        x + w <= cols,
    ensures
        rect_row_start(cols, x, y, j) + w * 4 <= rect_row_start(cols, x, y, r),
{
    assert((y + j) * cols * 4 + cols * 4 <= (y + r) * cols * 4) by (nonlinear_arith)
        requires
            j < r,
    ;
}

proof fn lemma_rect_row_inside(cols: nat, rows: nat, x: nat, y: nat, r: nat, w: nat)
    requires
        y + r < rows,
        x + w <= cols,
    ensures
        rect_row_start(cols, x, y, r) + w * 4 <= cols * rows * 4,
{
    assert((y + r) * cols * 4 + cols * 4 <= cols * rows * 4) by (nonlinear_arith)
        requires
            y + r < rows,
    ;
}

proof fn lemma_stride_rows_ordered(stride: nat, j: nat, r: nat, w: nat)
    requires
        j < r,
        w * 4 <= stride,
    ensures
        j * stride + w * 4 <= r * stride,
{
    assert(j * stride + stride <= r * stride) by (nonlinear_arith)
        requires
            j < r,
    ;
}

/// Where `blit_from` puts the bytes of a rectangle that lies inside the
/// framebuffer: byte `b` of source row `j` (at `j * stride + b`) lands at
/// byte `b` of framebuffer row `y + j` from column `x`.
pub proof fn lemma_blit_from_places_rows(
    dst: Seq<u8>,
    cols: nat,
    rows: nat,
    src: Seq<u8>,
    stride: nat,
    x: nat,
    y: nat,
    w: nat,
    h: nat,
)
    requires
        dst.len() == cols * rows * 4,
        x + w <= cols,
        y + h <= rows,
        forall|j: nat| j < h ==> #[trigger] row_start(j, stride) + w * 4 <= src.len(),
    ensures
        blit_from_rows(dst, cols, rows, src, stride, x, y, w, h).len() == dst.len(),
        forall|j: nat, b: nat|
            j < h && b < w * 4 ==> #[trigger] blit_from_rows(dst, cols, rows, src, stride, x, y, w, h)[
                (rect_row_start(cols, x, y, j) + b) as int
            ] == src[(j * stride + b) as int],
    decreases h,
{
    if h > 0 {
        let r = (h - 1) as nat;
        lemma_blit_from_places_rows(dst, cols, rows, src, stride, x, y, w, r);
        let prev = blit_from_rows(dst, cols, rows, src, stride, x, y, w, r);
        let s0: int = (r * stride) as int;
        let d0: int = rect_row_start(cols, x, y, r) as int;
        assert(row_start(r, stride) + w * 4 <= src.len());
        lemma_rect_row_inside(cols, rows, x, y, r, w);
        assert(clamp_copy(cols, x, w, s0, src.len() as int) == w * 4);
        assert(d0 == ((y + r) * cols * 4 + x * 4) as int);
        let piece = src.subrange(s0, s0 + w * 4);
        let res = blit_from_rows(dst, cols, rows, src, stride, x, y, w, h);
        assert(res == splice(prev, d0, piece));
        assert forall|j: nat, b: nat| j < h && b < w * 4 implies #[trigger] res[(rect_row_start(cols, x, y, j) + b) as int]
            == src[(j * stride + b) as int] by {
            if j < r {
                lemma_rect_rows_ordered(cols, x, y, j, r, w);
                assert(prev[(rect_row_start(cols, x, y, j) + b) as int] == src[(j * stride + b) as int]);
            } else {
                assert(j == r);
            }
        }
    }
}

/// Where `blit_to` puts the bytes of a rectangle that lies inside the
/// framebuffer, when destination rows do not overlap: byte `b` of
/// framebuffer row `y + j` from column `x` lands at `j * stride + b`.
pub proof fn lemma_blit_to_places_rows(
    dst: Seq<u8>,
    fb: Seq<u8>,
    cols: nat,
    rows: nat,
    stride: nat,
    x: nat,
    y: nat,
    w: nat,
    h: nat,
)
    requires
        fb.len() == cols * rows * 4,
        x + w <= cols,
        y + h <= rows,
        w * 4 <= stride,
        forall|j: nat| j < h ==> #[trigger] row_start(j, stride) + w * 4 <= dst.len(),
    ensures
        blit_to_rows(dst, fb, cols, rows, stride, x, y, w, h).len() == dst.len(),
        forall|j: nat, b: nat|
            j < h && b < w * 4 ==> #[trigger] blit_to_rows(dst, fb, cols, rows, stride, x, y, w, h)[(j * stride
                + b) as int] == fb[(rect_row_start(cols, x, y, j) + b) as int],
    decreases h,
{
    if h > 0 {
        let r = (h - 1) as nat;
        lemma_blit_to_places_rows(dst, fb, cols, rows, stride, x, y, w, r);
        let prev = blit_to_rows(dst, fb, cols, rows, stride, x, y, w, r);
        let s0: int = rect_row_start(cols, x, y, r) as int;
        let d0: int = (r * stride) as int;
        assert(row_start(r, stride) + w * 4 <= dst.len());
        lemma_rect_row_inside(cols, rows, x, y, r, w);
        assert(s0 == ((y + r) * cols * 4 + x * 4) as int);
        assert(clamp_copy(cols, x, w, s0, fb.len() as int) == w * 4);
        let res = blit_to_rows(dst, fb, cols, rows, stride, x, y, w, h);
        if w > 0 {
            let piece = fb.subrange(s0, s0 + w * 4);
            assert(res == splice(prev, d0, piece));
            assert forall|j: nat, b: nat| j < h && b < w * 4 implies #[trigger] res[(j * stride + b) as int] == fb[
                (rect_row_start(cols, x, y, j) + b) as int
            ] by {
                if j < r {
                    lemma_stride_rows_ordered(stride, j, r, w);
                    assert(prev[(j * stride + b) as int] == fb[(rect_row_start(cols, x, y, j) + b) as int]);
                } else {
                    assert(j == r);
                }
            }
        } else {
            assert(res == prev);
        }
    }
}

/// Copying a rectangle into the framebuffer and copying the same rectangle
/// out again gives back the source rows, when the rectangle lies inside the
/// framebuffer and the rows it is copied out to do not overlap.
pub proof fn lemma_blit_roundtrip(
    fb: Seq<u8>,
    out: Seq<u8>,
    cols: nat,
    rows: nat,
    src: Seq<u8>,
    src_stride: nat,
    out_stride: nat,
    x: nat,
    y: nat,
    w: nat,
    h: nat,
)
    requires
        fb.len() == cols * rows * 4,
        x + w <= cols,
        y + h <= rows,
        forall|j: nat| j < h ==> #[trigger] row_start(j, src_stride) + w * 4 <= src.len(),
        w * 4 <= out_stride,
        forall|j: nat| j < h ==> #[trigger] row_start(j, out_stride) + w * 4 <= out.len(),
    ensures
        forall|j: nat, b: nat|
            j < h && b < w * 4 ==> #[trigger] blit_to_rows(
                out,
                blit_from_rows(fb, cols, rows, src, src_stride, x, y, w, h),
                cols,
                rows,
                out_stride,
                x,
                y,
                w,
                h,
            )[(j * out_stride + b) as int] == src[(j * src_stride + b) as int],
{
    let written = blit_from_rows(fb, cols, rows, src, src_stride, x, y, w, h);
    lemma_blit_from_places_rows(fb, cols, rows, src, src_stride, x, y, w, h);
    lemma_blit_to_places_rows(out, written, cols, rows, out_stride, x, y, w, h);
    assert forall|j: nat, b: nat| j < h && b < w * 4 implies #[trigger] blit_to_rows(
        out,
        written,
        cols,
        rows,
        out_stride,
        x,
        y,
        w,
        h,
    )[(j * out_stride + b) as int] == src[(j * src_stride + b) as int] by {
        assert(written[(rect_row_start(cols, x, y, j) + b) as int] == src[(j * src_stride + b) as int]);
    }
}

proof fn lemma_from_rows_clamped_width(
    dst: Seq<u8>,
    cols: nat,
    rows: nat,
    src: Seq<u8>,
    stride: nat,
    x: nat,
    y: nat,
    w: nat,
    cw: nat,
    n: nat,
)
    requires
        x <= cols,
        cw == (if w <= cols - x { w } else { (cols - x) as nat }),
    ensures
        blit_from_rows(dst, cols, rows, src, stride, x, y, w, n) == blit_from_rows(
            dst,
            cols,
            rows,
            src,
            stride,
            x,
            y,
            cw,
            n,
        ),
    decreases n,
{
    if n > 0 {
        lemma_from_rows_clamped_width(dst, cols, rows, src, stride, x, y, w, cw, (n - 1) as nat);
        let r = (n - 1) as nat;
        let s0: int = (r * stride) as int;
        assert(clamp_copy(cols, x, w, s0, src.len() as int) == clamp_copy(cols, x, cw, s0, src.len() as int));
    }
}

proof fn lemma_to_rows_clamped_width(
    dst: Seq<u8>,
    fb: Seq<u8>,
    cols: nat,
    rows: nat,
    stride: nat,
    x: nat,
    y: nat,
    w: nat,
    cw: nat,
    n: nat,
)
    requires
        x <= cols,
        cw == (if w <= cols - x { w } else { (cols - x) as nat }),
    ensures
        blit_to_rows(dst, fb, cols, rows, stride, x, y, w, n) == blit_to_rows(
            dst,
            fb,
            cols,
            rows,
            stride,
            x,
            y,
            cw,
            n,
        ),
    decreases n,
{
    if n > 0 {
        lemma_to_rows_clamped_width(dst, fb, cols, rows, stride, x, y, w, cw, (n - 1) as nat);
        let r = (n - 1) as nat;
        let s0: int = ((y + r) * cols * 4 + x * 4) as int;
        assert(clamp_copy(cols, x, w, s0, fb.len() as int) == clamp_copy(cols, x, cw, s0, fb.len() as int));
    }
}

/// The width, in pixels, that a blit of `w` columns at column `x` copies:
/// `w`, clamped to the columns right of `x`.
pub open spec fn clamped_width(cols: nat, x: nat, w: nat) -> nat {
    if w <= cols - x { w } else { (cols - x) as nat }
}

/// The number of rows that a blit of `h` rows at row `y` copies: `h`,
/// clamped to the rows from `y` on.
pub open spec fn clamped_height(rows: nat, y: nat, h: nat) -> nat {
    if y >= rows { 0 } else if h <= rows - y { h } else { (rows - y) as nat }
}

/// Writing a rectangle with `blit_from` and reading the same rectangle back
/// with `blit_to`, at the same stride, gives back the part of every source
/// row that fell inside the framebuffer: the rectangle is clamped to the
/// framebuffer's right and bottom edges.
pub proof fn lemma_blit_roundtrip_clamped(
    fb: Seq<u8>,
    out: Seq<u8>,
    cols: nat,
    rows: nat,
    src: Seq<u8>,
    stride: nat,
    x: nat,
    y: nat,
    w: nat,
    h: nat,
)
    requires
        fb.len() == cols * rows * 4,
        x <= cols,
        clamped_width(cols, x, w) * 4 <= stride,
        forall|j: nat| j < clamped_height(rows, y, h) ==> #[trigger] row_start(j, stride) + clamped_width(cols, x, w) * 4 <= src.len(),
        out.len() >= src.len(),
    ensures
        forall|j: nat, b: nat|
            j < clamped_height(rows, y, h) && b < clamped_width(cols, x, w) * 4 ==> #[trigger] blit_to_rows(
                out,
                blit_from_rows(fb, cols, rows, src, stride, x, y, w, h),
                cols,
                rows,
                stride,
                x,
                y,
                w,
                h,
            )[(j * stride + b) as int] == src[(j * stride + b) as int],
{
    if y < rows {
        let cw = clamped_width(cols, x, w);
        let hh = clamped_height(rows, y, h);
        let written = blit_from_rows(fb, cols, rows, src, stride, x, y, w, h);
        lemma_from_rows_clamped_width(fb, cols, rows, src, stride, x, y, w, cw, h);
        if hh < h {
            lemma_from_rows_past_end(fb, cols, rows, src, stride, x, y, cw, hh, h);
        }
        assert(written == blit_from_rows(fb, cols, rows, src, stride, x, y, cw, hh));
        lemma_to_rows_clamped_width(out, written, cols, rows, stride, x, y, w, cw, h);
        if hh < h {
            lemma_to_rows_past_end(out, written, cols, rows, stride, x, y, cw, hh, h);
        }
        assert forall|j: nat| j < hh implies #[trigger] row_start(j, stride) + cw * 4 <= out.len() by {
            assert(row_start(j, stride) + cw * 4 <= src.len());
        }
        lemma_blit_roundtrip(fb, out, cols, rows, src, stride, stride, x, y, cw, hh);
    }
}

} // verus!
