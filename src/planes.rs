//! Raw image planes, and the byte layouts that the JPEG encoder takes.
use vstd::prelude::*;

use crate::error::ConvertError;

verus! {

/// One plane of a decoded image: `height` rows of `width` samples, each row
/// starting `stride` bytes after the one before.
pub struct RawPlane {
    pub width: u32,
    pub height: u32,
    pub stride: usize,
    /// Bits that each sample takes in `data`.
    pub storage_bits: u8,
    pub data: Vec<u8>,
}

/// Half of `n`, rounded up.
pub open spec fn ceil_half(n: int) -> int {
    (n + 1) / 2
}

impl RawPlane {
    /// Samples are bytes, rows fit their stride, and `data` holds every row.
    pub open spec fn well_formed(&self) -> bool {
        &&& self.storage_bits == 8
        &&& self.width <= self.stride
        &&& self.data@.len() == self.stride * self.height
    }

    /// The sample at row `i`, column `j`; zero outside the plane.
    pub open spec fn sample(&self, i: int, j: int) -> u8 {
        if 0 <= i < self.height && 0 <= j < self.width {
            self.data@[i * self.stride + j]
        } else {
            0
        }
    }

    /// Checks `well_formed`.
    pub fn check_well_formed(&self) -> (r: bool)
        ensures
            r == self.well_formed(),
    {
        if self.storage_bits != 8 || self.width as usize > self.stride {
            return false;
        }
        let len = self.data.len();
        match self.stride.checked_mul(self.height as usize) {
            Some(n) => n == len,
            None => false,
        }
    }
}

/// Row `i` of `p`, cut or padded with zeros to `tw` samples.
pub open spec fn padded_row(p: RawPlane, i: int, tw: nat) -> Seq<u8> {
    Seq::new(tw, |j: int| p.sample(i, j))
}

/// The first `n` rows of `p`, each padded to `tw` samples, packed tightly.
pub open spec fn padded(p: RawPlane, tw: nat, n: nat) -> Seq<u8>
    decreases n,
{
    if n == 0 {
        Seq::empty()
    } else {
        padded(p, tw, (n - 1) as nat) + padded_row(p, n - 1, tw)
    }
}

/// Row `i` of `p` with each sample looked up in `lut`, packed tightly.
pub open spec fn mapped_row(p: RawPlane, lut: Seq<u8>, i: int) -> Seq<u8> {
    Seq::new(p.width as nat, |j: int| lut[p.sample(i, j) as int])
}

/// The first `n` rows of `p` with each sample looked up in `lut`.
pub open spec fn mapped(p: RawPlane, lut: Seq<u8>, n: nat) -> Seq<u8>
    decreases n,
{
    if n == 0 {
        Seq::empty()
    } else {
        mapped(p, lut, (n - 1) as nat) + mapped_row(p, lut, n - 1)
    }
}

/// `n` rows of `tw` samples take `n * tw` bytes.
pub proof fn lemma_padded_len(p: RawPlane, tw: nat, n: nat)
    ensures
        padded(p, tw, n).len() == n * tw,
    decreases n,
{
    if n > 0 {
        let m = (n - 1) as nat;
        lemma_padded_len(p, tw, m);
        assert(padded(p, tw, n) == padded(p, tw, m) + padded_row(p, n - 1, tw));
        assert(m * tw + tw == n * tw) by (nonlinear_arith)
            requires
                m + 1 == n,
        ;
    } else {
        assert(n * tw == 0) by (nonlinear_arith)
            requires
                n == 0,
        ;
    }
}

/// A remapped plane takes one byte per sample.
pub proof fn lemma_mapped_len(p: RawPlane, lut: Seq<u8>, n: nat)
    ensures
        mapped(p, lut, n).len() == n * p.width,
    decreases n,
{
    let w = p.width as nat;
    if n > 0 {
        let m = (n - 1) as nat;
        lemma_mapped_len(p, lut, m);
        assert(mapped(p, lut, n) == mapped(p, lut, m) + mapped_row(p, lut, n - 1));
        assert(m * w + w == n * w) by (nonlinear_arith)
            requires
                m + 1 == n,
        ;
    } else {
        assert(n * w == 0) by (nonlinear_arith)
            requires
                n == 0,
        ;
    }
}

proof fn lemma_sample_in_data(p: RawPlane, i: int, j: int)
    requires
        p.well_formed(),
        0 <= i < p.height,
        0 <= j < p.width,
    ensures
        i * p.stride + j < p.data@.len(),
{
    assert(i * p.stride + j < p.stride * p.height) by (nonlinear_arith)
        requires
            0 <= i < p.height,
            0 <= j < p.width,
            p.width <= p.stride,
    {
        assert(i * p.stride + p.stride == (i + 1) * p.stride);
        assert((i + 1) * p.stride <= p.height * p.stride);
    }
}

/// Appends the rows of `p`, each padded to `tw` samples, and rows of zeros up
/// to `th` rows.
fn push_padded(out: &mut Vec<u8>, p: &RawPlane, tw: usize, th: usize)
    requires
        p.well_formed(),
    ensures
        final(out)@ == old(out)@ + padded(*p, tw as nat, th as nat),
{
    let ghost base = old(out)@;
    let h = p.height as usize;
    let w = p.width as usize;
    let len = p.data.len();
    let mut i: usize = 0;
    while i < th
        invariant
            p.well_formed(),
            len == p.data@.len(),
            h == p.height,
            w == p.width,
            i <= th,
            out@ == base + padded(*p, tw as nat, i as nat),
        decreases th - i,
    {
        let ghost before = out@;
        let mut j: usize = 0;
        while j < tw
            invariant
                p.well_formed(),
                len == p.data@.len(),
                h == p.height,
                w == p.width,
                i < th,
                j <= tw,
                out@ == before + padded_row(*p, i as int, tw as nat).subrange(0, j as int),
            decreases tw - j,
        {
            let v: u8 = if i < h && j < w {
                proof {
                    lemma_sample_in_data(*p, i as int, j as int);
                }
                p.data[i * p.stride + j]
            } else {
                0
            };
            out.push(v);
            assert(out@ =~= before + padded_row(*p, i as int, tw as nat).subrange(0, j + 1));
            j = j + 1;
        }
        assert(padded_row(*p, i as int, tw as nat).subrange(0, tw as int) =~= padded_row(
            *p,
            i as int,
            tw as nat,
        ));
        assert(out@ =~= base + padded(*p, tw as nat, (i + 1) as nat));
        i = i + 1;
    }
}

/// The chroma planes are half the image, rounded up, and every plane is well
/// formed and fits the padded layout.
pub open spec fn yuv420_layout_ok(w: u32, h: u32, y: RawPlane, cb: RawPlane, cr: RawPlane) -> bool {
    let w2 = ceil_half(w as int);
    let h2 = ceil_half(h as int);
    &&& y.well_formed() && cb.well_formed() && cr.well_formed()
    &&& cb.width == w2 && cb.height == h2
    &&& cr.width == w2 && cr.height == h2
    &&& y.width <= 2 * w2 && y.height <= 2 * h2
    &&& 2 * w2 <= usize::MAX && 2 * h2 <= usize::MAX
}

/// The planar 4:2:0 buffer: the luma plane padded to an even size, then both
/// chroma planes, all packed tightly.
pub open spec fn yuv420_buffer(w: u32, h: u32, y: RawPlane, cb: RawPlane, cr: RawPlane) -> Seq<u8> {
    let w2 = ceil_half(w as int) as nat;
    let h2 = ceil_half(h as int) as nat;
    padded(y, 2 * w2, 2 * h2) + padded(cb, w2, h2) + padded(cr, w2, h2)
}

/// Packs the planes of a `w` x `h` YCbCr 4:2:0 image into one planar buffer
/// for the JPEG encoder: luma `2*ceil(w/2)` x `2*ceil(h/2)`, each chroma plane
/// `ceil(w/2)` x `ceil(h/2)`, padded right and below with zeros. Planes of
/// any other shape are refused.
pub fn pack_yuv420(w: u32, h: u32, y: &RawPlane, cb: &RawPlane, cr: &RawPlane) -> (r: Result<
    Vec<u8>,
    ConvertError,
>)
    ensures
        yuv420_layout_ok(w, h, *y, *cb, *cr) <==> r is Ok,
        r matches Ok(buf) ==> buf@ == yuv420_buffer(w, h, *y, *cb, *cr),
        r is Err ==> r matches Err(ConvertError::UnsupportedFormat),
{
    let w2: usize = (w / 2 + w % 2) as usize;
    let h2: usize = (h / 2 + h % 2) as usize;
    let w1: usize = match w2.checked_add(w2) {
        Some(n) => n,
        None => return Err(ConvertError::UnsupportedFormat),
    };
    let h1: usize = match h2.checked_add(h2) {
        Some(n) => n,
        None => return Err(ConvertError::UnsupportedFormat),
    };
    if !y.check_well_formed() || !cb.check_well_formed() || !cr.check_well_formed() {
        return Err(ConvertError::UnsupportedFormat);
    }
    if cb.width as usize != w2 || cb.height as usize != h2 || cr.width as usize != w2
        || cr.height as usize != h2 {
        return Err(ConvertError::UnsupportedFormat);
    }
    if y.width as usize > w1 || y.height as usize > h1 {
        return Err(ConvertError::UnsupportedFormat);
    }
    let mut buf: Vec<u8> = Vec::new();
    push_padded(&mut buf, y, w1, h1);
    push_padded(&mut buf, cb, w2, h2);
    push_padded(&mut buf, cr, w2, h2);
    assert(buf@ =~= yuv420_buffer(w, h, *y, *cb, *cr));
    Ok(buf)
}

/// The packed buffer takes `w1*h1 + 2*w2*h2` bytes, where `w2`, `h2` are the
/// halves of the image rounded up and `w1 = 2*w2`, `h1 = 2*h2`.
pub proof fn lemma_yuv420_buffer_len(w: u32, h: u32, y: RawPlane, cb: RawPlane, cr: RawPlane)
    ensures
        yuv420_buffer(w, h, y, cb, cr).len() == (2 * ceil_half(w as int)) * (2 * ceil_half(
            h as int,
        )) + 2 * ceil_half(w as int) * ceil_half(h as int),
{
    let w2 = ceil_half(w as int) as nat;
    let h2 = ceil_half(h as int) as nat;
    lemma_padded_len(y, 2 * w2, 2 * h2);
    lemma_padded_len(cb, w2, h2);
    lemma_padded_len(cr, w2, h2);
    assert(2 * h2 * (2 * w2) + h2 * w2 + h2 * w2 == (2 * w2) * (2 * h2) + 2 * w2 * h2)
        by (nonlinear_arith);
}

/// Re-encodes a gain-map plane sample by sample through `lut`, into a tightly
/// packed `width` x `height` grayscale buffer. A plane whose samples are not
/// bytes or whose data does not hold exactly `stride * height` bytes is refused.
pub fn remap_gainmap(p: &RawPlane, lut: &[u8; 256]) -> (r: Result<Vec<u8>, ConvertError>)
    ensures
        p.well_formed() <==> r is Ok,
        r matches Ok(buf) ==> buf@ == mapped(*p, lut@, p.height as nat),
        r is Err ==> r matches Err(ConvertError::UnsupportedFormat),
{
    if !p.check_well_formed() {
        return Err(ConvertError::UnsupportedFormat);
    }
    let h = p.height as usize;
    let w = p.width as usize;
    let len = p.data.len();
    let mut out: Vec<u8> = Vec::new();
    let mut i: usize = 0;
    while i < h
        invariant
            p.well_formed(),
            len == p.data@.len(),
            h == p.height,
            w == p.width,
            i <= h,
            out@ == mapped(*p, lut@, i as nat),
        decreases h - i,
    {
        let ghost before = out@;
        let mut j: usize = 0;
        while j < w
            invariant
                p.well_formed(),
                len == p.data@.len(),
                h == p.height,
                w == p.width,
                i < h,
                j <= w,
                out@ == before + mapped_row(*p, lut@, i as int).subrange(0, j as int),
            decreases w - j,
        {
            proof {
                lemma_sample_in_data(*p, i as int, j as int);
            }
            let u = p.data[i * p.stride + j];
            out.push(lut[u as usize]);
            assert(out@ =~= before + mapped_row(*p, lut@, i as int).subrange(0, j + 1));
            j = j + 1;
        }
        assert(mapped_row(*p, lut@, i as int).subrange(0, w as int) =~= mapped_row(
            *p,
            lut@,
            i as int,
        ));
        assert(out@ =~= mapped(*p, lut@, (i + 1) as nat));
        i = i + 1;
    }
    Ok(out)
}

} // verus!

verus! {

/// Any image, of odd or even size down to 1 x 1, whose well-formed chroma
/// planes are `ceil(w/2)` x `ceil(h/2)` and whose luma plane is `w` x `h`, is
/// accepted by `pack_yuv420` (as far as the padded size fits the machine).
pub proof fn lemma_any_size_packs(w: u32, h: u32, y: RawPlane, cb: RawPlane, cr: RawPlane)
    requires
        y.well_formed() && cb.well_formed() && cr.well_formed(),
        y.width == w && y.height == h,
        cb.width == ceil_half(w as int) && cb.height == ceil_half(h as int),
        cr.width == ceil_half(w as int) && cr.height == ceil_half(h as int),
        2 * ceil_half(w as int) <= usize::MAX && 2 * ceil_half(h as int) <= usize::MAX,
    ensures
        yuv420_layout_ok(w, h, y, cb, cr),
{
}

} // verus!
