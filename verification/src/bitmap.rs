use vstd::prelude::*;

use crate::engine::Engine;
use crate::error::Error;
use crate::pixmap::Pixmap;

verus! {

/// Bitmaps have 1 bit per component. Only used for creating halftoned
/// versions of contone buffers, and saving out. Samples are stored msb
/// first.
///
/// The wrapper owns exactly one reference to the allocation behind
/// `handle()`; `destroy` gives that reference back.
#[derive(Debug)]
pub struct Bitmap {
    inner: u64,
    width: u32,
    height: u32,
    stride: i32,
    n: i32,
    xres: i32,
    yres: i32,
    samples: Vec<u8>,
}

impl Bitmap {
    /// The engine allocation this wrapper owns.
    pub closed spec fn handle(self) -> u64 {
        self.inner
    }

    /// Width of the region in pixels.
    pub closed spec fn spec_width(self) -> u32 {
        self.width
    }

    /// Height of the region in pixels.
    pub closed spec fn spec_height(self) -> u32 {
        self.height
    }

    /// Bytes per row of the bitmap, rounded up to 32-bit alignment.
    pub closed spec fn spec_stride(self) -> i32 {
        self.stride
    }

    /// Components per pixel; a halftoned bitmap has one.
    pub closed spec fn spec_n(self) -> i32 {
        self.n
    }

    /// Horizontal and vertical resolution in dots per inch.
    pub closed spec fn spec_resolution(self) -> (i32, i32) {
        (self.xres, self.yres)
    }

    /// The bytes the sample accessor exposes.
    pub closed spec fn samples_view(self) -> Seq<u8> {
        self.samples@
    }

    /// The wrapper owns a live, non-null allocation and exposes one sample
    /// byte per pixel of the region.
    pub open spec fn wf(self, e: Engine) -> bool {
        &&& self.handle() > 0
        &&& e.live(self.handle())
        &&& self.samples_view().len() == self.spec_width() * self.spec_height()
    }

    /// A conversion factory: halftones a contone pixel buffer into a 1-bit
    /// bitmap.
    ///
    /// The engine supports this conversion exactly for single-component
    /// pixel buffers (gray, without alpha); any other component count is
    /// answered with the engine's error and no new allocation. On success
    /// the bitmap owns a fresh, live, non-null handle, keeps the source's
    /// dimensions and resolution, has one component, and rows padded to
    /// 32-bit alignment.
    pub fn from_pixmap(e: &mut Engine, pixmap: &Pixmap) -> (r: Result<Bitmap, Error>)
        requires
            old(e).wf(),
            old(e).can_alloc(),
            pixmap.wf(*old(e)),
        ensures
            final(e).wf(),
            old(e).next_handle() <= final(e).next_handle() <= old(e).next_handle() + 1,
            r is Ok <==> pixmap.components() == 1,
            r matches Ok(b) ==> {
                &&& b.wf(*final(e))
                &&& !old(e).live(b.handle())
                &&& final(e).allocations() == old(e).allocations().insert(b.handle(), 1)
                &&& b.spec_width() == pixmap.spec_width()
                &&& b.spec_height() == pixmap.spec_height()
                &&& b.spec_n() == 1
                &&& b.spec_stride() == ((pixmap.spec_width() + 31) / 32) * 4
                &&& b.spec_resolution() == pixmap.spec_resolution()
            },
            r is Err ==> *final(e) == *old(e) && (r matches Err(Error::NativeLibrary(_))),
    {
        let n = pixmap.n();
        if n != 1 {
            return Err(
                Error::NativeLibrary("pixmap must be grayscale without alpha".to_owned()),
            );
        }
        let w = pixmap.width();
        let h = pixmap.height();
        let stride: i32 = ((w as i64 + 31) / 32 * 4) as i32;
        proof {
            assert(pixmap.spec_width() * pixmap.spec_height() * 1 == pixmap.spec_width()
                * pixmap.spec_height());
        }
        let len: usize = (w as i64 * h as i64) as usize;
        let mut samples: Vec<u8> = Vec::new();
        while samples.len() < len
            invariant
                samples@.len() <= len,
            decreases len - samples@.len(),
        {
            samples.push(0);
        }
        let (xres, yres) = pixmap.resolution();
        let inner = e.allocate();
        Ok(
            Bitmap {
                inner,
                width: w as u32,
                height: h as u32,
                stride,
                n: 1,
                xres,
                yres,
                samples,
            },
        )
    }

    /// Width of the region in pixels.
    pub fn width(&self) -> (w: u32)
        ensures
            w == self.spec_width(),
    {
        self.width
    }

    /// Height of the region in pixels.
    pub fn height(&self) -> (h: u32)
        ensures
            h == self.spec_height(),
    {
        self.height
    }

    /// Bytes per row of the bitmap.
    pub fn stride(&self) -> (s: i32)
        ensures
            s == self.spec_stride(),
    {
        self.stride
    }

    /// Components per pixel.
    pub fn n(&self) -> (n: i32)
        ensures
            n == self.spec_n(),
    {
        self.n
    }

    /// Horizontal and vertical resolution in dpi (dots per inch).
    pub fn resolution(&self) -> (r: (i32, i32))
        ensures
            r == self.spec_resolution(),
    {
        (self.xres, self.yres)
    }

    /// The sample bytes the wrapper exposes, one per pixel of the region.
    pub fn samples(&self) -> (s: &[u8])
        ensures
            s@ == self.samples_view(),
    {
        self.samples.as_slice()
    }

    /// The sample bytes, open for writing. What the caller writes through
    /// the borrow becomes the bitmap's sample buffer; the handle and the
    /// geometry stay as they were. The borrow cannot outlive the wrapper.
    pub fn samples_mut(&mut self) -> (r: &mut Vec<u8>)
        ensures
            r@ == old(self).samples_view(),
            final(self).samples_view() == final(r)@,
            final(self).handle() == old(self).handle(),
            final(self).spec_width() == old(self).spec_width(),
            final(self).spec_height() == old(self).spec_height(),
            final(self).spec_stride() == old(self).spec_stride(),
            final(self).spec_n() == old(self).spec_n(),
            final(self).spec_resolution() == old(self).spec_resolution(),
    {
        &mut self.samples
    }

    /// Law: a successfully constructed wrapper never holds the null
    /// handle, and what it holds is a live allocation. A factory that
    /// cannot deliver this fails with an error instead of a wrapper.
    pub proof fn lemma_owned_handle_nonnull(self, e: Engine)
        requires
            e.wf(),
            self.wf(e),
        ensures
            self.handle() > 0,
            e.live(self.handle()),
            e.refcount(self.handle()) >= 1,
    {
    }

    /// Gives the wrapper's one reference back to the engine; the allocation
    /// is freed if this was the last reference. Consuming the wrapper makes
    /// a second release of the same ownership impossible.
    pub fn destroy(self, e: &mut Engine)
        requires
            old(e).wf(),
            self.wf(*old(e)),
        ensures
            final(e).wf(),
            old(e).refcount(self.handle()) > 1 ==> final(e).allocations() == old(
                e,
            ).allocations().insert(self.handle(), (old(e).refcount(self.handle()) - 1) as u64),
            old(e).refcount(self.handle()) == 1 ==> final(e).allocations() == old(
                e,
            ).allocations().remove(self.handle()),
            final(e).next_handle() == old(e).next_handle(),
    {
        e.release(self.inner);
    }
}

} // verus!
