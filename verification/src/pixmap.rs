use vstd::prelude::*;

use crate::colorspace::Colorspace;
use crate::engine::Engine;
use crate::error::Error;

verus! {

/// The engine's default raster resolution, in dots per inch.
pub const DEFAULT_RESOLUTION: i32 = 96;

/// A two-dimensional array of contone pixels, owned through an engine
/// allocation.
///
/// The wrapper owns exactly one reference to the allocation behind
/// `handle()`; `destroy` gives that reference back. The sample buffer holds
/// `width * height * components` bytes, one byte per component, alpha last.
#[derive(Debug)]
pub struct Pixmap {
    inner: u64,
    colorspace: Colorspace,
    width: i32,
    height: i32,
    alpha: bool,
    xres: i32,
    yres: i32,
    samples: Vec<u8>,
}

impl Pixmap {
    /// The engine allocation this wrapper owns.
    pub closed spec fn handle(self) -> u64 {
        self.inner
    }

    /// The colorspace the buffer was made with.
    pub closed spec fn spec_colorspace(self) -> Colorspace {
        self.colorspace
    }

    /// Width of the region in pixels.
    pub closed spec fn spec_width(self) -> i32 {
        self.width
    }

    /// Height of the region in pixels.
    pub closed spec fn spec_height(self) -> i32 {
        self.height
    }

    /// Whether an alpha component follows the color components.
    pub closed spec fn spec_alpha(self) -> bool {
        self.alpha
    }

    /// Horizontal and vertical resolution in dots per inch.
    pub closed spec fn spec_resolution(self) -> (i32, i32) {
        (self.xres, self.yres)
    }

    /// The bytes of the sample buffer.
    pub closed spec fn samples_view(self) -> Seq<u8> {
        self.samples@
    }

    /// Components per pixel, alpha included.
    pub open spec fn components(self) -> int {
        self.spec_colorspace().spec_n() + (if self.spec_alpha() {
            1int
        } else {
            0int
        })
    }

    /// The wrapper owns a live, non-null allocation, its dimensions are
    /// non-negative, and the sample buffer has exactly one byte per
    /// component of every pixel.
    pub open spec fn wf(self, e: Engine) -> bool {
        &&& self.handle() > 0
        &&& e.live(self.handle())
        &&& 0 <= self.spec_width()
        &&& 0 <= self.spec_height()
        &&& self.spec_width() * self.spec_height() * self.components() <= i32::MAX
        &&& self.samples_view().len() == self.spec_width() * self.spec_height()
            * self.components()
    }

    /// The dimensions the engine accepts for a new pixel buffer: nothing
    /// negative, and a sample buffer whose byte count stays within the
    /// engine's signed 32-bit size arithmetic.
    pub open spec fn valid_dimensions(cs: Colorspace, w: i32, h: i32, alpha: bool) -> bool {
        &&& 0 <= w
        &&& 0 <= h
        &&& w * h * (cs.spec_n() + (if alpha {
            1int
        } else {
            0int
        })) <= i32::MAX
    }

    /// A factory call: a fresh pixel buffer of the given size.
    ///
    /// Succeeds exactly on dimensions the engine can allocate; anything
    /// else surfaces as the engine's error, and the engine state is then
    /// untouched. On success the wrapper owns a fresh, live, non-null
    /// allocation and records the requested geometry.
    pub fn new_with_w_h(e: &mut Engine, cs: &Colorspace, w: i32, h: i32, alpha: bool) -> (r: Result<
        Pixmap,
        Error,
    >)
        requires
            old(e).wf(),
            old(e).can_alloc(),
        ensures
            final(e).wf(),
            old(e).next_handle() <= final(e).next_handle() <= old(e).next_handle() + 1,
            r is Ok <==> Pixmap::valid_dimensions(*cs, w, h, alpha),
            r matches Ok(p) ==> {
                &&& p.wf(*final(e))
                &&& !old(e).live(p.handle())
                &&& final(e).allocations() == old(e).allocations().insert(p.handle(), 1)
                &&& p.spec_colorspace() == *cs
                &&& p.spec_width() == w
                &&& p.spec_height() == h
                &&& p.spec_alpha() == alpha
                &&& p.spec_resolution() == (DEFAULT_RESOLUTION, DEFAULT_RESOLUTION)
            },
            r is Err ==> *final(e) == *old(e) && (r matches Err(Error::NativeLibrary(_))),
    {
        if w < 0 || h < 0 {
            return Err(Error::NativeLibrary("pixmap dimensions are negative".to_owned()));
        }
        let n: i64 = cs.n() as i64 + (if alpha {
            1i64
        } else {
            0i64
        });
        proof {
            assert(0 <= (w as int) * (h as int) <= i64::MAX) by (nonlinear_arith)
                requires
                    0 <= w <= i32::MAX,
                    0 <= h <= i32::MAX,
            ;
        }
        let wh: i64 = (w as i64) * (h as i64);
        if wh > i32::MAX as i64 {
            proof {
                assert(cs.spec_n() >= 1);
                assert(w * h * (cs.spec_n() + (if alpha {
                    1int
                } else {
                    0int
                })) > i32::MAX) by (nonlinear_arith)
                    requires
                        w * h > i32::MAX,
                        cs.spec_n() + (if alpha {
                            1int
                        } else {
                            0int
                        }) >= 1,
                ;
            }
            return Err(Error::NativeLibrary("pixmap dimensions overflow".to_owned()));
        }
        proof {
            assert(cs.spec_n() <= 4);
            assert(0 <= (wh as int) * (n as int) <= i64::MAX) by (nonlinear_arith)
                requires
                    0 <= wh <= i32::MAX,
                    1 <= n <= 5,
            ;
        }
        let total: i64 = wh * n;
        if total > i32::MAX as i64 {
            return Err(Error::NativeLibrary("pixmap dimensions overflow".to_owned()));
        }
        let len: usize = total as usize;
        let mut samples: Vec<u8> = Vec::new();
        while samples.len() < len
            invariant
                samples@.len() <= len,
            decreases len - samples@.len(),
        {
            samples.push(0);
        }
        let inner = e.allocate();
        Ok(
            Pixmap {
                inner,
                colorspace: *cs,
                width: w,
                height: h,
                alpha,
                xres: DEFAULT_RESOLUTION,
                yres: DEFAULT_RESOLUTION,
                samples,
            },
        )
    }

    /// Width of the region in pixels.
    pub fn width(&self) -> (w: i32)
        ensures
            w == self.spec_width(),
    {
        self.width
    }

    /// Height of the region in pixels.
    pub fn height(&self) -> (h: i32)
        ensures
            h == self.spec_height(),
    {
        self.height
    }

    /// Components per pixel, alpha included.
    pub fn n(&self) -> (n: i32)
        requires
            self.components() <= i32::MAX,
        ensures
            n == self.components(),
    {
        self.colorspace.n() as i32 + (if self.alpha {
            1i32
        } else {
            0i32
        })
    }

    /// Whether an alpha component follows the color components.
    pub fn alpha(&self) -> (a: bool)
        ensures
            a == self.spec_alpha(),
    {
        self.alpha
    }

    /// The colorspace the buffer was made with.
    pub fn colorspace(&self) -> (cs: Colorspace)
        ensures
            cs == self.spec_colorspace(),
    {
        self.colorspace
    }

    /// Horizontal and vertical resolution in dpi (dots per inch).
    pub fn resolution(&self) -> (r: (i32, i32))
        ensures
            r == self.spec_resolution(),
    {
        (self.xres, self.yres)
    }

    /// The sample bytes, one byte per component.
    pub fn samples(&self) -> (s: &[u8])
        ensures
            s@ == self.samples_view(),
    {
        self.samples.as_slice()
    }

    /// Sets every component of every pixel to zero.
    pub fn clear(&mut self) -> (r: Result<(), Error>)
        ensures
            r is Ok,
            final(self).handle() == old(self).handle(),
            final(self).spec_colorspace() == old(self).spec_colorspace(),
            final(self).spec_width() == old(self).spec_width(),
            final(self).spec_height() == old(self).spec_height(),
            final(self).spec_alpha() == old(self).spec_alpha(),
            final(self).spec_resolution() == old(self).spec_resolution(),
            final(self).samples_view().len() == old(self).samples_view().len(),
            forall|i: int|
                0 <= i < final(self).samples_view().len() ==> final(self).samples_view()[i] == 0,
    {
        let len = self.samples.len();
        let mut zeros: Vec<u8> = Vec::new();
        while zeros.len() < len
            invariant
                zeros@.len() <= len,
                forall|i: int| 0 <= i < zeros@.len() ==> zeros@[i] == 0,
            decreases len - zeros@.len(),
        {
            zeros.push(0);
        }
        self.samples = zeros;
        Ok(())
    }

    /// Shares the allocation under the keep/drop protocol: the engine takes
    /// a second reference and a second wrapper of the same handle comes
    /// back. A wrapper is never copied by copying the bare handle alone;
    /// this is the one way two wrappers may own one allocation, and each
    /// still releases exactly once.
    ///
    /// Each wrapper carries its own snapshot of the sample bytes: writes
    /// through one are not seen through the other, while the shared native
    /// allocation itself is tracked exactly by the reference count.
    pub fn keep(&self, e: &mut Engine) -> (other: Pixmap)
        requires
            old(e).wf(),
            self.wf(*old(e)),
            old(e).refcount(self.handle()) < u64::MAX,
        ensures
            final(e).wf(),
            self.wf(*final(e)),
            other.wf(*final(e)),
            other.handle() == self.handle(),
            other.spec_colorspace() == self.spec_colorspace(),
            other.spec_width() == self.spec_width(),
            other.spec_height() == self.spec_height(),
            other.spec_alpha() == self.spec_alpha(),
            other.spec_resolution() == self.spec_resolution(),
            other.samples_view() == self.samples_view(),
            final(e).next_handle() == old(e).next_handle(),
            final(e).allocations() == old(e).allocations().insert(
                self.handle(),
                (old(e).refcount(self.handle()) + 1) as u64,
            ),
    {
        e.keep(self.inner);
        let mut samples_copy: Vec<u8> = Vec::new();
        let mut i: usize = 0;
        while i < self.samples.len()
            invariant
                i <= self.samples@.len(),
                samples_copy@.len() == i,
                forall|k: int| 0 <= k < i ==> samples_copy@[k] == self.samples@[k],
            decreases self.samples@.len() - i,
        {
            samples_copy.push(self.samples[i]);
            i = i + 1;
        }
        proof {
            assert(samples_copy@ =~= self.samples@);
        }
        Pixmap {
            inner: self.inner,
            colorspace: self.colorspace,
            width: self.width,
            height: self.height,
            alpha: self.alpha,
            xres: self.xres,
            yres: self.yres,
            samples: samples_copy,
        }
    }

    /// Law: a successfully constructed wrapper never holds the null
    /// handle, and what it holds is a live allocation. A factory that
    /// cannot deliver this fails with an error instead of a wrapper.
    pub proof fn lemma_owned_handle_nonnull(self, e: Engine)
        requires
            e.wf(),
            self.wf(e),
        ensures
            self.handle() > 0,
            e.live(self.handle()),
            e.refcount(self.handle()) >= 1,
    {
    }

    /// Gives the wrapper's one reference back to the engine; the allocation
    /// is freed if this was the last reference. Consuming the wrapper makes
    /// a second release of the same ownership impossible.
    pub fn destroy(self, e: &mut Engine)
        requires
            old(e).wf(),
            self.wf(*old(e)),
        ensures
            final(e).wf(),
            old(e).refcount(self.handle()) > 1 ==> final(e).allocations() == old(
                e,
            ).allocations().insert(self.handle(), (old(e).refcount(self.handle()) - 1) as u64),
            old(e).refcount(self.handle()) == 1 ==> final(e).allocations() == old(
                e,
            ).allocations().remove(self.handle()),
            final(e).next_handle() == old(e).next_handle(),
    {
        e.release(self.inner);
    }
}

} // verus!
