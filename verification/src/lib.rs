//! Safe-handle layer over a native document-rendering engine.
//!
//! The engine itself (font shaping, content-stream interpretation,
//! rasterization) is an opaque collaborator behind a C ABI. What this crate
//! verifies is the resource-safety discipline that every wrapper follows:
//! context lifecycle (a process-wide base handle, cloned once per thread),
//! ownership transfer for engine-allocated objects under the keep/drop
//! reference-count protocol, reinterpretation of raw buffers as typed
//! geometry records, and the bridge that turns engine failure signals into
//! typed host errors.

use vstd::prelude::*;

/// Halftoned 1-bit pixel buffers.
pub mod bitmap;
/// The device colorspaces pixel buffers are made with.
pub mod colorspace;
/// The per-thread context lifecycle and its configuration knobs.
pub mod context;
/// The engine's allocation state and the keep/drop protocol.
pub mod engine;
/// The host error model and the bridge from native failure signals.
pub mod error;
/// Contone pixel buffers.
pub mod pixmap;
/// Geometry: a point in two-dimensional space.
pub mod point;
/// Geometry: a region defined by four points.
pub mod quad;
/// System font loading: the callbacks the engine calls back into.
pub mod system_font;

pub use bitmap::Bitmap;
pub use colorspace::Colorspace;
pub use context::Context;
pub use context::ContextRegistry;
pub use engine::Engine;
pub use error::Error;
pub use pixmap::Pixmap;
pub use point::Point;
pub use quad::Quad;

verus! {

/// A quad as the native side lays it out: the same eight scalars in the
/// same order, but flat, without the nested point records.
#[derive(Clone, Copy, Debug, PartialEq, Eq, Structural)]
pub struct NativeQuad {
    pub ul_x: i32,
    pub ul_y: i32,
    pub ur_x: i32,
    pub ur_y: i32,
    pub ll_x: i32,
    pub ll_y: i32,
    pub lr_x: i32,
    pub lr_y: i32,
}

/// The native record a host quad reinterprets to.
pub open spec fn native_of_quad(q: Quad) -> NativeQuad {
    NativeQuad {
        ul_x: q.ul.x,
        ul_y: q.ul.y,
        ur_x: q.ur.x,
        ur_y: q.ur.y,
        ll_x: q.ll.x,
        ll_y: q.ll.y,
        lr_x: q.lr.x,
        lr_y: q.lr.y,
    }
}

/// The host quad a native record reinterprets to.
pub open spec fn quad_of_native(n: NativeQuad) -> Quad {
    Quad {
        ul: Point { x: n.ul_x, y: n.ul_y },
        ur: Point { x: n.ur_x, y: n.ur_y },
        ll: Point { x: n.ll_x, y: n.ll_y },
        lr: Point { x: n.lr_x, y: n.lr_y },
    }
}

/// Witness that two record types have identical binary size, so a buffer of
/// one may be reinterpreted as a buffer of the other without per-element
/// conversion. The equality is a verification-time obligation on whoever
/// constructs the witness: a layout mismatch refuses to verify and can
/// never surface at run time.
pub struct AssertSizeEquals<A, B> {
    _phantom: core::marker::PhantomData<(A, B)>,
}

impl<A, B> AssertSizeEquals<A, B> {
    /// The witness itself; constructing it demands the size equality.
    pub fn new() -> (witness: AssertSizeEquals<A, B>)
        requires
            vstd::layout::size_of::<A>() == vstd::layout::size_of::<B>(),
    {
        AssertSizeEquals { _phantom: core::marker::PhantomData }
    }
}

impl Quad {
    /// A host quad read out of one native record.
    pub fn from_native(n: &NativeQuad) -> (q: Quad)
        ensures
            q == quad_of_native(*n),
    {
        Quad {
            ul: Point { x: n.ul_x, y: n.ul_y },
            ur: Point { x: n.ur_x, y: n.ur_y },
            ll: Point { x: n.ll_x, y: n.ll_y },
            lr: Point { x: n.lr_x, y: n.lr_y },
        }
    }
}

/// Takes over a buffer arriving from the native side: a possibly-null
/// record pointer (here, the records themselves, or nothing for null) and
/// the signed element count the native call reported.
///
/// A null buffer and a negative count are each rejected with the matching
/// typed error before any element is touched; otherwise every record is
/// reinterpreted, element for element, in order. The caller must hand over
/// a buffer that really holds `len` records — the ownership-transfer
/// precondition every native call site documents.
pub fn rust_vec_from_ffi_ptr(buffer: Option<Vec<NativeQuad>>, len: i32) -> (r: Result<
    Vec<Quad>,
    Error,
>)
    requires
        vstd::layout::size_of::<NativeQuad>() == vstd::layout::size_of::<Quad>(),
        buffer matches Some(b) ==> len >= 0 ==> b@.len() == len,
    ensures
        buffer is None ==> r == Err::<Vec<Quad>, Error>(Error::UnexpectedNullPtr),
        (buffer is Some && len < 0) ==> r == Err::<Vec<Quad>, Error>(Error::NumericConversion),
        buffer matches Some(b) ==> len >= 0 ==> (r matches Ok(v) && v@ == b@.map_values(
            |n: NativeQuad| quad_of_native(n),
        )),
{
    let _witness = AssertSizeEquals::<NativeQuad, Quad>::new();
    let b = match buffer {
        Some(b) => b,
        None => {
            return Err(Error::UnexpectedNullPtr);
        },
    };
    if len < 0 {
        return Err(Error::NumericConversion);
    }
    let mut records: Vec<Quad> = Vec::new();
    let mut idx: usize = 0;
    while idx < b.len()
        invariant
            idx <= b@.len(),
            records@.len() == idx,
            forall|k: int| 0 <= k < idx ==> records@[k] == quad_of_native(b@[k]),
        decreases b@.len() - idx,
    {
        records.push(Quad::from_native(&b[idx]));
        idx = idx + 1;
    }
    proof {
        assert(records@ =~= b@.map_values(|n: NativeQuad| quad_of_native(n)));
    }
    Ok(records)
}

/// Hands a host record buffer to the native side: the same records in
/// native layout, with the signed element count the native interface
/// expects. A buffer with more records than the signed count can carry is
/// rejected with a conversion error.
pub fn rust_slice_to_ffi_ptr(records: &Vec<Quad>) -> (r: Result<(Vec<NativeQuad>, i32), Error>)
    requires
        vstd::layout::size_of::<NativeQuad>() == vstd::layout::size_of::<Quad>(),
    ensures
        r is Ok <==> records@.len() <= i32::MAX,
        r matches Ok(out) ==> (out.0@ == records@.map_values(|q: Quad| native_of_quad(q))
            && out.1 == records@.len()),
        r is Err ==> r == Err::<(Vec<NativeQuad>, i32), Error>(Error::NumericConversion),
{
    let _witness = AssertSizeEquals::<NativeQuad, Quad>::new();
    if records.len() > i32::MAX as usize {
        return Err(Error::NumericConversion);
    }
    let len: i32 = records.len() as i32;
    let mut buffer: Vec<NativeQuad> = Vec::new();
    let mut idx: usize = 0;
    while idx < records.len()
        invariant
            idx <= records@.len(),
            buffer@.len() == idx,
            forall|k: int| 0 <= k < idx ==> buffer@[k] == native_of_quad(records@[k]),
        decreases records@.len() - idx,
    {
        let q = &records[idx];
        buffer.push(
            NativeQuad {
                ul_x: q.ul.x,
                ul_y: q.ul.y,
                ur_x: q.ur.x,
                ur_y: q.ur.y,
                ll_x: q.ll.x,
                ll_y: q.ll.y,
                lr_x: q.lr.x,
                lr_y: q.lr.y,
            },
        );
        idx = idx + 1;
    }
    proof {
        assert(buffer@ =~= records@.map_values(|q: Quad| native_of_quad(q)));
    }
    Ok((buffer, len))
}

/// Law: the typed-buffer reinterpretation is lossless. Reinterpreting each
/// record to the native layout and back yields the record it started from,
/// and so a whole buffer round-trips element for element.
pub proof fn lemma_quad_buffer_round_trip(qs: Seq<Quad>)
    ensures
        qs.map_values(|q: Quad| native_of_quad(q)).map_values(|n: NativeQuad| quad_of_native(n))
            == qs,
{
    let encoded = qs.map_values(|q: Quad| native_of_quad(q));
    let decoded = encoded.map_values(|n: NativeQuad| quad_of_native(n));
    assert forall|i: int| 0 <= i < qs.len() implies decoded[i] == qs[i] by {
        assert(encoded[i] == native_of_quad(qs[i]));
    }
    assert(decoded =~= qs);
}

} // verus!
