//! Order-preserving conversion of sequences, element by element.
use vstd::prelude::*;

use crate::error::{ConversionFailure, TryFromProtoError};

verus! {

/// `ds` and `ws` have the same length and each `ws[i]` carries `ds[i]`.
pub open spec fn all_carried<D, W>(ds: Seq<D>, ws: Seq<W>, carried: spec_fn(D, W) -> bool) -> bool {
    &&& ds.len() == ws.len()
    &&& forall|i: int| 0 <= i < ds.len() ==> #[trigger] carried(ds[i], ws[i])
}

/// The error of the first element of `ws`, from index `i` on, that fails to
/// convert, if any.
pub open spec fn first_error_from<W>(
    ws: Seq<W>,
    error: spec_fn(W) -> Option<ConversionFailure>,
    i: int,
) -> Option<ConversionFailure>
    decreases ws.len() - i,
{
    if i < 0 || i >= ws.len() {
        None
    } else if error(ws[i]) is Some {
        error(ws[i])
    } else {
        first_error_from(ws, error, i + 1)
    }
}

/// The error of the first element of `ws` that fails to convert, if any.
pub open spec fn first_error<W>(
    ws: Seq<W>,
    error: spec_fn(W) -> Option<ConversionFailure>,
) -> Option<ConversionFailure> {
    first_error_from(ws, error, 0)
}

/// Converts every element with `f`, keeping the order.
pub fn map_to_wire<D, W, F: Fn(&D) -> W>(
    ds: &Vec<D>,
    f: F,
    Ghost(carried): Ghost<spec_fn(D, W) -> bool>,
) -> (ws: Vec<W>)
    requires
        forall|d: &D| f.requires((d,)),
        forall|d: &D, w: W| f.ensures((d,), w) ==> carried(*d, w),
    ensures
        all_carried(ds@, ws@, carried),
{
    let mut ws: Vec<W> = Vec::new();
    let mut i: usize = 0;
    while i < ds.len()
        invariant
            i <= ds@.len(),
            ws@.len() == i,
            forall|d: &D| f.requires((d,)),
            forall|d: &D, w: W| f.ensures((d,), w) ==> carried(*d, w),
            forall|j: int| 0 <= j < i ==> #[trigger] carried(ds@[j], ws@[j]),
        decreases ds@.len() - i,
    {
        let w = f(&ds[i]);
        ws.push(w);
        i += 1;
    }
    ws
}

/// Converts every element with `f`, keeping the order, and stops at the first
/// element that fails, whose error it returns unchanged.
pub fn try_map_from_wire<W, D, F: Fn(&W) -> Result<D, TryFromProtoError>>(
    ws: &Vec<W>,
    f: F,
    Ghost(error): Ghost<spec_fn(W) -> Option<ConversionFailure>>,
    Ghost(carried): Ghost<spec_fn(D, W) -> bool>,
) -> (r: Result<Vec<D>, TryFromProtoError>)
    requires
        forall|w: &W| f.requires((w,)),
        forall|w: &W, r: Result<D, TryFromProtoError>|
            f.ensures((w,), r) ==> match r {
                Ok(d) => error(*w) is None && carried(d, *w),
                Err(e) => error(*w) == Some(e@),
            },
    ensures
        match r {
            Ok(ds) => first_error(ws@, error) is None && all_carried(ds@, ws@, carried),
            Err(e) => first_error(ws@, error) == Some(e@),
        },
{
    let mut ds: Vec<D> = Vec::new();
    let mut i: usize = 0;
    while i < ws.len()
        invariant
            i <= ws@.len(),
            ds@.len() == i,
            forall|w: &W| f.requires((w,)),
            forall|w: &W, r: Result<D, TryFromProtoError>|
                f.ensures((w,), r) ==> match r {
                    Ok(d) => error(*w) is None && carried(d, *w),
                    Err(e) => error(*w) == Some(e@),
                },
            forall|j: int| 0 <= j < i ==> #[trigger] carried(ds@[j], ws@[j]),
            first_error(ws@, error) == first_error_from(ws@, error, i as int),
        decreases ws@.len() - i,
    {
        match f(&ws[i]) {
            Ok(d) => {
                ds.push(d);
            },
            Err(e) => {
                return Err(e);
            },
        }
        i += 1;
    }
    Ok(ds)
}

/// The relation of a whole sequence holds at each index.
pub proof fn lemma_all_carried_at<D, W>(ds: Seq<D>, ws: Seq<W>, carried: spec_fn(D, W) -> bool, i: int)
    requires
        all_carried(ds, ws, carried),
        0 <= i < ds.len(),
    ensures
        carried(ds[i], ws[i]),
{
}

/// A relation that implies another, element by element, does so for whole
/// sequences.
pub proof fn lemma_all_carried_weaken<D, W>(
    ds: Seq<D>,
    ws: Seq<W>,
    stronger: spec_fn(D, W) -> bool,
    weaker: spec_fn(D, W) -> bool,
)
    requires
        all_carried(ds, ws, stronger),
        forall|d: D, w: W| #[trigger] stronger(d, w) ==> weaker(d, w),
    ensures
        all_carried(ds, ws, weaker),
{
    assert forall|i: int| 0 <= i < ds.len() implies #[trigger] weaker(ds[i], ws[i]) by {
        assert(stronger(ds[i], ws[i]));
    }
}

/// When every wire element carries its domain element, and an element that
/// carries a value has no error, the whole sequence converts without error.
pub proof fn lemma_carried_has_no_error<D, W>(
    ds: Seq<D>,
    ws: Seq<W>,
    carried: spec_fn(D, W) -> bool,
    error: spec_fn(W) -> Option<ConversionFailure>,
)
    requires
        all_carried(ds, ws, carried),
        forall|d: D, w: W| #[trigger] carried(d, w) ==> error(w) is None,
    ensures
        first_error(ws, error) is None,
{
    lemma_no_error_from(ds, ws, carried, error, 0);
}

proof fn lemma_no_error_from<D, W>(
    ds: Seq<D>,
    ws: Seq<W>,
    carried: spec_fn(D, W) -> bool,
    error: spec_fn(W) -> Option<ConversionFailure>,
    i: int,
)
    requires
        0 <= i,
        all_carried(ds, ws, carried),
        forall|d: D, w: W| #[trigger] carried(d, w) ==> error(w) is None,
    ensures
        first_error_from(ws, error, i) is None,
    decreases ws.len() - i,
{
    if i < ws.len() {
        assert(carried(ds[i], ws[i]));
        lemma_no_error_from(ds, ws, carried, error, i + 1);
    }
}

} // verus!
