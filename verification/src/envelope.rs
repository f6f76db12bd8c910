//! The response envelope: the discriminated success/error union that wraps
//! every wire reply.

use vstd::prelude::*;

verus! {

/// The error payload of a failed call: a human-readable description.
#[derive(Clone, Debug, PartialEq, Eq)]
pub struct ApiError {
    pub description: String,
}

/// The discriminated success/error union: exactly one side is populated.
#[derive(Clone, Debug, PartialEq, Eq)]
pub enum WrappingResponse<V> {
    Resp(V),
    Error(ApiError),
}

impl<V> WrappingResponse<V> {
    /// Wraps a raw description as the error side; the lenient fallback uses
    /// this for bodies that are not valid structured data.
    pub fn error(description: String) -> (r: WrappingResponse<V>)
        ensures
            r == WrappingResponse::<V>::Error(ApiError { description }),
    {
        WrappingResponse::Error(ApiError { description })
    }

    /// Unwraps the envelope: the payload on the success side, the error
    /// payload as a failure on the error side.
    pub fn ok(self) -> (r: Result<V, ApiError>)
        ensures
            match self {
                WrappingResponse::Resp(v) => r == Ok::<V, ApiError>(v),
                WrappingResponse::Error(e) => r == Err::<V, ApiError>(e),
            },
    {
        match self {
            WrappingResponse::Resp(v) => Ok(v),
            WrappingResponse::Error(e) => Err(e),
        }
    }

    /// Unwraps the envelope by reference: a borrowed payload on the success
    /// side, the borrowed error payload as a failure on the error side.
    pub fn as_ok(&self) -> (r: Result<&V, &ApiError>)
        ensures
            (self matches WrappingResponse::Resp(v) ==> (r matches Ok(rv) && *rv == v)),
            (self matches WrappingResponse::Error(e) ==> (r matches Err(re) && *re == e)),
    {
        match self {
            WrappingResponse::Resp(v) => Ok(v),
            WrappingResponse::Error(e) => Err(e),
        }
    }

    /// Transforms only the success payload; the error side passes through
    /// untouched.
    pub fn map<V2, F: FnOnce(V) -> V2>(self, f: F) -> (r: WrappingResponse<V2>)
        requires
            forall|v: V| self == WrappingResponse::<V>::Resp(v) ==> f.requires((v,)),
        ensures
            match self {
                WrappingResponse::Resp(v) => r matches WrappingResponse::Resp(w) && f.ensures(
                    (v,),
                    w,
                ),
                WrappingResponse::Error(e) => r == WrappingResponse::<V2>::Error(e),
            },
    {
        match self {
            WrappingResponse::Resp(v) => WrappingResponse::Resp(f(v)),
            WrappingResponse::Error(e) => WrappingResponse::Error(e),
        }
    }
}

/// What [`WrappingResponse::map`] does, as a mathematical function.
pub open spec fn spec_map<V, V2>(w: WrappingResponse<V>, f: spec_fn(V) -> V2) -> WrappingResponse<
    V2,
> {
    match w {
        WrappingResponse::Resp(v) => WrappingResponse::Resp(f(v)),
        WrappingResponse::Error(e) => WrappingResponse::Error(e),
    }
}

/// Mapping transforms the success payload and leaves the error side
/// unchanged: `map(f)` sends `Resp(v)` to `Resp(f(v))` and `Error(e)` to
/// `Error(e)`.
pub proof fn lemma_map_cases<V, V2>(w: WrappingResponse<V>, f: spec_fn(V) -> V2)
    ensures
        match w {
            WrappingResponse::Resp(v) => spec_map(w, f) == WrappingResponse::<V2>::Resp(f(v)),
            WrappingResponse::Error(e) => spec_map(w, f) == WrappingResponse::<V2>::Error(e),
        },
{
}

/// Functor identity law: mapping the identity changes nothing.
pub proof fn lemma_map_identity<V>(w: WrappingResponse<V>)
    ensures
        spec_map(w, |v: V| v) == w,
{
}

/// Functor composition law: mapping twice is mapping the composition.
pub proof fn lemma_map_composition<V, V2, V3>(
    w: WrappingResponse<V>,
    f: spec_fn(V) -> V2,
    g: spec_fn(V2) -> V3,
)
    ensures
        spec_map(spec_map(w, f), g) == spec_map(w, |v: V| g(f(v))),
{
}

/// One page of an ordered listing: the items with the paging window they
/// came from.
#[derive(Clone, Debug, PartialEq, Eq)]
pub struct ListResponse<T> {
    pub items: Vec<T>,
    pub offset: usize,
    pub limit: usize,
    pub total: usize,
}

impl<T> ListResponse<T> {
    /// The single page that holds everything: offset zero, limit and total
    /// both the number of items.
    pub fn all(v: Vec<T>) -> (r: ListResponse<T>)
        ensures
            r.items@ == v@,
            r.offset == 0,
            r.limit == v@.len(),
            r.total == v@.len(),
    {
        let limit = v.len();
        ListResponse { items: v, offset: 0, limit, total: limit }
    }

    /// True when paging bookkeeping is consistent: no page holds more items
    /// than its window allows, and never more than the total.
    pub open spec fn well_formed(self) -> bool {
        &&& self.items@.len() <= vstd::math::max(self.limit as int, 1)
        &&& self.total >= self.items@.len()
    }

    /// The all-in-one page is well formed.
    pub proof fn lemma_all_well_formed(v: Seq<T>, r: ListResponse<T>)
        requires
            r.items@ == v,
            r.offset == 0,
            r.limit == v.len(),
            r.total == v.len(),
        ensures
            r.well_formed(),
    {
    }
}

} // verus!
