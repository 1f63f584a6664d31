//! The generic paginated response envelope, and the rule tying its
//! optional echo fields to the query's response-shaping flags.

use vstd::prelude::*;

use crate::query::Query;

verus! {

/// One page of results, together with pagination and diagnostic metadata.
/// Items are kept exactly as received, in order; the three optional echo
/// fields appear only when the query requested them.
#[verifier::reject_recursive_types(T)]
pub struct Response<T> {
    /// The matching records, in server order.
    pub results: Vec<T>,
    /// True when a further page is available.
    pub more: bool,
    /// Total number of entries matching the filters; present only when the
    /// query set `count`.
    pub count: Option<u32>,
    /// Compact text form of the query's filters; present only when the
    /// query set `compact_filters`.
    pub compact_filters: Option<String>,
    /// Normalized filter tree, as JSON text; present only when the query
    /// set `normalized_filters`.
    pub normalized_filters: Option<String>,
}

/// A response may carry an echo field only when the query asked for it:
/// each optional echo present in `r` requires the corresponding flag of
/// `q` to have been set.
pub open spec fn spec_echo_allowed<R, T>(q: Query<R>, r: Response<T>) -> bool {
    &&& r.count is Some ==> q.count == Some(true)
    &&& r.compact_filters is Some ==> q.compact_filters == Some(true)
    &&& r.normalized_filters is Some ==> q.normalized_filters == Some(true)
}

/// True when the flag is set.
fn flag_set(o: &Option<bool>) -> (b: bool)
    ensures
        b == (*o == Some(true)),
{
    match *o {
        Some(b) => b,
        None => false,
    }
}

impl<T> Response<T> {
    /// Checks that every echo field this response carries was requested by
    /// the query's corresponding flag.
    pub fn echo_allowed<R>(&self, q: &Query<R>) -> (b: bool)
        ensures
            b == spec_echo_allowed(*q, *self),
    {
        let count_ok = !self.count.is_some() || flag_set(&q.count);
        let compact_ok = !self.compact_filters.is_some() || flag_set(&q.compact_filters);
        let normalized_ok = !self.normalized_filters.is_some() || flag_set(&q.normalized_filters);
        count_ok && compact_ok && normalized_ok
    }
}

} // verus!
