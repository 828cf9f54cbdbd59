//! What every request goes through on its way to a handler: tracing, metrics
//! and, outside the operational prefix, the access log.

use vstd::prelude::*;
use vstd::string::StrSliceExecFns;

verus! {

/// The path prefix under which the operational endpoints are mounted.
pub const OPERATIONAL_PREFIX: &'static str = "/internal-backstage";

/// The upper bounds of the latency histogram's buckets, in milliseconds.
pub const LATENCY_BUCKETS: [u32; 6] = [1, 2, 5, 10, 20, 50];

/// `path` is `prefix` itself or lies below it: it starts with `prefix`, and
/// what follows, if anything, starts a new path segment.
pub open spec fn under_prefix(path: Seq<char>, prefix: Seq<char>) -> bool {
    &&& prefix.len() <= path.len()
    &&& path.subrange(0, prefix.len() as int) == prefix
    &&& (path.len() == prefix.len() || path[prefix.len() as int] == '/')
}

/// `path` belongs to the operational endpoints.
pub open spec fn operational(path: Seq<char>) -> bool {
    under_prefix(path, OPERATIONAL_PREFIX@)
}

/// The stages a request passes through. Tracing comes first, so that its
/// context is there for the metrics stage and for the handler.
#[derive(Debug, Clone, Copy, PartialEq, Eq, Structural)]
pub struct Instrumentation {
    /// The request gets a line in the access log.
    pub access_log: bool,
    /// The request runs inside a trace context.
    pub tracing: bool,
    /// The request is counted and its latency observed, exactly once.
    pub metrics: bool,
}

/// Tells whether `path` is `prefix` or lies below it.
pub fn is_under_prefix(path: &str, prefix: &str) -> (b: bool)
    ensures
        b == under_prefix(path@, prefix@),
{
    let n = prefix.unicode_len();
    let m = path.unicode_len();
    if m < n {
        return false;
    }
    let mut i: usize = 0;
    while i < n
        invariant
            i <= n,
            n == prefix@.len(),
            m == path@.len(),
            n <= m,
            forall|j: int| 0 <= j < i ==> path@[j] == prefix@[j],
        decreases n - i,
    {
        if path.get_char(i) != prefix.get_char(i) {
            assert(path@.subrange(0, n as int)[i as int] != prefix@[i as int]);
            return false;
        }
        i += 1;
    }
    assert(path@.subrange(0, n as int) =~= prefix@);
    if m == n {
        true
    } else {
        path.get_char(n) == '/'
    }
}

/// Tells whether `path` belongs to the operational endpoints.
pub fn is_operational(path: &str) -> (b: bool)
    ensures
        b == operational(path@),
{
    is_under_prefix(path, OPERATIONAL_PREFIX)
}

/// The stages for a request to `path`: every request is traced and measured,
/// and every request outside the operational prefix is logged.
pub fn instrumentation_for(path: &str) -> (stages: Instrumentation)
    ensures
        stages.tracing,
        stages.metrics,
        stages.access_log == !operational(path@),
{
    Instrumentation { access_log: !is_operational(path), tracing: true, metrics: true }
}

} // verus!
