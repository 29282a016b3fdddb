//! Counting requests: every request that passes the interceptor adds one to
//! a counter labelled with the path it asked for.

use vstd::prelude::*;

verus! {

/// The name of the request counter.
pub const REQUESTS_COUNTER: &'static str = "requests_count";

/// The label under which the counter is kept apart by path.
pub const PATH_LABEL: &'static str = "path";

/// One addition to a labelled counter.
#[derive(Clone, Debug, PartialEq, Eq)]
pub struct CounterIncrement {
    pub counter: &'static str,
    pub label: &'static str,
    pub value: String,
    pub amount: u64,
}

/// Puts the interceptor in front of a service.
#[derive(Clone, Copy, Debug, PartialEq, Eq, Structural)]
pub struct MetricsLayer;

/// A service with the request counter in front of it.
#[derive(Clone, Debug)]
pub struct MetricsInterceptor<S> {
    inner: S,
}

impl MetricsLayer {
    pub fn new() -> (layer: MetricsLayer)
        ensures
            layer == MetricsLayer,
    {
        MetricsLayer
    }

    /// Wraps `inner`, which is left as it is.
    pub fn layer<S>(&self, inner: S) -> (service: MetricsInterceptor<S>)
        ensures
            service.spec_inner() == inner,
    {
        MetricsInterceptor { inner }
    }
}

impl<S> MetricsInterceptor<S> {
    pub closed spec fn spec_inner(&self) -> S {
        self.inner
    }

    /// The service behind the interceptor.
    pub fn inner(&self) -> (inner: &S)
        ensures
            *inner == self.spec_inner(),
    {
        &self.inner
    }

    /// The service behind the interceptor, to drive it. What is done to it
    /// through the reference is done to the service of the interceptor.
    pub fn inner_mut(&mut self) -> (inner: &mut S)
        ensures
            *inner == old(self).spec_inner(),
            final(self).spec_inner() == *final(inner),
    {
        &mut self.inner
    }

    /// The service behind the interceptor, taken out of it.
    pub fn into_inner(self) -> (inner: S)
        ensures
            inner == self.spec_inner(),
    {
        self.inner
    }

    /// What is counted for a request to `path`: one more request for that
    /// path. The request itself goes on to the service unchanged.
    pub fn call(&self, path: &str) -> (increment: CounterIncrement)
        ensures
            increment.counter@ == REQUESTS_COUNTER@,
            increment.label@ == PATH_LABEL@,
            increment.value@ == path@,
            increment.amount == 1,
    {
        CounterIncrement {
            counter: REQUESTS_COUNTER,
            label: PATH_LABEL,
            value: path.to_owned(),
            amount: 1,
        }
    }
}

} // verus!
