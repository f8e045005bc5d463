//! What holds of the registry across calls, stated over the models that
//! `ServiceMap::register` and `ServiceMap::call` are specified with.
use vstd::prelude::*;

use crate::adapter::ErasedService;
use crate::registry::{dispatched, registered};
use crate::service::{AnyRequest, PinService, Request};

verus! {

/// A request dispatched right after a service was registered for its type is
/// answered by that service, whatever was registered for the type before.
pub proof fn lemma_routes_to_registered<
    A: AnyRequest,
    H: ErasedService<A>,
    S: PinService<Req>,
    Req: Request<A>,
>(before: Map<u64, H>, mid: Map<u64, H>, after: Map<u64, H>, svc: S, req: Req, r: Option<String>)
    requires
        registered::<A, H, S, Req>(before, mid, svc),
        dispatched::<A, H, Req>(mid, after, req, r),
    ensures
        r is Some,
        svc.answers(req, r->Some_0@),
{
}

/// Registering a second service for a type replaces the first: the set of
/// registered types stays the same, and a following dispatch for that type is
/// answered by the second service.
pub proof fn lemma_overwrite<
    A: AnyRequest,
    H: ErasedService<A>,
    S1: PinService<Req>,
    S2: PinService<Req>,
    Req: Request<A>,
>(
    m0: Map<u64, H>,
    m1: Map<u64, H>,
    m2: Map<u64, H>,
    m3: Map<u64, H>,
    first: S1,
    second: S2,
    req: Req,
    r: Option<String>,
)
    requires
        registered::<A, H, S1, Req>(m0, m1, first),
        registered::<A, H, S2, Req>(m1, m2, second),
        dispatched::<A, H, Req>(m2, m3, req, r),
    ensures
        m2.dom() == m1.dom(),
        r is Some,
        second.answers(req, r->Some_0@),
{
    assert(m2.dom() =~= m1.dom());
}

/// Registering a service for one request type leaves the handler of every
/// other type as it was.
pub proof fn lemma_register_isolated<
    A: AnyRequest,
    H: ErasedService<A>,
    S: PinService<Req>,
    Req: Request<A>,
>(before: Map<u64, H>, after: Map<u64, H>, svc: S, k: u64)
    requires
        registered::<A, H, S, Req>(before, after, svc),
        k != Req::key_of(),
    ensures
        after.contains_key(k) == before.contains_key(k),
        before.contains_key(k) ==> after[k] == before[k],
{
}

/// Dispatching a request of one type neither answers through nor changes the
/// handler of any other type.
pub proof fn lemma_dispatch_isolated<A: AnyRequest, H: ErasedService<A>, Req: Request<A>>(
    before: Map<u64, H>,
    after: Map<u64, H>,
    req: Req,
    r: Option<String>,
    k: u64,
)
    requires
        dispatched::<A, H, Req>(before, after, req, r),
        k != Req::key_of(),
    ensures
        after.contains_key(k) == before.contains_key(k),
        before.contains_key(k) ==> after[k] == before[k],
{
}

/// Dispatching a request whose type has no handler gives no response and
/// leaves the registry as it was.
pub proof fn lemma_unknown_type_no_op<A: AnyRequest, H: ErasedService<A>, Req: Request<A>>(
    before: Map<u64, H>,
    after: Map<u64, H>,
    req: Req,
    r: Option<String>,
)
    requires
        !before.contains_key(Req::key_of()),
        dispatched::<A, H, Req>(before, after, req, r),
    ensures
        r is None,
        after == before,
{
}

} // verus!
