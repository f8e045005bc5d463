//! The service registry: at most one erased handler per request type,
//! looked up by the identity of the request's type.
use std::collections::HashMap;
use vstd::prelude::*;

use crate::adapter::{boxed_untyped_service, ErasedService, UntypedService};
use crate::service::{AnyRequest, PinService, Request};

verus! {

broadcast use vstd::std_specs::hash::group_hash_axioms;

/// A handler type that can hold the adapter of a service `S` for requests of
/// type `Req`. An application that registers services of several types uses
/// one handler type with a variant for each.
pub trait HoldsService<A: AnyRequest, S: PinService<Req>, Req: Request<A>>: ErasedService<
    A,
> + Sized {
    fn hold(adapter: UntypedService<S, Req>) -> (h: Self)
        ensures
            adapts::<A, Self, S, Req>(h, adapter.svc),
    ;
}

impl<A: AnyRequest, S: PinService<Req>, Req: Request<A>> HoldsService<A, S, Req> for UntypedService<
    S,
    Req,
> {
    fn hold(adapter: UntypedService<S, Req>) -> (h: Self) {
        adapter
    }
}

/// `h` is built for `Req` and answers as `svc` does on the request recovered
/// from the container.
pub open spec fn adapts<A: AnyRequest, H: ErasedService<A>, S: PinService<Req>, Req: Request<A>>(
    h: H,
    svc: S,
) -> bool {
    &&& h.expected_key() == Req::key_of()
    &&& forall|req: A, resp: Seq<char>|
        #[trigger] h.answers_erased(req, resp) == svc.answers(Req::recovered(req), resp)
}

/// Every handler is stored under the key of the request type it was built for.
pub open spec fn keys_match<A: AnyRequest, H: ErasedService<A>>(m: Map<u64, H>) -> bool {
    forall|k: u64| #[trigger] m.contains_key(k) ==> m[k].expected_key() == k
}

/// `after` is `before` with the entry for `Req` set to an adapter of `svc`,
/// whether or not `Req` had one.
pub open spec fn registered<A: AnyRequest, H: ErasedService<A>, S: PinService<Req>, Req: Request<A>>(
    before: Map<u64, H>,
    after: Map<u64, H>,
    svc: S,
) -> bool {
    &&& after == before.insert(Req::key_of(), after[Req::key_of()])
    &&& adapts::<A, H, S, Req>(after[Req::key_of()], svc)
}

/// The outcome of dispatching `req`: with no handler for `Req`, no response
/// and no change; otherwise the handler's response to the erased request,
/// and only that handler's state changes.
pub open spec fn dispatched<A: AnyRequest, H: ErasedService<A>, Req: Request<A>>(
    before: Map<u64, H>,
    after: Map<u64, H>,
    req: Req,
    r: Option<String>,
) -> bool {
    let k = Req::key_of();
    if before.contains_key(k) {
        &&& r is Some
        &&& before[k].answers_erased(req.erased(), r->Some_0@)
        &&& Req::recovered(req.erased()) == req
        &&& after == before.insert(k, after[k])
        &&& after[k].expected_key() == k
    } else {
        &&& r is None
        &&& after == before
    }
}

/// Maps the identity of a request type to the one handler for that type.
pub struct ServiceMap<A, H> {
    map: HashMap<u64, H>,
    _container: std::marker::PhantomData<A>,
}

impl<A: AnyRequest, H: ErasedService<A>> View for ServiceMap<A, H> {
    type V = Map<u64, H>;

    closed spec fn view(&self) -> Map<u64, H> {
        self.map@
    }
}

impl<A: AnyRequest, H: ErasedService<A>> Default for ServiceMap<A, H> {
    fn default() -> (m: Self)
        ensures
            m@ == Map::<u64, H>::empty(),
            m.wf(),
    {
        Self::new()
    }
}

impl<A: AnyRequest, H: ErasedService<A>> ServiceMap<A, H> {
    pub open spec fn wf(&self) -> bool {
        keys_match::<A, H>(self@)
    }

    pub fn new() -> (m: Self)
        ensures
            m@ == Map::<u64, H>::empty(),
            m.wf(),
    {
        ServiceMap { map: HashMap::new(), _container: std::marker::PhantomData }
    }

    /// Binds `svc` under the key of `Req`, replacing any handler `Req` had.
    pub fn register<S: PinService<Req>, Req: Request<A>>(&mut self, svc: S)
        where H: HoldsService<A, S, Req>
        requires
            old(self).wf(),
        ensures
            final(self).wf(),
            registered::<A, H, S, Req>(old(self)@, final(self)@, svc),
    {
        let adapter = boxed_untyped_service::<S, Req>(svc);
        let h = H::hold(*adapter);
        self.map.insert(Req::type_key(), h);
    }

    /// Routes `req` to the handler for its type and returns the rendered
    /// response; a request whose type has no handler is dropped.
    pub fn call<Req: Request<A>>(&mut self, req: Req) -> (r: Option<String>)
        requires
            old(self).wf(),
        ensures
            final(self).wf(),
            dispatched::<A, H, Req>(old(self)@, final(self)@, req, r),
    {
        let k = Req::type_key();
        match self.map.remove(&k) {
            None => {
                assert(self.map@ =~= old(self).map@);
                None
            },
            Some(mut h) => {
                let resp = h.call(req.erase());
                self.map.insert(k, h);
                assert(self.map@ =~= old(self).map@.insert(k, self.map@[k]));
                match resp {
                    Ok(s) => Some(s),
                    Err(_) => None,
                }
            },
        }
    }
}

} // verus!
