//! The erasure adapter: a typed service behind the uniform calling
//! convention that takes an erased request and returns rendered text.
use std::marker::PhantomData;
use vstd::prelude::*;

use crate::service::{AnyRequest, PinService, Render, Request};

verus! {

/// The outcome of handing an adapter a request of a type it was not built for.
#[derive(Debug, PartialEq, Eq, Structural)]
pub enum CallError {
    WrongRequestType,
}

/// A service behind the uniform calling convention over the container `A`.
pub trait ErasedService<A: AnyRequest> {
    /// The identity of the request type this service was built for.
    open spec fn expected_key(&self) -> u64 {
        arbitrary()
    }

    /// `resp` is a rendering this service, in its present state, may give for
    /// the erased request `req`.
    open spec fn answers_erased(&self, req: A, resp: Seq<char>) -> bool {
        arbitrary()
    }

    fn expected(&self) -> (k: u64)
        ensures
            k == self.expected_key(),
    ;

    /// Fails exactly when the container holds a value of another type.
    fn call(&mut self, req: A) -> (r: Result<String, CallError>)
        ensures
            r is Err <==> req.type_key() != old(self).expected_key(),
            r is Ok ==> old(self).answers_erased(req, r->Ok_0@),
            final(self).expected_key() == old(self).expected_key(),
    ;
}

/// Wraps one typed service for requests of type `Req`.
pub struct UntypedService<S, Req> {
    pub svc: S,
    pub _phantom: PhantomData<Req>,
}

impl<A: AnyRequest, S: PinService<Req>, Req: Request<A>> ErasedService<A> for UntypedService<
    S,
    Req,
> {
    open spec fn expected_key(&self) -> u64 {
        Req::key_of()
    }

    open spec fn answers_erased(&self, req: A, resp: Seq<char>) -> bool {
        self.svc.answers(Req::recovered(req), resp)
    }

    fn expected(&self) -> (k: u64) {
        Req::type_key()
    }

    fn call(&mut self, req: A) -> (r: Result<String, CallError>) {
        match Req::downcast(req) {
            Some(typed) => {
                let resp = self.svc.call(typed);
                Ok(resp.render())
            },
            None => Err(CallError::WrongRequestType),
        }
    }
}

/// Builds the adapter for `svc`, which handles requests of type `Req`.
pub fn boxed_untyped_service<S: PinService<Req>, Req>(svc: S) -> (r: Box<UntypedService<S, Req>>)
    ensures
        r.svc == svc,
{
    Box::new(UntypedService { svc, _phantom: PhantomData })
}

} // verus!
