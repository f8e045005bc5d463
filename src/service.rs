//! The typed side of the registry: request types with a runtime identity,
//! the dynamically typed container they are erased into, and typed services.
use vstd::prelude::*;

verus! {

// Each spec function of a trait below that an implementation gives the
// meaning of has the default `arbitrary()`: generic code cannot see a default,
// and an implementation written outside verified code, where nothing is
// proved, need not spell one out.

/// A dynamically typed container: it holds one request value of some type
/// together with the runtime identity of that type.
pub trait AnyRequest {
    /// The identity of the type of the value held.
    open spec fn type_key(&self) -> u64 {
        arbitrary()
    }

    fn key(&self) -> (k: u64)
        ensures
            k == self.type_key(),
    ;
}

/// A request type that can be put into the container `A` and recovered from
/// it exactly. Distinct request types carry distinct keys.
pub trait Request<A: AnyRequest>: Sized {
    /// The runtime identity of this type.
    open spec fn key_of() -> u64 {
        arbitrary()
    }

    /// The container that holds `self`.
    open spec fn erased(self) -> A {
        arbitrary()
    }

    /// The value of this type that a container holding one carries.
    open spec fn recovered(a: A) -> Self {
        arbitrary()
    }

    fn type_key() -> (k: u64)
        ensures
            k == Self::key_of(),
    ;

    /// The container is tagged with this type's key, and recovering from
    /// it gives `self` back.
    fn erase(self) -> (a: A)
        ensures
            a == self.erased(),
            a.type_key() == Self::key_of(),
            Self::recovered(a) == self,
    ;

    /// Recovers the value when the container holds this type, `None` when it
    /// holds another.
    fn downcast(a: A) -> (r: Option<Self>)
        ensures
            r is Some <==> a.type_key() == Self::key_of(),
            r is Some ==> r->Some_0 == Self::recovered(a),
    ;
}

/// A response that has a text rendering.
pub trait Render {
    open spec fn rendered(&self) -> Seq<char> {
        arbitrary()
    }

    fn render(&self) -> (s: String)
        ensures
            s@ == self.rendered(),
    ;
}

impl Render for String {
    open spec fn rendered(&self) -> Seq<char> {
        self@
    }

    fn render(&self) -> (s: String) {
        self.clone()
    }
}

/// A typed service: given a request of type `Req`, it produces a response.
/// It may keep state across calls.
pub trait PinService<Req> {
    type Response: Render;

    /// `resp` is a rendering that this service, in its present state, may
    /// give for `req`.
    open spec fn answers(&self, req: Req, resp: Seq<char>) -> bool {
        arbitrary()
    }

    fn call(&mut self, req: Req) -> (r: Self::Response)
        ensures
            old(self).answers(req, r.rendered()),
    ;
}

} // verus!
