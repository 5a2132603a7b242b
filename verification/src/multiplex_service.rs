//! The multiplexing service: a plain backend and an RPC backend behind one
//! endpoint.
//!
//! Before each request both backends are driven to readiness; the request
//! then goes to the backend that its content type selects, and that backend
//! has to confirm its readiness anew before the next one.

use crate::headers::{is_grpc_request, request_protocol};
use crate::protocol::ProtocolKind;
use crate::readiness::{unconfirmed_count, Readiness, ReadinessState};
use hyper::{Body, Request};
use std::task::Context;
use vstd::prelude::*;

verus! {

/// `std::task::Context`, carried through to the backends unread.
#[verifier::external_type_specification]
#[verifier::external_body]
pub struct ExContext<'a>(Context<'a>);

/// A service that the endpoint forwards requests to.
///
/// Nothing is assumed of an implementation: what is proved of the
/// multiplexing service holds whatever its backends do.
pub trait Backend {
    /// Why the backend can take no more work.
    type Error;

    /// The pending response to a request.
    type Future;

    /// Asks the backend whether it can take a request now. A backend that
    /// answers `Pending` arranges for the task of `cx` to be woken.
    fn poll_ready(&mut self, cx: &mut Context<'_>) -> Readiness<Self::Error>;

    /// Hands a request to the backend.
    fn call(&mut self, request: Request<Body>) -> Self::Future;
}

/// What a backend made of a dispatched request, by the backend that took it.
#[derive(Debug)]
pub enum Dispatched<P, R> {
    /// The plain backend took the request.
    Plain(P),
    /// The RPC backend took the request.
    Rpc(R),
}

impl<P, R> Dispatched<P, R> {
    /// The protocol of the backend that took the request.
    pub open spec fn protocol(self) -> ProtocolKind {
        match self {
            Dispatched::Plain(_) => ProtocolKind::Plain,
            Dispatched::Rpc(_) => ProtocolKind::Rpc,
        }
    }

    /// The protocol of the backend that took the request.
    pub fn kind(&self) -> (kind: ProtocolKind)
        ensures
            kind == self.protocol(),
    {
        match self {
            Dispatched::Plain(_) => ProtocolKind::Plain,
            Dispatched::Rpc(_) => ProtocolKind::Rpc,
        }
    }

    /// Brings what either backend returned into one outward shape, with the
    /// conversion that belongs to the backend. Nothing else is done to it.
    pub fn normalize<T, F, G>(self, plain: F, rpc: G) -> (out: T) where
        F: FnOnce(P) -> T,
        G: FnOnce(R) -> T,
        requires
            self matches Dispatched::Plain(inner) ==> call_requires(plain, (inner,)),
            self matches Dispatched::Rpc(inner) ==> call_requires(rpc, (inner,)),
        ensures
            self matches Dispatched::Plain(inner) ==> call_ensures(plain, (inner,), out),
            self matches Dispatched::Rpc(inner) ==> call_ensures(rpc, (inner,), out),
    {
        match self {
            Dispatched::Plain(inner) => plain(inner),
            Dispatched::Rpc(inner) => rpc(inner),
        }
    }
}

/// A plain backend and an RPC backend served as one.
pub struct MultiplexService<A, B> {
    plain: A,
    rpc: B,
    state: ReadinessState,
}

impl<A, B> MultiplexService<A, B> {
    /// Which backends this instance has confirmed ready.
    pub closed spec fn state(&self) -> ReadinessState {
        self.state
    }

    /// The plain backend.
    pub closed spec fn plain(&self) -> A {
        self.plain
    }

    /// The RPC backend.
    pub closed spec fn rpc(&self) -> B {
        self.rpc
    }

    /// That `after` and `outcome` are what one readiness check can make of
    /// `self`: for some answers of the two backends, the state and the
    /// result are those of `ReadinessState::check`, and a backend that the
    /// check does not ask is left as it was.
    pub open spec fn checked<E>(&self, after: &Self, outcome: Readiness<E>) -> bool {
        exists|rpc: Readiness<E>, plain: Readiness<E>|
            {
                &&& #[trigger] self.state().check(rpc, plain) == (after.state(), outcome)
                &&& !self.state().asks_rpc() ==> after.rpc() == self.rpc()
                &&& !self.state().asks_plain(rpc) ==> after.plain() == self.plain()
            }
    }

    /// Joins the plain backend `rest` and the RPC backend `grpc`. Neither is
    /// confirmed ready yet.
    pub fn new(rest: A, grpc: B) -> (service: Self)
        ensures
            service.plain() == rest,
            service.rpc() == grpc,
            service.state() == ReadinessState::unconfirmed(),
    {
        MultiplexService { plain: rest, rpc: grpc, state: ReadinessState::new() }
    }

    /// Whether both backends are confirmed ready, so that a request may be
    /// dispatched.
    pub fn is_ready(&self) -> (ready: bool)
        ensures
            ready == self.state().both_confirmed(),
    {
        self.state.is_ready()
    }

    /// Which backends this instance has confirmed ready.
    pub fn readiness(&self) -> (state: ReadinessState)
        ensures
            state == self.state(),
    {
        self.state
    }

    /// The plain backend.
    pub fn plain_ref(&self) -> (backend: &A)
        ensures
            *backend == self.plain(),
    {
        &self.plain
    }

    /// The RPC backend.
    pub fn rpc_ref(&self) -> (backend: &B)
        ensures
            *backend == self.rpc(),
    {
        &self.rpc
    }
}

impl<A: Clone, B: Clone> Clone for MultiplexService<A, B> {
    /// A service over clones of the two backends that tracks readiness on
    /// its own: whatever this instance has confirmed, the clone has
    /// confirmed nothing.
    fn clone(&self) -> (copy: Self)
        ensures
            cloned(self.plain(), copy.plain()),
            cloned(self.rpc(), copy.rpc()),
            copy.state() == ReadinessState::unconfirmed(),
    {
        MultiplexService {
            plain: self.plain.clone(),
            rpc: self.rpc.clone(),
            state: ReadinessState::new(),
        }
    }
}

impl<A: Backend, B: Backend<Error = A::Error>> MultiplexService<A, B> {
    /// Drives both backends towards readiness, the RPC backend first, and
    /// reports `Ready` once both are confirmed.
    ///
    /// A backend that is confirmed already is not asked again. The first
    /// answer that is not `Ready` ends the check and is returned; what was
    /// confirmed before it stays confirmed.
    pub fn poll_ready(&mut self, cx: &mut Context<'_>) -> (outcome: Readiness<A::Error>)
        ensures
            old(self).checked(final(self), outcome),
            old(self).state().both_confirmed() ==> outcome is Ready,
            outcome is Ready <==> final(self).state().both_confirmed(),
            old(self).state().rpc_ready ==> final(self).state().rpc_ready,
            old(self).state().plain_ready ==> final(self).state().plain_ready,
            old(self).state().rpc_ready ==> final(self).rpc() == old(self).rpc(),
            old(self).state().plain_ready || !final(self).state().rpc_ready ==> final(self).plain()
                == old(self).plain(),
    {
        let ghost before = *self;
        let ghost mut asked_rpc = false;
        let ghost mut asked_plain = false;
        let ghost mut rpc_answer: Readiness<A::Error> = Readiness::Ready;
        loop
            invariant
                before == *old(self),
                asked_rpc ==> before.state().asks_rpc() && rpc_answer is Ready,
                asked_plain ==> before.state().asks_plain(rpc_answer) && self.state().rpc_ready,
                self.state().rpc_ready == (before.state().rpc_ready || asked_rpc),
                self.state().plain_ready == (before.state().plain_ready || asked_plain),
                !asked_rpc ==> self.rpc() == before.rpc(),
                !asked_plain ==> self.plain() == before.plain(),
            decreases unconfirmed_count(self.state()),
        {
            match self.state.next_poll() {
                None => {
                    assert(before.state().check(rpc_answer, Readiness::<A::Error>::Ready) == (
                        self.state(),
                        Readiness::<A::Error>::Ready,
                    ));
                    return Readiness::Ready;
                },
                Some(ProtocolKind::Rpc) => {
                    let answer = self.rpc.poll_ready(cx);
                    proof {
                        rpc_answer = answer;
                        asked_rpc = answer is Ready;
                    }
                    match self.state.record(ProtocolKind::Rpc, answer) {
                        Some(ended) => {
                            assert(before.state().check(ended, ended) == (self.state(), ended));
                            return ended;
                        },
                        None => {},
                    }
                },
                Some(ProtocolKind::Plain) => {
                    let answer = self.plain.poll_ready(cx);
                    proof {
                        asked_plain = answer is Ready;
                    }
                    match self.state.record(ProtocolKind::Plain, answer) {
                        Some(ended) => {
                            assert(before.state().check(rpc_answer, ended) == (self.state(), ended));
                            return ended;
                        },
                        None => {},
                    }
                },
            }
        }
    }

    /// Dispatches a request to the backend that its content type selects,
    /// and uses up that backend's confirmation.
    ///
    /// Both backends must be confirmed ready: the last readiness check on
    /// this instance reported `Ready`, and nothing was dispatched since.
    pub fn call(&mut self, request: Request<Body>) -> (dispatched: Dispatched<
        A::Future,
        B::Future,
    >)
        requires
            old(self).state().both_confirmed(),
        ensures
            dispatched.protocol() == request_protocol(request),
            final(self).state() == old(self).state().release(dispatched.protocol()),
            !final(self).state().both_confirmed(),
            dispatched is Rpc ==> final(self).plain() == old(self).plain(),
            dispatched is Plain ==> final(self).rpc() == old(self).rpc(),
    {
        if is_grpc_request(&request) {
            self.state.dispatch(ProtocolKind::Rpc);
            Dispatched::Rpc(self.rpc.call(request))
        } else {
            self.state.dispatch(ProtocolKind::Plain);
            Dispatched::Plain(self.plain.call(request))
        }
    }

    /// Dispatches a request if both backends are confirmed ready, as `call`
    /// does; hands the request back, and does nothing else, if they are
    /// not.
    pub fn try_call(&mut self, request: Request<Body>) -> (outcome: Result<
        Dispatched<A::Future, B::Future>,
        Request<Body>,
    >)
        ensures
            outcome is Ok <==> old(self).state().both_confirmed(),
            outcome matches Ok(dispatched) ==> dispatched.protocol() == request_protocol(request),
            outcome matches Ok(dispatched) ==> final(self).state() == old(self).state().release(
                dispatched.protocol(),
            ),
            outcome matches Ok(dispatched) && dispatched is Rpc ==> final(self).plain() == old(
                self,
            ).plain(),
            outcome matches Ok(dispatched) && dispatched is Plain ==> final(self).rpc() == old(
                self,
            ).rpc(),
            outcome matches Err(refused) ==> refused == request && *final(self) == *old(self),
    {
        if self.state.is_ready() {
            Ok(self.call(request))
        } else {
            Err(request)
        }
    }
}

} // verus!
