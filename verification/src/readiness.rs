//! Readiness of the two backends, as one service instance has confirmed it.
//!
//! A backend that has reported ready stays confirmed over any number of
//! suspended readiness checks; dispatching a request to a backend uses its
//! confirmation up.

use crate::protocol::ProtocolKind;
use vstd::prelude::*;

verus! {

/// What a readiness check reports.
#[derive(Debug, PartialEq, Eq)]
pub enum Readiness<E> {
    /// Not ready yet; the caller is woken when it is worth asking again.
    Pending,
    /// Ready to take a request.
    Ready,
    /// The backend can take no more work; the service is to be discarded.
    Failed(E),
}

/// Which of the two backends have confirmed that they are ready.
#[derive(Clone, Copy, Debug, PartialEq, Eq, Structural)]
pub struct ReadinessState {
    pub rpc_ready: bool,
    pub plain_ready: bool,
}

impl ReadinessState {
    /// The state in which neither backend is confirmed.
    pub open spec fn unconfirmed() -> Self {
        ReadinessState { rpc_ready: false, plain_ready: false }
    }

    /// Whether the backend of `kind` is confirmed.
    pub open spec fn confirmed(self, kind: ProtocolKind) -> bool {
        match kind {
            ProtocolKind::Rpc => self.rpc_ready,
            ProtocolKind::Plain => self.plain_ready,
        }
    }

    /// Whether both backends are confirmed, so that a request may be
    /// dispatched.
    pub open spec fn both_confirmed(self) -> bool {
        self.rpc_ready && self.plain_ready
    }

    /// This state with the backend of `kind` confirmed.
    pub open spec fn confirm(self, kind: ProtocolKind) -> Self {
        match kind {
            ProtocolKind::Rpc => ReadinessState { rpc_ready: true, ..self },
            ProtocolKind::Plain => ReadinessState { plain_ready: true, ..self },
        }
    }

    /// This state with the confirmation of the backend of `kind` used up.
    pub open spec fn release(self, kind: ProtocolKind) -> Self {
        match kind {
            ProtocolKind::Rpc => ReadinessState { rpc_ready: false, ..self },
            ProtocolKind::Plain => ReadinessState { plain_ready: false, ..self },
        }
    }

    /// The backend that a readiness check asks next: the RPC backend while it
    /// is unconfirmed, then the plain backend, and none once both are
    /// confirmed.
    pub open spec fn awaited(self) -> Option<ProtocolKind> {
        if !self.rpc_ready {
            Some(ProtocolKind::Rpc)
        } else if !self.plain_ready {
            Some(ProtocolKind::Plain)
        } else {
            None
        }
    }

    /// The state after the backend of `kind` has answered a readiness check:
    /// a ready backend is confirmed, any other answer changes nothing.
    pub open spec fn answered<E>(self, kind: ProtocolKind, answer: Readiness<E>) -> Self {
        if answer is Ready {
            self.confirm(kind)
        } else {
            self
        }
    }

    /// Whether a readiness check from this state asks the RPC backend.
    pub open spec fn asks_rpc(self) -> bool {
        !self.rpc_ready
    }

    /// Whether a readiness check from this state asks the plain backend,
    /// where `rpc` is what the RPC backend answers if it is asked: the plain
    /// backend is asked only once the RPC backend is confirmed.
    pub open spec fn asks_plain<E>(self, rpc: Readiness<E>) -> bool {
        !self.plain_ready && (self.rpc_ready || rpc is Ready)
    }

    /// One readiness check from this state: the state it leaves and what it
    /// reports, where `rpc` and `plain` are what the backends answer if they
    /// are asked.
    ///
    /// The first answer that is not ready ends the check and is its result;
    /// the backend behind it, and the plain backend if it was not reached,
    /// stay as they were.
    pub open spec fn check<E>(self, rpc: Readiness<E>, plain: Readiness<E>) -> (Self, Readiness<E>) {
        if self.asks_rpc() && !(rpc is Ready) {
            (self, rpc)
        } else if self.asks_plain(rpc) && !(plain is Ready) {
            (self.confirm(ProtocolKind::Rpc), plain)
        } else {
            (ReadinessState { rpc_ready: true, plain_ready: true }, Readiness::Ready)
        }
    }

    /// A state with neither backend confirmed.
    pub fn new() -> (state: Self)
        ensures
            state == Self::unconfirmed(),
    {
        ReadinessState { rpc_ready: false, plain_ready: false }
    }

    /// Whether the backend of `kind` is confirmed.
    pub fn is_confirmed(&self, kind: ProtocolKind) -> (confirmed: bool)
        ensures
            confirmed == self.confirmed(kind),
    {
        match kind {
            ProtocolKind::Rpc => self.rpc_ready,
            ProtocolKind::Plain => self.plain_ready,
        }
    }

    /// Whether both backends are confirmed.
    pub fn is_ready(&self) -> (ready: bool)
        ensures
            ready == self.both_confirmed(),
    {
        self.rpc_ready && self.plain_ready
    }

    /// The backend to ask next, if any is still unconfirmed.
    pub fn next_poll(&self) -> (kind: Option<ProtocolKind>)
        ensures
            kind == self.awaited(),
    {
        if !self.rpc_ready {
            Some(ProtocolKind::Rpc)
        } else if !self.plain_ready {
            Some(ProtocolKind::Plain)
        } else {
            None
        }
    }

    /// Takes in the answer of the backend of `kind` to a readiness check.
    ///
    /// A ready backend is confirmed and nothing is returned: the check goes
    /// on. A pending or failed answer leaves the state as it is and is
    /// returned: it ends the check.
    pub fn record<E>(&mut self, kind: ProtocolKind, answer: Readiness<E>) -> (ended: Option<
        Readiness<E>,
    >)
        ensures
            *final(self) == old(self).answered(kind, answer),
            ended == ending(answer),
    {
        match answer {
            Readiness::Ready => {
                match kind {
                    ProtocolKind::Rpc => {
                        self.rpc_ready = true;
                    },
                    ProtocolKind::Plain => {
                        self.plain_ready = true;
                    },
                }
                None
            },
            Readiness::Pending => Some(Readiness::Pending),
            Readiness::Failed(error) => Some(Readiness::Failed(error)),
        }
    }

    /// Uses up the confirmation of the backend of `kind`, to which a request
    /// is being dispatched.
    pub fn dispatch(&mut self, kind: ProtocolKind)
        requires
            old(self).both_confirmed(),
        ensures
            *final(self) == old(self).release(kind),
    {
        match kind {
            ProtocolKind::Rpc => {
                self.rpc_ready = false;
            },
            ProtocolKind::Plain => {
                self.plain_ready = false;
            },
        }
    }
}

/// What an answer ends a readiness check with: a ready backend ends nothing,
/// any other answer is the result of the check.
pub open spec fn ending<E>(answer: Readiness<E>) -> Option<Readiness<E>> {
    if answer is Ready {
        None
    } else {
        Some(answer)
    }
}

/// How many backends are still to be confirmed.
pub open spec fn unconfirmed_count(state: ReadinessState) -> nat {
    (if state.rpc_ready { 0nat } else { 1nat }) + (if state.plain_ready { 0nat } else { 1nat })
}

/// One thing that happens to a service instance: a readiness check, with
/// what the RPC backend and the plain backend answer if they are asked, or
/// the dispatch of a request to the backend of a kind.
pub enum Step<E> {
    Check { rpc: Readiness<E>, plain: Readiness<E> },
    Dispatch { kind: ProtocolKind },
}

/// The state that a step leaves.
pub open spec fn after_step<E>(state: ReadinessState, step: Step<E>) -> ReadinessState {
    match step {
        Step::Check { rpc, plain } => state.check(rpc, plain).0,
        Step::Dispatch { kind } => state.release(kind),
    }
}

/// The state after a run of steps from `start`.
pub open spec fn after_steps<E>(start: ReadinessState, steps: Seq<Step<E>>) -> ReadinessState
    decreases steps.len(),
{
    if steps.len() == 0 {
        start
    } else {
        after_step(after_steps(start, steps.drop_last()), steps.last())
    }
}

/// The steps of the instance `who` in an interleaving of the steps of many.
pub open spec fn steps_of<E>(interleaved: Seq<(int, Step<E>)>, who: int) -> Seq<Step<E>>
    decreases interleaved.len(),
{
    if interleaved.len() == 0 {
        Seq::empty()
    } else if interleaved.last().0 == who {
        steps_of(interleaved.drop_last(), who).push(interleaved.last().1)
    } else {
        steps_of(interleaved.drop_last(), who)
    }
}

/// The states of many instances after an interleaving of their steps, each
/// step taken by the instance that it names.
pub open spec fn after_interleaving<E>(
    start: Seq<ReadinessState>,
    interleaved: Seq<(int, Step<E>)>,
) -> Seq<ReadinessState>
    decreases interleaved.len(),
{
    if interleaved.len() == 0 {
        start
    } else {
        let before = after_interleaving(start, interleaved.drop_last());
        let (who, step) = interleaved.last();
        if 0 <= who < before.len() {
            before.update(who, after_step(before[who], step))
        } else {
            before
        }
    }
}

/// A readiness check is the run of its steps: with nothing awaited it
/// reports ready; otherwise the awaited backend is asked, an answer that is
/// not ready ends the check, and a ready one is recorded before the check
/// goes on from the new state.
pub proof fn check_unfolds<E>(state: ReadinessState, rpc: Readiness<E>, plain: Readiness<E>)
    ensures
        state.awaited() is None ==> state.check(rpc, plain) == (state, Readiness::<E>::Ready),
        state.awaited() == Some(ProtocolKind::Rpc) && ending(rpc) is Some ==> state.check(
            rpc,
            plain,
        ) == (state, rpc),
        state.awaited() == Some(ProtocolKind::Rpc) && ending(rpc) is None ==> state.check(
            rpc,
            plain,
        ) == state.answered(ProtocolKind::Rpc, rpc).check(rpc, plain),
        state.awaited() == Some(ProtocolKind::Plain) && ending(plain) is Some ==> state.check(
            rpc,
            plain,
        ) == (state, plain),
        state.awaited() == Some(ProtocolKind::Plain) && ending(plain) is None ==> state.check(
            rpc,
            plain,
        ) == state.answered(ProtocolKind::Plain, plain).check(rpc, plain),
{
}

/// A confirmed backend is not the one asked next.
pub proof fn confirmed_backend_is_not_awaited<E>(
    state: ReadinessState,
    kind: ProtocolKind,
    rpc: Readiness<E>,
)
    requires
        state.confirmed(kind),
    ensures
        state.awaited() != Some(kind),
        kind is Rpc ==> !state.asks_rpc(),
        kind is Plain ==> !state.asks_plain(rpc),
{
}

/// No answer to a readiness check takes a confirmation away.
pub proof fn answer_keeps_confirmation<E>(
    state: ReadinessState,
    asked: ProtocolKind,
    answer: Readiness<E>,
    kind: ProtocolKind,
)
    requires
        state.confirmed(kind),
    ensures
        state.answered(asked, answer).confirmed(kind),
{
}

/// A readiness check reports ready exactly when it leaves both backends
/// confirmed, and it takes no confirmation away: progress made before a
/// pending or failed answer is kept.
pub proof fn check_keeps_progress<E>(state: ReadinessState, rpc: Readiness<E>, plain: Readiness<E>)
    ensures
        state.check(rpc, plain).1 is Ready <==> state.check(rpc, plain).0.both_confirmed(),
        state.both_confirmed() ==> state.check(rpc, plain) == (state, Readiness::<E>::Ready),
        state.rpc_ready ==> state.check(rpc, plain).0.rpc_ready,
        state.plain_ready ==> state.check(rpc, plain).0.plain_ready,
        state.asks_rpc() && rpc is Ready ==> state.check(rpc, plain).0.rpc_ready,
        state.asks_plain(rpc) && plain is Ready ==> state.check(rpc, plain).0.plain_ready,
{
}

/// A backend that has answered ready is asked once: the check that comes
/// next, after a pending answer of the other backend, does not ask it
/// again, and what it would answer makes no difference.
pub proof fn ready_backend_is_asked_once<E>(
    state: ReadinessState,
    rpc: Readiness<E>,
    plain: Readiness<E>,
    rpc_again: Readiness<E>,
    rpc_otherwise: Readiness<E>,
    plain_again: Readiness<E>,
)
    requires
        rpc is Ready,
    ensures
        !state.check(rpc, plain).0.asks_rpc(),
        state.check(rpc, plain).0.check(rpc_again, plain_again) == state.check(rpc, plain).0.check(
            rpc_otherwise,
            plain_again,
        ),
        plain_again is Ready ==> state.check(rpc, plain).0.check(rpc_again, plain_again).1 is Ready,
{
}

/// Over any run of readiness checks without a dispatch, a confirmation
/// stays: the backend is not asked at any later check of the run.
pub proof fn confirmation_outlasts_checks<E>(
    start: ReadinessState,
    checks: Seq<Step<E>>,
    kind: ProtocolKind,
)
    requires
        start.confirmed(kind),
        forall|i: int| 0 <= i < checks.len() ==> checks[i] is Check,
    ensures
        after_steps(start, checks).confirmed(kind),
        after_steps(start, checks).awaited() != Some(kind),
    decreases checks.len(),
{
    if checks.len() > 0 {
        confirmation_outlasts_checks(start, checks.drop_last(), kind);
        assert(checks.last() is Check);
    }
}

/// A dispatch is one shot: it takes the confirmation of the backend that
/// gets the request and of no other, and the instance is ready for the next
/// request only after a readiness check that reports ready.
pub proof fn dispatch_is_one_shot<E>(
    state: ReadinessState,
    kind: ProtocolKind,
    rpc: Readiness<E>,
    plain: Readiness<E>,
)
    requires
        state.both_confirmed(),
    ensures
        !state.release(kind).both_confirmed(),
        !state.release(kind).confirmed(kind),
        forall|other: ProtocolKind| other != kind ==> state.release(kind).confirmed(other),
        state.release(kind).awaited() == Some(kind),
        state.release(kind).check(rpc, plain).0.both_confirmed() <==> state.release(kind).check(
            rpc,
            plain,
        ).1 is Ready,
{
}

/// After a dispatch, a readiness check asks the backend that took the
/// request and no other, and reports what that backend answers.
pub proof fn check_after_dispatch<E>(
    state: ReadinessState,
    kind: ProtocolKind,
    rpc: Readiness<E>,
    plain: Readiness<E>,
)
    requires
        state.both_confirmed(),
    ensures
        state.release(kind).asks_rpc() <==> kind is Rpc,
        state.release(kind).asks_plain(rpc) <==> kind is Plain,
        state.release(kind).check(rpc, plain).1 == (match kind {
            ProtocolKind::Rpc => rpc,
            ProtocolKind::Plain => plain,
        }),
{
}

/// Instances are isolated: however the steps of many instances interleave,
/// each instance ends in the state that its own steps lead to from its own
/// start. No step of one instance shows in the state of another.
pub proof fn instances_are_isolated<E>(
    start: Seq<ReadinessState>,
    interleaved: Seq<(int, Step<E>)>,
    who: int,
)
    requires
        0 <= who < start.len(),
    ensures
        after_interleaving(start, interleaved).len() == start.len(),
        after_interleaving(start, interleaved)[who] == after_steps(
            start[who],
            steps_of(interleaved, who),
        ),
    decreases interleaved.len(),
{
    if interleaved.len() > 0 {
        instances_are_isolated(start, interleaved.drop_last(), who);
        if interleaved.last().0 == who {
            let own = steps_of(interleaved.drop_last(), who);
            assert(own.push(interleaved.last().1).drop_last() =~= own);
        }
    }
}

} // verus!
