use vstd::prelude::*;

use tokio::sync::mpsc;

use crate::one_for_one::{ExitOutcome, Specification, StartOutcome};

verus! {

#[verifier::external_type_specification]
#[verifier::external_body]
#[verifier::reject_recursive_types(T)]
pub struct ExUnboundedSender<T>(mpsc::UnboundedSender<T>);

#[verifier::external_type_specification]
#[verifier::external_body]
#[verifier::reject_recursive_types(T)]
pub struct ExUnboundedReceiver<T>(mpsc::UnboundedReceiver<T>);

/// Relies on `tokio::sync::mpsc::unbounded_channel`: a fresh queue.
#[verifier::external_body]
fn unbounded_channel<T>() -> (mpsc::UnboundedSender<T>, mpsc::UnboundedReceiver<T>) {
    mpsc::unbounded_channel()
}

/// The sending end of a reference queue, with a record of every value that
/// has been pushed through it.
#[verifier::reject_recursive_types(T)]
pub struct Outbox<T> {
    sender: mpsc::UnboundedSender<T>,
    sent: Ghost<Seq<T>>,
}

/// Relies on `mpsc::UnboundedSender::send`: the value is queued unless the
/// receiver is gone, in which case it is dropped. Either way it is one more
/// value pushed through this sender.
#[verifier::external_body]
fn push<T>(out: &mut Outbox<T>, value: T)
    ensures
        final(out).sender == old(out).sender,
        final(out).sent@ == old(out).sent@.push(value),
{
    let _ = out.sender.send(value);
}

/// The values pushed after `sent` for an outcome: the started child's
/// reference, or nothing.
pub open spec fn sent_after<S, R>(sent: Seq<R>, o: RefStart<S, R>) -> Seq<R> {
    match forwarded(o) {
        Some(x) => sent.push(x),
        None => sent,
    }
}

/// How a start operation ended, with the reference that a started child
/// hands out.
pub enum RefStart<S, R> {
    Started(R),
    Completed,
    Failed(S),
    Irrecoverable(String),
}

/// The reference to put on the queue for an outcome: the one a start
/// produced, and nothing for any other outcome.
pub open spec fn forwarded<S, R>(o: RefStart<S, R>) -> Option<R> {
    match o {
        RefStart::Started(r) => Some(r),
        _ => None,
    }
}

/// A specification whose references go out on a queue once it has started.
#[verifier::reject_recursive_types(R)]
pub struct RefSenderSpec<S, R> {
    spec: S,
    out: Outbox<R>,
}

/// A wrapped specification whose inner start operation is under way.
#[verifier::reject_recursive_types(R)]
pub struct RefSenderSpecFut<R> {
    out: Outbox<R>,
}

/// A started wrapped specification.
#[verifier::reject_recursive_types(R)]
pub struct RefSenderSupervisee<R> {
    out: Outbox<R>,
}

impl<S, R> RefSenderSpec<S, R> {
    pub closed spec fn spec_inner(&self) -> S {
        self.spec
    }

    pub closed spec fn spec_sender(&self) -> mpsc::UnboundedSender<R> {
        self.out.sender
    }

    /// The references pushed on the queue by this wrapper so far.
    pub closed spec fn spec_sent(&self) -> Seq<R> {
        self.out.sent@
    }

    /// Wraps `spec`, with a fresh queue whose receiving end is returned.
    pub fn new(spec: S) -> (r: (Self, mpsc::UnboundedReceiver<R>))
        ensures
            r.0.spec_inner() == spec,
            r.0.spec_sent() == Seq::<R>::empty(),
    {
        let (sender, receiver) = unbounded_channel();
        (Self::new_with_channel(spec, sender), receiver)
    }

    /// Wraps `spec`, sending its references on `sender`.
    pub fn new_with_channel(spec: S, sender: mpsc::UnboundedSender<R>) -> (r: Self)
        ensures
            r.spec_inner() == spec,
            r.spec_sender() == sender,
            r.spec_sent() == Seq::<R>::empty(),
    {
        RefSenderSpec { spec, out: Outbox { sender, sent: Ghost(Seq::empty()) } }
    }

    /// Hands the inner specification out for the caller to start, and keeps
    /// the queue for when that start ends.
    pub fn start(self) -> (r: (S, RefSenderSpecFut<R>))
        ensures
            r.0 == self.spec_inner(),
            r.1.spec_sender() == self.spec_sender(),
            r.1.spec_sent() == self.spec_sent(),
    {
        (self.spec, RefSenderSpecFut { out: self.out })
    }
}

impl<S: Specification, R> Specification for RefSenderSpec<S, R> {
    open spec fn spec_start_timeout(&self) -> u64 {
        self.spec_inner().spec_start_timeout()
    }

    /// The inner specification's timeout.
    fn start_timeout(&self) -> (r: u64) {
        self.spec.start_timeout()
    }
}

/// Splits an outcome into the reference to forward and the outcome that the
/// wrapper reports, whose own reference is nothing.
pub fn forward<S, R>(o: RefStart<S, R>) -> (r: (Option<R>, RefStart<S, ()>))
    ensures
        r.0 == forwarded(o),
        o is Started <==> r.1 is Started,
        o is Completed <==> r.1 is Completed,
        o matches RefStart::Failed(s) ==> r.1 == RefStart::<S, ()>::Failed(s),
        o matches RefStart::Irrecoverable(e) ==> r.1 == RefStart::<S, ()>::Irrecoverable(e),
{
    match o {
        RefStart::Started(reference) => (Some(reference), RefStart::Started(())),
        RefStart::Completed => (None, RefStart::Completed),
        RefStart::Failed(s) => (None, RefStart::Failed(s)),
        RefStart::Irrecoverable(e) => (None, RefStart::Irrecoverable(e)),
    }
}

/// A started wrapper pushes the one reference its start produced; any other
/// outcome pushes nothing.
pub proof fn lemma_forwards_exactly_started<S, R>(o: RefStart<S, R>)
    ensures
        (o is Started) <==> forwarded(o) is Some,
        o matches RefStart::Started(r) ==> forwarded(o) == Some(r),
{
}

/// A try that fails recoverably pushes nothing, so after it and a retry
/// that starts, the queue has gained exactly the retry's reference.
pub proof fn lemma_retry_pushes_one<S, R>(sent: Seq<R>, spec: S, reference: R)
    ensures
        sent_after(sent_after(sent, RefStart::<S, R>::Failed(spec)), RefStart::<S, R>::Started(reference))
            == sent.push(reference),
{
}

impl<R> RefSenderSpecFut<R> {
    pub closed spec fn spec_sender(&self) -> mpsc::UnboundedSender<R> {
        self.out.sender
    }

    /// The references pushed on the queue by this wrapper so far.
    pub closed spec fn spec_sent(&self) -> Seq<R> {
        self.out.sent@
    }

    /// Ends the start: a started child's reference, and nothing else, is
    /// pushed on the queue before the start is reported; a specification handed back for a
    /// retry is wrapped again with the same queue.
    pub fn complete<S>(self, o: RefStart<S, R>) -> (r: (
        StartOutcome<RefSenderSpec<S, R>>,
        Option<RefSenderSupervisee<R>>,
    ))
        ensures
            o is Started <==> r.0 is Started,
            o is Started <==> r.1 is Some,
            r.1 matches Some(v) ==> v.spec_sender() == self.spec_sender() && v.spec_sent()
                == sent_after(self.spec_sent(), o),
            o is Completed <==> r.0 is Completed,
            o matches RefStart::Failed(s) ==> (r.0 matches StartOutcome::Failed(w)
                && w.spec_inner() == s && w.spec_sender() == self.spec_sender()
                && w.spec_sent() == self.spec_sent()),
            o matches RefStart::Irrecoverable(e) ==> r.0 == StartOutcome::<
                RefSenderSpec<S, R>,
            >::Irrecoverable(e),
    {
        let mut out = self.out;
        let (reference, outcome) = forward(o);
        match reference {
            Some(x) => push(&mut out, x),
            None => {},
        }
        match outcome {
            RefStart::Started(()) => (
                StartOutcome::Started,
                Some(RefSenderSupervisee { out }),
            ),
            RefStart::Completed => (StartOutcome::Completed, None),
            RefStart::Failed(s) => (
                StartOutcome::Failed(RefSenderSpec { spec: s, out }),
                None,
            ),
            RefStart::Irrecoverable(e) => (StartOutcome::Irrecoverable(e), None),
        }
    }
}

impl<R> RefSenderSupervisee<R> {
    pub closed spec fn spec_sender(&self) -> mpsc::UnboundedSender<R> {
        self.out.sender
    }

    /// The references pushed on the queue by this wrapper so far.
    pub closed spec fn spec_sent(&self) -> Seq<R> {
        self.out.sent@
    }

    /// Passes an exit on; a restart is wrapped again with the same queue.
    pub fn on_exit<S>(self, o: ExitOutcome<S>) -> (r: ExitOutcome<RefSenderSpec<S, R>>)
        ensures
            o is Finished <==> r is Finished,
            o matches ExitOutcome::Restart(s) ==> (r matches ExitOutcome::Restart(w)
                && w.spec_inner() == s && w.spec_sender() == self.spec_sender()
                && w.spec_sent() == self.spec_sent()),
            o matches ExitOutcome::Fatal(e) ==> r == ExitOutcome::<
                RefSenderSpec<S, R>,
            >::Fatal(e),
    {
        match o {
            ExitOutcome::Restart(s) => ExitOutcome::Restart(
                RefSenderSpec { spec: s, out: self.out },
            ),
            ExitOutcome::Finished => ExitOutcome::Finished,
            ExitOutcome::Fatal(e) => ExitOutcome::Fatal(e),
        }
    }
}

} // verus!
