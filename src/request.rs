use vstd::prelude::*;

use tokio::sync::oneshot;

verus! {

#[verifier::external_type_specification]
#[verifier::external_body]
#[verifier::reject_recursive_types(T)]
pub struct ExOneshotSender<T>(oneshot::Sender<T>);

#[verifier::external_type_specification]
#[verifier::external_body]
#[verifier::reject_recursive_types(T)]
pub struct ExOneshotReceiver<T>(oneshot::Receiver<T>);

#[verifier::external_type_specification]
#[verifier::external_body]
pub struct ExRecvError(oneshot::error::RecvError);

#[verifier::external_type_specification]
pub struct ExTryRecvError(oneshot::error::TryRecvError);

/// Relies on `tokio::sync::oneshot::channel`: a fresh sender and receiver.
#[verifier::external_body]
fn oneshot_channel<T>() -> (oneshot::Sender<T>, oneshot::Receiver<T>) {
    oneshot::channel()
}

/// Relies on `oneshot::Sender::send`: where the value cannot be sent, it
/// is handed back.
#[verifier::external_body]
fn oneshot_send<T>(tx: oneshot::Sender<T>, value: T) -> (r: Result<(), T>)
    ensures
        r matches Err(v) ==> v == value,
{
    tx.send(value)
}

/// Relies on `oneshot::Sender::is_closed`: whether the receiver is gone.
#[verifier::external_body]
fn oneshot_is_closed<T>(tx: &oneshot::Sender<T>) -> bool {
    tx.is_closed()
}

/// Relies on `oneshot::Receiver::try_recv`: the value, if it has arrived.
#[verifier::external_body]
fn oneshot_try_recv<T>(rx: &mut oneshot::Receiver<T>) -> Result<T, oneshot::error::TryRecvError> {
    rx.try_recv()
}

/// Relies on `oneshot::Receiver::close`: the sender can no longer send.
#[verifier::external_body]
fn oneshot_close<T>(rx: &mut oneshot::Receiver<T>) {
    rx.close()
}

/// The message type of a request: the sender of a message gets a reply of
/// type `T` back.
#[derive(Debug)]
pub struct Request<T>(core::marker::PhantomData<T>);

impl<T> Request<T> {
    /// A fresh one-shot channel for the reply.
    pub fn new() -> (Tx<T>, Rx<T>) {
        let (tx, rx) = oneshot_channel();
        (Tx(tx), Rx(rx))
    }

    /// The sent form of a request carrying `msg`, with a fresh reply channel,
    /// and the receiver of the reply.
    pub fn new_pair<M>(msg: M) -> (r: ((M, Tx<T>), Rx<T>))
        ensures
            r.0.0 == msg,
    {
        let (tx, rx) = Self::new();
        ((msg, tx), rx)
    }

    /// The message of a request in its sent form.
    pub fn into_msg<M>(sends: (M, Tx<T>), _returns: Rx<T>) -> (r: M)
        ensures
            r == sends.0,
    {
        sends.0
    }
}

/// The sending half of a reply channel.
#[verifier::reject_recursive_types(M)]
pub struct Tx<M>(oneshot::Sender<M>);

impl<M> Tx<M> {
    /// Sends a message. Where the receiver is gone, the message comes back
    /// inside the error.
    pub fn send(self, msg: M) -> (r: Result<(), TxError<M>>)
        ensures
            r matches Err(e) ==> e.0 == msg,
    {
        match oneshot_send(self.0, msg) {
            Ok(()) => Ok(()),
            Err(m) => Err(TxError(m)),
        }
    }

    /// The underlying tokio sender.
    pub fn into_inner(self) -> oneshot::Sender<M> {
        self.0
    }

    /// Whether the [Rx] has closed or dropped the channel.
    pub fn is_closed(&self) -> bool {
        oneshot_is_closed(&self.0)
    }
}

/// The receiving half of a reply channel.
#[verifier::reject_recursive_types(M)]
pub struct Rx<M>(oneshot::Receiver<M>);

impl<M> Rx<M> {
    /// Takes the message out, if it has arrived.
    pub fn try_recv(&mut self) -> Result<M, TryRxError> {
        match oneshot_try_recv(&mut self.0) {
            Ok(m) => Ok(m),
            Err(e) => Err(TryRxError::from(e)),
        }
    }

    /// The underlying tokio receiver.
    pub fn into_inner(self) -> oneshot::Receiver<M> {
        self.0
    }

    /// Closes the channel, so that the [Tx] cannot send.
    pub fn close(&mut self) {
        oneshot_close(&mut self.0)
    }
}

/// Error of sending with a [Tx] whose receiver is gone; it holds the message.
#[derive(Debug, Clone, Copy, PartialEq, PartialOrd, Eq, Ord, Hash)]
pub struct TxError<M>(pub M);

/// Error of receiving with an [Rx] whose sender is gone.
#[derive(Debug, Clone, Copy, PartialEq, PartialOrd, Eq, Ord, Hash)]
pub struct RxError;

impl From<oneshot::error::RecvError> for RxError {
    fn from(e: oneshot::error::RecvError) -> (r: Self) {
        RxError
    }
}

impl vstd::std_specs::convert::FromSpecImpl<oneshot::error::RecvError> for RxError {
    open spec fn obeys_from_spec() -> bool {
        true
    }

    open spec fn from_spec(e: oneshot::error::RecvError) -> Self {
        RxError
    }
}

/// Error of trying to receive with an [Rx].
#[derive(Debug, Clone, Copy, PartialEq, PartialOrd, Eq, Ord, Hash)]
pub enum TryRxError {
    /// The sender is gone.
    Closed,
    /// Nothing has arrived yet.
    Empty,
}

impl TryRxError {
    /// A description of the error.
    pub fn message(&self) -> (r: String)
        ensures
            self is Closed ==> r@ == "Closed"@,
            self is Empty ==> r@ == "Empty"@,
    {
        proof {
            reveal_strlit("Closed");
            reveal_strlit("Empty");
        }
        match self {
            TryRxError::Closed => String::from_str("Closed"),
            TryRxError::Empty => String::from_str("Empty"),
        }
    }
}

impl From<oneshot::error::TryRecvError> for TryRxError {
    fn from(e: oneshot::error::TryRecvError) -> (r: Self) {
        match e {
            oneshot::error::TryRecvError::Empty => TryRxError::Empty,
            oneshot::error::TryRecvError::Closed => TryRxError::Closed,
        }
    }
}

impl vstd::std_specs::convert::FromSpecImpl<oneshot::error::TryRecvError> for TryRxError {
    open spec fn obeys_from_spec() -> bool {
        true
    }

    open spec fn from_spec(e: oneshot::error::TryRecvError) -> Self {
        match e {
            oneshot::error::TryRecvError::Empty => TryRxError::Empty,
            oneshot::error::TryRecvError::Closed => TryRxError::Closed,
        }
    }
}

} // verus!
