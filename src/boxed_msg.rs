use vstd::prelude::*;

verus! {

/// A value that can travel between actors.
pub trait Message: Send + 'static {

}

/// A value of any message type, its type erased. Only std's `Any` can tell
/// which type it holds, and Verus cannot see into it.
#[verifier::external_body]
struct ErasedBox {
    inner: Box<dyn std::any::Any + Send>,
}

/// Relies on `Box::new`: the value is moved into a box and its type erased.
#[verifier::external_body]
fn erase<M: Message>(value: M) -> ErasedBox {
    ErasedBox { inner: Box::new(value) }
}

/// Relies on `Box::<dyn Any + Send>::downcast`: the value comes out where
/// the box holds an `M`; otherwise the box comes back as it was.
#[verifier::external_body]
fn unerase<M: Message>(b: ErasedBox) -> (r: Result<M, ErasedBox>)
    ensures
        r matches Err(e) ==> e == b,
{
    match b.inner.downcast::<M>() {
        Ok(value) => Ok(*value),
        Err(inner) => Err(ErasedBox { inner }),
    }
}

/// A type-erased message.
pub struct BoxedMessage(ErasedBox);

impl BoxedMessage {
    /// Erases the type of `sends`.
    pub fn new<M: Message>(sends: M) -> (r: Self) {
        BoxedMessage(erase(sends))
    }

    /// Takes the message out as an `M`. Where it holds another type, the
    /// envelope comes back unchanged.
    pub fn downcast<M: Message>(self) -> (r: Result<M, Self>)
        ensures
            r matches Err(e) ==> e == self,
    {
        match unerase::<M>(self.0) {
            Ok(m) => Ok(m),
            Err(b) => Err(BoxedMessage(b)),
        }
    }

    /// Takes the message out as an `M`, as `downcast` does.
    pub fn downcast_into_msg<M: Message>(self) -> (r: Result<M, Self>)
        ensures
            r matches Err(e) ==> e == self,
    {
        match self.downcast::<M>() {
            Ok(sends) => Ok(sends),
            Err(boxed) => Err(boxed),
        }
    }
}

} // verus!
