use vstd::prelude::*;
use tokio::sync::mpsc::{UnboundedReceiver, UnboundedSender};
use crate::error::{Error, HandlerError, HttpError};

verus! {

#[verifier::external_type_specification]
#[verifier::external_body]
#[verifier::reject_recursive_types(T)]
pub struct ExUnboundedSender<T>(UnboundedSender<T>);

#[verifier::external_type_specification]
#[verifier::external_body]
#[verifier::reject_recursive_types(T)]
pub struct ExUnboundedReceiver<T>(UnboundedReceiver<T>);

/// Relies on tokio's `unbounded_channel`: a new channel, the sending and the
/// receiving half of it. Nothing is promised of them beyond their types.
pub assume_specification<T>[ tokio::sync::mpsc::unbounded_channel::<T> ]() -> (UnboundedSender<T>, UnboundedReceiver<T>);

/// Relies on tokio's `Clone` of `UnboundedSender`: another handle on the same
/// channel. Nothing is promised of it beyond its type.
pub assume_specification<T>[ <UnboundedSender<T> as Clone>::clone ](tx: &UnboundedSender<T>) -> UnboundedSender<T>;

/// Relies on tokio's `UnboundedSender::send`, which never blocks: it either
/// queues the message or, the receiver being gone, hands the message back
/// in its `SendError`.
#[verifier::external_body]
fn send_message<T>(tx: &UnboundedSender<T>, message: T) -> (r: Result<(), T>)
    ensures
        r is Err ==> r->Err_0 == message,
{
    tx.send(message).map_err(|e| e.0)
}

/// The single-use conduit that carries one answer back to a caller.
pub type ResponseSink<O> = UnboundedSender<Result<O, Error>>;

/// The caller's end of a response sink.
pub type ResponseReceiver<O> = UnboundedReceiver<Result<O, Error>>;

/// The producer side of the dispatch channel: requests with their response sinks.
pub type Ingress<I, O> = UnboundedSender<(I, ResponseSink<O>)>;

/// Reason given when the dispatch channel's consumer is gone.
pub open spec fn channel_closed_message() -> Seq<char> {
    "channel closed"@
}

/// The failure `schedule` reports when the request could not be handed over.
pub open spec fn is_ipc_failure(e: Error) -> bool {
    e is Handler && e->Handler_0 is IpcFailed && e->Handler_0->IpcFailed_0@ == channel_closed_message()
}

/// What `schedule` returns once the send is done: the receiver where the
/// request was queued, `IpcFailed` where the consumer was gone.
pub fn settle_schedule<M, T>(sent: Result<(), M>, receiver: T) -> (r: Result<T, Error>)
    ensures
        sent is Ok ==> r == Ok::<T, Error>(receiver),
        sent is Err ==> r is Err && is_ipc_failure(r->Err_0),
{
    match sent {
        Ok(()) => Ok(receiver),
        Err(_) => Err(Error::Handler(HandlerError::IpcFailed(String::from_str("channel closed")))),
    }
}

/// What a task router answers once its receiver has yielded: the handler's
/// output, the handler's error, or `NoResponse` where the sink was closed
/// without a value.
pub fn settle_response<O>(received: Option<Result<O, Error>>) -> (r: Result<O, HttpError>)
    ensures
        received is None ==> r == Err::<O, HttpError>(HttpError::NoResponse),
        received is Some && received->Some_0 is Ok ==> r == Ok::<O, HttpError>(received->Some_0->Ok_0),
        received is Some && received->Some_0 is Err ==> r == Err::<O, HttpError>(
            HttpError::Endpoint(received->Some_0->Err_0),
        ),
{
    match received {
        None => Err(HttpError::NoResponse),
        Some(Ok(output)) => Ok(output),
        Some(Err(e)) => Err(HttpError::Endpoint(e)),
    }
}

/// Writes one answer to its sink. Where the receiver is gone (its caller gave
/// up) the answer comes back as the error: the loop goes on regardless.
pub fn deliver<O>(sink: &ResponseSink<O>, answer: Result<O, Error>) -> (r: Result<(), Result<O, Error>>)
    ensures
        r is Err ==> r->Err_0 == answer,
{
    send_message(sink, answer)
}

/// The frontend's handle on the dispatch channel. Cloning it clones the
/// producer handle: many request tasks share one channel.
#[derive(Clone)]
#[verifier::reject_recursive_types(I)]
#[verifier::reject_recursive_types(O)]
pub struct EndpointContext<I, O> {
    ipc: Ingress<I, O>,
}

impl<I, O> EndpointContext<I, O> {
    pub fn new(ipc: Ingress<I, O>) -> (r: Self)
        ensures
            r.ipc() == ipc,
    {
        EndpointContext { ipc }
    }

    pub closed spec fn ipc(&self) -> Ingress<I, O> {
        self.ipc
    }

    /// Hands `request` to the dispatch loop with a new response sink, without
    /// blocking, and returns the receiver the caller awaits once. Where the
    /// loop is gone this fails at once with `IpcFailed`.
    pub fn schedule(&self, request: I) -> (r: Result<ResponseReceiver<O>, Error>)
        ensures
            r is Err ==> is_ipc_failure(r->Err_0),
    {
        let (sender, receiver) = tokio::sync::mpsc::unbounded_channel();
        let sent = send_message(&self.ipc, (request, sender));
        settle_schedule(sent, receiver)
    }
}

} // verus!
