//! What a code cell is told of a message that it sent.

use vstd::prelude::*;

use crate::dispatch_task::DispatchKind;

verus! {

/// How a request ends.
#[derive(Debug, PartialEq, Eq)]
pub enum RequestEnd<R> {
    /// The dispatcher answered.
    Reply(Result<R, String>),
    /// The request was cancelled.
    Cancelled,
    /// The dispatcher takes no message.
    Unavailable,
    /// The dispatcher will not answer.
    Stopped,
}

/// What a request of `kind` is told where it was not answered.
pub open spec fn end_message<R>(kind: DispatchKind, end: RequestEnd<R>) -> Seq<char> {
    match (kind, end) {
        (DispatchKind::InvokeTool, RequestEnd::Cancelled) => {
            "code mode nested tool call cancelled"@
        },
        (DispatchKind::InvokeTool, RequestEnd::Unavailable) => {
            "code mode nested tool dispatcher is unavailable"@
        },
        (DispatchKind::InvokeTool, RequestEnd::Stopped) => {
            "code mode nested tool dispatcher stopped"@
        },
        (DispatchKind::Notify, RequestEnd::Cancelled) => "code mode notification cancelled"@,
        (DispatchKind::Notify, RequestEnd::Unavailable) => {
            "code mode notification dispatcher is unavailable"@
        },
        (DispatchKind::Notify, RequestEnd::Stopped) => {
            "code mode notification dispatcher stopped"@
        },
        (_, RequestEnd::Reply(_)) => Seq::empty(),
    }
}

impl<R> RequestEnd<R> {
    /// The end as the cell gets it: the answer, or the message that tells why there is none.
    pub fn into_result(self, kind: DispatchKind) -> (result: Result<R, String>)
        ensures
            match self {
                RequestEnd::Reply(reply) => result == reply,
                _ => result matches Err(message) && message@ == end_message(kind, self),
            },
    {
        let message: &str = match (kind, self) {
            (_, RequestEnd::Reply(reply)) => {
                return reply;
            },
            (DispatchKind::InvokeTool, RequestEnd::Cancelled) => {
                "code mode nested tool call cancelled"
            },
            (DispatchKind::InvokeTool, RequestEnd::Unavailable) => {
                "code mode nested tool dispatcher is unavailable"
            },
            (DispatchKind::InvokeTool, RequestEnd::Stopped) => {
                "code mode nested tool dispatcher stopped"
            },
            (DispatchKind::Notify, RequestEnd::Cancelled) => "code mode notification cancelled",
            (DispatchKind::Notify, RequestEnd::Unavailable) => {
                "code mode notification dispatcher is unavailable"
            },
            (DispatchKind::Notify, RequestEnd::Stopped) => {
                "code mode notification dispatcher stopped"
            },
        };
        Err(message.to_owned())
    }
}

/// What a request is about to do.
#[derive(Debug, PartialEq, Eq)]
pub enum DispatchRequest<R> {
    /// See whether it was cancelled.
    Begin,
    /// Send its message to the dispatcher.
    Send,
    /// Wait for the answer or for a cancellation.
    AwaitReply,
    /// Return.
    Done(RequestEnd<R>),
}

/// What a request has just seen.
#[derive(Debug, PartialEq, Eq)]
pub enum RequestEvent<R> {
    /// Whether it was cancelled.
    Checked { cancelled: bool },
    /// Whether the dispatcher took the message.
    Sent(bool),
    /// The answer.
    Replied(Result<R, String>),
    /// The dispatcher dropped the message.
    ReplyDropped,
    /// The request was cancelled.
    Cancelled,
}

impl<R> DispatchRequest<R> {
    /// What follows on `event`. An event that the request does not wait for changes nothing.
    pub open spec fn next(self, event: RequestEvent<R>) -> DispatchRequest<R> {
        match (self, event) {
            (DispatchRequest::Begin, RequestEvent::Checked { cancelled }) => if cancelled {
                DispatchRequest::Done(RequestEnd::Cancelled)
            } else {
                DispatchRequest::Send
            },
            (DispatchRequest::Send, RequestEvent::Sent(taken)) => if taken {
                DispatchRequest::AwaitReply
            } else {
                DispatchRequest::Done(RequestEnd::Unavailable)
            },
            (DispatchRequest::AwaitReply, RequestEvent::Replied(reply)) => {
                DispatchRequest::Done(RequestEnd::Reply(reply))
            },
            (DispatchRequest::AwaitReply, RequestEvent::ReplyDropped) => DispatchRequest::Done(
                RequestEnd::Stopped,
            ),
            (DispatchRequest::AwaitReply, RequestEvent::Cancelled) => DispatchRequest::Done(
                RequestEnd::Cancelled,
            ),
            _ => self,
        }
    }

    /// A request that was just made.
    pub fn new() -> (request: DispatchRequest<R>)
        ensures
            request == DispatchRequest::<R>::Begin,
    {
        DispatchRequest::Begin
    }

    /// Takes the request on by what it has seen.
    pub fn advance(self, event: RequestEvent<R>) -> (next: DispatchRequest<R>)
        ensures
            next == self.next(event),
    {
        match (self, event) {
            (DispatchRequest::Begin, RequestEvent::Checked { cancelled }) => if cancelled {
                DispatchRequest::Done(RequestEnd::Cancelled)
            } else {
                DispatchRequest::Send
            },
            (DispatchRequest::Send, RequestEvent::Sent(taken)) => if taken {
                DispatchRequest::AwaitReply
            } else {
                DispatchRequest::Done(RequestEnd::Unavailable)
            },
            (DispatchRequest::AwaitReply, RequestEvent::Replied(reply)) => {
                DispatchRequest::Done(RequestEnd::Reply(reply))
            },
            (DispatchRequest::AwaitReply, RequestEvent::ReplyDropped) => DispatchRequest::Done(
                RequestEnd::Stopped,
            ),
            (DispatchRequest::AwaitReply, RequestEvent::Cancelled) => DispatchRequest::Done(
                RequestEnd::Cancelled,
            ),
            (request, _) => request,
        }
    }
}

} // verus!
