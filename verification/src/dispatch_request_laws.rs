//! What a code cell is told of its message, for every reply and for every way to get none.

use vstd::prelude::*;

use crate::dispatch_laws::request_run;
use crate::dispatch_request::{DispatchRequest, RequestEnd, RequestEvent};

verus! {

/// A request is sent exactly where it is not cancelled, and waits for its answer exactly where
/// the dispatcher took it.
pub proof fn law_request_is_sent_unless_cancelled<R>()
    ensures
        DispatchRequest::<R>::Begin.next(RequestEvent::Checked { cancelled: false })
            == DispatchRequest::<R>::Send,
        DispatchRequest::<R>::Begin.next(RequestEvent::Checked { cancelled: true })
            == DispatchRequest::<R>::Done(RequestEnd::Cancelled),
        DispatchRequest::<R>::Send.next(RequestEvent::Sent(true)) == DispatchRequest::<
            R,
        >::AwaitReply,
        DispatchRequest::<R>::Send.next(RequestEvent::Sent(false)) == DispatchRequest::<R>::Done(
            RequestEnd::Unavailable,
        ),
{
}

/// A request that waits ends with the very reply that it gets, or with the fact that there will
/// be none, or with its cancellation, whichever it sees first.
pub proof fn law_waiting_request_ends_with_what_it_sees<R>(reply: Result<R, String>)
    ensures
        DispatchRequest::<R>::AwaitReply.next(RequestEvent::Replied(reply)) == DispatchRequest::<
            R,
        >::Done(RequestEnd::Reply(reply)),
        DispatchRequest::<R>::AwaitReply.next(RequestEvent::ReplyDropped) == DispatchRequest::<
            R,
        >::Done(RequestEnd::Stopped),
        DispatchRequest::<R>::AwaitReply.next(RequestEvent::Cancelled) == DispatchRequest::<
            R,
        >::Done(RequestEnd::Cancelled),
{
}

/// An event that a request does not wait for changes nothing, and a request that is over sees
/// nothing any more.
pub proof fn law_other_events_leave_a_request_alone<R>(
    request: DispatchRequest<R>,
    event: RequestEvent<R>,
)
    requires
        request is Begin ==> !(event is Checked),
        request is Send ==> !(event is Sent),
        request is AwaitReply ==> !(event is Replied || event is ReplyDropped
            || event is Cancelled),
    ensures
        request.next(event) == request,
{
}

/// A request ends only for cause: with a reply that it got, as cancelled where it was cancelled,
/// as unavailable where its message was not taken, and as stopped where its message was dropped.
pub proof fn law_request_ends_only_for_cause<R>(events: Seq<RequestEvent<R>>)
    ensures
        request_run(DispatchRequest::<R>::Begin, events) matches DispatchRequest::Done(end)
            ==> match end {
            RequestEnd::Reply(reply) => events.contains(RequestEvent::Replied(reply)),
            RequestEnd::Cancelled => events.contains(RequestEvent::Cancelled) || events.contains(
                RequestEvent::Checked { cancelled: true },
            ),
            RequestEnd::Unavailable => events.contains(RequestEvent::Sent(false)),
            RequestEnd::Stopped => events.contains(RequestEvent::ReplyDropped),
        },
    decreases events.len(),
{
    if events.len() > 0 {
        let before = events.drop_last();
        law_request_ends_only_for_cause(before);
        assert(events[events.len() - 1] == events.last());
        assert forall|event: RequestEvent<R>| #[trigger]
            before.contains(event) implies events.contains(event) by {
            let i = choose|i: int| 0 <= i < before.len() && before[i] == event;
            assert(events[i] == event);
        }
        assert(events.contains(events.last()));
    }
}

} // verus!
