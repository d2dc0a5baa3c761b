//! The one-shot listener that waits for the provider's redirect.
//!
//! The socket is the driving program's; this is the listener's life and its
//! rule for requests: the first request for the expected path is the
//! callback, every other one is merely acknowledged.

use vstd::prelude::*;
use vstd::string::*;
use crate::callback::{path_of, query_of, split_target, CallbackRequest, CallbackRequestView};

verus! {

/// Where a listener stands in its life.
#[derive(Clone, Copy, Debug, PartialEq, Eq, Structural)]
pub enum ListenerState {
    /// Start was asked for; whether the address could be bound is not known yet.
    Starting,
    /// Bound and waiting for the callback.
    Accepting,
    /// The callback was handed over; later requests are only acknowledged.
    Delivered,
    /// Stopped, or never bound; the address is free.
    Stopped,
}

/// What a request is answered with.
#[derive(Clone, Copy, Debug, PartialEq, Eq, Structural)]
pub enum Reply {
    /// The request was the callback and was taken.
    Accepted,
    /// A plain acknowledgement; the request changed nothing.
    Acknowledged,
}

impl Reply {
    /// The status code of the reply.
    pub fn status(&self) -> (code: u16)
        ensures
            code == 200,
    {
        200
    }

    /// The text of the reply: a line for the user where the callback was
    /// taken, nothing otherwise.
    pub fn body(&self) -> (body: String)
        ensures
            body@ == match *self {
                Reply::Accepted => "Login received. You may close this window."@,
                Reply::Acknowledged => ""@,
            },
    {
        match self {
            Reply::Accepted => String::from_str("Login received. You may close this window."),
            Reply::Acknowledged => String::from_str(""),
        }
    }
}

/// The handle of a listener.
#[derive(Debug)]
pub struct CallbackListener {
    address: String,
    path: String,
    state: ListenerState,
}

/// A [`CallbackListener`] as a mathematical value.
pub struct ListenerView {
    pub address: Seq<char>,
    pub path: Seq<char>,
    pub state: ListenerState,
}

impl View for CallbackListener {
    type V = ListenerView;

    closed spec fn view(&self) -> ListenerView {
        ListenerView { address: self.address@, path: self.path@, state: self.state }
    }
}

/// What a delivered request is, seen as a mathematical value.
pub open spec fn delivered_view(delivered: Option<CallbackRequest>) -> Option<CallbackRequestView> {
    match delivered {
        Some(request) => Some(request@),
        None => None,
    }
}

/// Whether a request is the provider's redirect: a `GET` whose path is
/// the expected one.
pub open spec fn is_callback(method: Seq<char>, target: Seq<char>, path: Seq<char>) -> bool {
    method == "GET"@ && path_of(target) == path
}

impl ListenerView {
    /// A listener that was just asked to start.
    pub open spec fn start(address: Seq<char>, path: Seq<char>) -> ListenerView {
        ListenerView { address, path, state: ListenerState::Starting }
    }

    /// Whether the listener has, or may still get, its address.
    pub open spec fn holds_address(self) -> bool {
        self.state != ListenerState::Stopped
    }

    /// The listener after it learned how binding went. Only a starting
    /// listener is moved by that.
    pub open spec fn bound(self, ok: bool) -> ListenerView {
        if self.state == ListenerState::Starting {
            ListenerView {
                state: if ok {
                    ListenerState::Accepting
                } else {
                    ListenerState::Stopped
                },
                ..self
            }
        } else {
            self
        }
    }

    /// The listener after a request, and the callback it hands over. An
    /// accepting listener takes the first request that is the callback and
    /// accepts no more; any other request leaves it as it was.
    pub open spec fn accept(self, method: Seq<char>, target: Seq<char>) -> (
        ListenerView,
        Option<CallbackRequestView>,
    ) {
        if self.state == ListenerState::Accepting && is_callback(method, target, self.path) {
            (
                ListenerView { state: ListenerState::Delivered, ..self },
                Some(CallbackRequestView::of_query(query_of(target))),
            )
        } else {
            (self, None)
        }
    }

    /// The listener after a stop.
    pub open spec fn stop(self) -> ListenerView {
        ListenerView { state: ListenerState::Stopped, ..self }
    }

    /// How many callbacks the listener hands over while it is given
    /// `requests`, pairs of method and target, one after the other.
    pub open spec fn deliveries(self, requests: Seq<(Seq<char>, Seq<char>)>) -> nat
        decreases requests.len(),
    {
        if requests.len() == 0 {
            0
        } else {
            let (next, delivered) = self.accept(requests[0].0, requests[0].1);
            let rest = next.deliveries(requests.drop_first());
            if delivered is Some {
                1 + rest
            } else {
                rest
            }
        }
    }
}

/// Whether two strings hold the same text.
fn same_text(a: &str, b: &str) -> (same: bool)
    ensures
        same == (a@ == b@),
{
    String::from_str(a) == String::from_str(b)
}

impl CallbackListener {
    /// The handle of a listener for `path` on `address` that is being started.
    pub fn start(address: String, path: String) -> (listener: Self)
        ensures
            listener@ == ListenerView::start(address@, path@),
    {
        CallbackListener { address, path, state: ListenerState::Starting }
    }

    /// Records how binding the address went.
    pub fn bound(&mut self, ok: bool)
        ensures
            final(self)@ == old(self)@.bound(ok),
    {
        if self.state == ListenerState::Starting {
            self.state = if ok {
                ListenerState::Accepting
            } else {
                ListenerState::Stopped
            };
        }
    }

    /// Takes one inbound request and hands over the callback if this is it.
    pub fn accept(&mut self, method: &str, target: &str) -> (delivered: Option<CallbackRequest>)
        ensures
            (final(self)@, delivered_view(delivered)) == old(self)@.accept(method@, target@),
    {
        if self.state == ListenerState::Accepting && same_text(method, "GET") {
            let (path, query) = split_target(target);
            if path == self.path {
                self.state = ListenerState::Delivered;
                return Some(CallbackRequest::from_query(query.as_str()));
            }
        }
        None
    }

    /// Stops the listener. Stopping a stopped listener changes nothing.
    pub fn stop(&mut self)
        ensures
            final(self)@ == old(self)@.stop(),
    {
        self.state = ListenerState::Stopped;
    }

    /// Where the listener stands in its life.
    pub fn state(&self) -> (state: ListenerState)
        ensures
            state == self@.state,
    {
        self.state
    }

    /// The address on which the listener waits.
    pub fn address(&self) -> (address: &String)
        ensures
            address@ == self@.address,
    {
        &self.address
    }

    /// The path for which the listener waits.
    pub fn path(&self) -> (path: &String)
        ensures
            path@ == self@.path,
    {
        &self.path
    }
}

/// Whatever requests arrive, and however many, a listener hands over at
/// most one callback; one that is not accepting hands over none.
pub proof fn lemma_at_most_one_delivery(listener: ListenerView, requests: Seq<(Seq<char>, Seq<char>)>)
    ensures
        listener.deliveries(requests) <= 1,
        listener.state != ListenerState::Accepting ==> listener.deliveries(requests) == 0,
    decreases requests.len(),
{
    if requests.len() > 0 {
        let (next, delivered) = listener.accept(requests[0].0, requests[0].1);
        lemma_at_most_one_delivery(next, requests.drop_first());
    }
}

/// Stopping twice is stopping once.
pub proof fn lemma_stop_idempotent(listener: ListenerView)
    ensures
        listener.stop().stop() == listener.stop(),
        !listener.stop().holds_address(),
{
}

} // verus!
