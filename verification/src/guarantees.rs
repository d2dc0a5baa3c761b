//! What holds of the coordinator whatever it is told, proved from
//! [`FlowView::step`].

use vstd::prelude::*;
use crate::callback::{lemma_redirect_with_code, lemma_target_split, CallbackRequestView};
use crate::flow::{
    no_access_token, redirect_address, redirect_path, waited, ActionView, AuthErrorView,
    EventView, FlowView, NoticeView, SavePurpose,
};
use crate::listener::{ListenerState, Reply};
use crate::store::SpaceConfigView;
use crate::token::{AuthState, ResponseView, TokenView};

verus! {

/// How many listeners `actions` ask to start.
pub open spec fn starts(actions: Seq<ActionView>) -> int
    decreases actions.len(),
{
    if actions.len() == 0 {
        0
    } else {
        starts(actions.drop_last()) + if actions.last() is StartListener {
            1int
        } else {
            0int
        }
    }
}

/// How many times `actions` ask to stop the listener.
pub open spec fn stops(actions: Seq<ActionView>) -> int
    decreases actions.len(),
{
    if actions.len() == 0 {
        0
    } else {
        stops(actions.drop_last()) + if actions.last() is StopListener {
            1int
        } else {
            0int
        }
    }
}

/// How many records `actions` ask to save.
pub open spec fn saves(actions: Seq<ActionView>) -> int
    decreases actions.len(),
{
    if actions.len() == 0 {
        0
    } else {
        saves(actions.drop_last()) + if actions.last() is Save {
            1int
        } else {
            0int
        }
    }
}

/// The store after every save among `actions` was performed on `store`, in
/// order.
pub open spec fn store_after(store: SpaceConfigView, actions: Seq<ActionView>) -> SpaceConfigView
    decreases actions.len(),
{
    if actions.len() == 0 {
        store
    } else {
        let before = store_after(store, actions.drop_last());
        match actions.last() {
            ActionView::Save { record, .. } => before.save(record),
            _ => before,
        }
    }
}

/// The listeners that a coordinator has: one while its attempt's listener
/// has, or may still get, the address; none otherwise.
pub open spec fn listeners_of(flow: FlowView) -> int {
    if flow.holds_address() {
        1
    } else {
        0
    }
}

/// Whether `event` tells a coordinator in state `flow` that the listener it
/// asked for does not exist.
pub open spec fn bind_fails(flow: FlowView, event: EventView) -> bool {
    event is ListenerFailed && flow.listener_is(ListenerState::Starting)
}

/// Whether `event` brings a coordinator in state `flow` the token of a new
/// session: the answer to the exchange that its attempt waits for, with an
/// access token in it.
pub open spec fn opens_session(flow: FlowView, event: EventView) -> bool {
    flow.listener_is(ListenerState::Delivered) && match event {
        EventView::Exchanged(Ok(token)) => token.access_token.len() > 0,
        _ => false,
    }
}

/// The counts of no actions.
proof fn lemma_count_none()
    ensures
        starts(Seq::empty()) == 0,
        stops(Seq::empty()) == 0,
        saves(Seq::empty()) == 0,
        forall|store: SpaceConfigView| #[trigger] store_after(store, Seq::empty()) == store,
{
}

/// The counts of a run of actions with one more at its end.
proof fn lemma_count_push(actions: Seq<ActionView>, last: ActionView)
    ensures
        starts(actions.push(last)) == starts(actions) + if last is StartListener {
            1int
        } else {
            0int
        },
        stops(actions.push(last)) == stops(actions) + if last is StopListener {
            1int
        } else {
            0int
        },
        saves(actions.push(last)) == saves(actions) + if last is Save {
            1int
        } else {
            0int
        },
        forall|store: SpaceConfigView| #[trigger]
            store_after(store, actions.push(last)) == match last {
                ActionView::Save { record, .. } => store_after(store, actions).save(record),
                _ => store_after(store, actions),
            },
{
    assert(actions.push(last).drop_last() =~= actions);
}

/// The counts of one action.
proof fn lemma_count_one(a: ActionView)
    ensures
        starts(seq![a]) == if a is StartListener { 1int } else { 0int },
        stops(seq![a]) == if a is StopListener { 1int } else { 0int },
        saves(seq![a]) == if a is Save { 1int } else { 0int },
        forall|store: SpaceConfigView| #[trigger]
            store_after(store, seq![a]) == match a {
                ActionView::Save { record, .. } => store.save(record),
                _ => store,
            },
{
    lemma_count_none();
    lemma_count_push(Seq::empty(), a);
}

/// The counts of two actions.
proof fn lemma_count_two(a: ActionView, b: ActionView)
    ensures
        starts(seq![a, b]) == starts(seq![a]) + starts(seq![b]),
        stops(seq![a, b]) == stops(seq![a]) + stops(seq![b]),
        saves(seq![a, b]) == saves(seq![a]) + saves(seq![b]),
        ({
            let both = seq![a, b];
            forall|store: SpaceConfigView| #[trigger]
                store_after(store, both) == store_after(store_after(store, seq![a]), seq![b])
        }),
{
    lemma_count_one(a);
    lemma_count_one(b);
    lemma_count_push(seq![a], b);
    assert(seq![a, b] =~= seq![a].push(b));
}

/// The counts of three actions.
proof fn lemma_count_three(a: ActionView, b: ActionView, c: ActionView)
    ensures
        starts(seq![a, b, c]) == starts(seq![a]) + starts(seq![b]) + starts(seq![c]),
        stops(seq![a, b, c]) == stops(seq![a]) + stops(seq![b]) + stops(seq![c]),
        saves(seq![a, b, c]) == saves(seq![a]) + saves(seq![b]) + saves(seq![c]),
        ({
            let all = seq![a, b, c];
            forall|store: SpaceConfigView| #[trigger]
                store_after(store, all) == store_after(
                    store_after(store_after(store, seq![a]), seq![b]),
                    seq![c],
                )
        }),
{
    lemma_count_two(a, b);
    lemma_count_one(c);
    lemma_count_push(seq![a, b], c);
    assert(seq![a, b, c] =~= seq![a, b].push(c));
}

/// What the actions of a failed attempt amount to: one stop, no start, no
/// save.
proof fn lemma_count_fail(flow: FlowView, error: AuthErrorView)
    ensures
        starts(flow.fail(error).1) == 0,
        stops(flow.fail(error).1) == 1,
        saves(flow.fail(error).1) == 0,
        forall|store: SpaceConfigView| #[trigger] store_after(store, flow.fail(error).1) == store,
{
    let a = ActionView::StopListener;
    let b = ActionView::Notify(NoticeView::LoginFailed(error));
    lemma_count_two(a, b);
    lemma_count_one(a);
    lemma_count_one(b);
}

/// What the actions that give up an attempt amount to, followed by `last`.
proof fn lemma_count_release(flow: FlowView, last: ActionView)
    ensures
        starts(flow.release() + seq![last]) == starts(seq![last]),
        stops(flow.release() + seq![last]) == listeners_of(flow) + stops(seq![last]),
        saves(flow.release() + seq![last]) == saves(seq![last]),
        forall|store: SpaceConfigView| #[trigger]
            store_after(store, flow.release() + seq![last]) == store_after(store, seq![last]),
{
    lemma_count_one(last);
    if flow.holds_address() {
        lemma_count_one(ActionView::StopListener);
        lemma_count_two(ActionView::StopListener, last);
        assert(flow.release() + seq![last] =~= seq![ActionView::StopListener, last]);
    }
}

/// One step, with all that the guarantees below need of it.
proof fn lemma_step_effects(flow: FlowView, event: EventView, store: SpaceConfigView)
    ensures
        ({
            let (after, actions) = flow.step(event);
            let failed: int = if bind_fails(flow, event) {
                1
            } else {
                0
            };
            &&& listeners_of(after) == listeners_of(flow) + starts(actions) - stops(actions)
                - failed
            &&& 0 <= starts(actions) <= 1
            &&& starts(actions) == 1 ==> listeners_of(flow) == 0
            &&& 0 <= saves(actions) <= 1
            &&& saves(actions) == 1 <==> event is LogoutRequested || opens_session(flow, event)
            &&& store_after(store, actions) == if opens_session(flow, event) {
                store.save(ResponseView::logged_in(event->Exchanged_0->Ok_0))
            } else if event is LogoutRequested {
                store.save(ResponseView::logged_out())
            } else {
                store
            }
        }),
{
    let (after, actions) = flow.step(event);
    lemma_count_none();
    match event {
        EventView::LoginRequested { now } => {
            lemma_count_one(actions[0]);
        },
        EventView::ListenerBound => {
            if flow.listener_is(ListenerState::Starting) {
                lemma_count_one(actions[0]);
            }
        },
        EventView::ListenerFailed => {
            if flow.listener_is(ListenerState::Starting) {
                lemma_count_one(actions[0]);
            }
        },
        EventView::AuthorizationUrl(url) => {
            if flow.listener_is(ListenerState::Accepting) {
                lemma_count_one(actions[0]);
            }
        },
        EventView::Request { method, target } => {
            lemma_request_counted(flow, method, target);
        },
        EventView::Tick { now } => {
            lemma_count_fail(flow, AuthErrorView::Timeout);
        },
        EventView::Exchanged(result) => {
            if flow.listener_is(ListenerState::Delivered) {
                match result {
                    Ok(token) => {
                        if token.access_token.len() > 0 {
                            lemma_count_two(actions[0], actions[1]);
                            lemma_count_one(actions[0]);
                            lemma_count_one(actions[1]);
                        } else {
                            lemma_count_fail(flow, AuthErrorView::ExchangeFailed(no_access_token()));
                        }
                    },
                    Err(reason) => {
                        lemma_count_fail(flow, AuthErrorView::ExchangeFailed(reason));
                    },
                }
            }
        },
        EventView::Saved { purpose, result } => {
            if purpose == SavePurpose::Logout || flow.listener_is(ListenerState::Stopped) {
                lemma_count_one(actions[0]);
            }
        },
        EventView::LogoutRequested => {
            let save = ActionView::Save {
                purpose: SavePurpose::Logout,
                record: ResponseView::logged_out(),
            };
            lemma_count_release(flow, save);
            lemma_count_one(save);
        },
        EventView::Shutdown => {
            lemma_count_release(flow, ActionView::Quit);
            lemma_count_one(ActionView::Quit);
        },
    }
}

/// One step, counted. The listeners that exist change by the starts it asks
/// for, less the stops, less the listener that a failed bind never made; a
/// start is asked for only when no listener exists. It asks for at most one
/// save, and for one only where a code was exchanged for a token with an
/// access token or the user logged out.
pub proof fn lemma_step_counted(flow: FlowView, event: EventView)
    ensures
        ({
            let (after, actions) = flow.step(event);
            let failed: int = if bind_fails(flow, event) {
                1
            } else {
                0
            };
            &&& listeners_of(after) == listeners_of(flow) + starts(actions) - stops(actions)
                - failed
            &&& 0 <= starts(actions) <= 1
            &&& starts(actions) == 1 ==> listeners_of(flow) == 0
            &&& 0 <= saves(actions) <= 1
            &&& saves(actions) == 1 <==> event is LogoutRequested || opens_session(flow, event)
        }),
{
    lemma_step_effects(flow, event, SpaceConfigView::empty());
}

/// The step for a request, counted: it starts nothing and saves nothing,
/// and it stops the listener exactly where the callback ends the attempt.
proof fn lemma_request_counted(flow: FlowView, method: Seq<char>, target: Seq<char>)
    ensures
        ({
            let (after, actions) = flow.on_request(method, target);
            &&& starts(actions) == 0
            &&& saves(actions) == 0
            &&& listeners_of(after) == listeners_of(flow) - stops(actions)
            &&& forall|store: SpaceConfigView| #[trigger] store_after(store, actions) == store
        }),
{
    let (after, actions) = flow.on_request(method, target);
    if flow.attempt is Some {
        let (listener, delivered) = flow.attempt->0.listener.accept(method, target);
        if delivered is Some {
            let callback = delivered->0;
            if callback.error is Some || callback.code is None {
                lemma_count_three(actions[0], actions[1], actions[2]);
                lemma_count_one(actions[0]);
                lemma_count_one(actions[1]);
                lemma_count_one(actions[2]);
            } else {
                lemma_count_two(actions[0], actions[1]);
                lemma_count_one(actions[0]);
                lemma_count_one(actions[1]);
            }
        } else {
            lemma_count_one(actions[0]);
        }
    } else {
        lemma_count_one(actions[0]);
    }
}

/// The coordinator after it was told `events`, one after the other, and all
/// the actions it asked for on the way, in order.
pub open spec fn run(flow: FlowView, events: Seq<EventView>) -> (FlowView, Seq<ActionView>)
    decreases events.len(),
{
    if events.len() == 0 {
        (flow, Seq::empty())
    } else {
        let (before, done) = run(flow, events.drop_last());
        let (after, actions) = before.step(events.last());
        (after, done + actions)
    }
}

/// The listeners that exist after `events`: those of the coordinator at the
/// outset, more by each start that was asked for, less by each stop and by
/// each listener that could not be bound.
pub open spec fn listeners_after(flow: FlowView, events: Seq<EventView>) -> int
    decreases events.len(),
{
    if events.len() == 0 {
        listeners_of(flow)
    } else {
        let before = run(flow, events.drop_last()).0;
        let actions = before.step(events.last()).1;
        let failed: int = if bind_fails(before, events.last()) {
            1
        } else {
            0
        };
        listeners_after(flow, events.drop_last()) + starts(actions) - stops(actions) - failed
    }
}

/// Whatever the coordinator is told, in whatever order and however often a
/// login is asked for, there is never more than one listener: a start is
/// asked for only when none exists, and each listener that exists is that
/// of the pending attempt.
pub proof fn lemma_at_most_one_listener(flow: FlowView, events: Seq<EventView>)
    ensures
        0 <= listeners_after(flow, events) <= 1,
        listeners_after(flow, events) == listeners_of(run(flow, events).0),
    decreases events.len(),
{
    if events.len() > 0 {
        lemma_at_most_one_listener(flow, events.drop_last());
        lemma_step_counted(run(flow, events.drop_last()).0, events.last());
    }
}

/// A step keeps the coordinator's listener on the registered redirect URI.
pub proof fn lemma_step_keeps_wf(flow: FlowView, event: EventView)
    requires
        flow.wf(),
    ensures
        flow.step(event).0.wf(),
{
}

/// Whatever a coordinator is told, its listener stays on the registered
/// redirect URI.
pub proof fn lemma_run_keeps_wf(flow: FlowView, events: Seq<EventView>)
    requires
        flow.wf(),
    ensures
        run(flow, events).0.wf(),
    decreases events.len(),
{
    if events.len() > 0 {
        lemma_run_keeps_wf(flow, events.drop_last());
        lemma_step_keeps_wf(run(flow, events.drop_last()).0, events.last());
    }
}

/// The store after two runs of actions is the store after the first, then
/// after the second.
pub proof fn lemma_store_after_both(
    store: SpaceConfigView,
    first: Seq<ActionView>,
    second: Seq<ActionView>,
)
    ensures
        store_after(store, first + second) == store_after(store_after(store, first), second),
        saves(first + second) == saves(first) + saves(second),
    decreases second.len(),
{
    if second.len() > 0 {
        lemma_store_after_both(store, first, second.drop_last());
        assert((first + second).drop_last() =~= first + second.drop_last());
    }
}

/// The store after one step: as it was, unless the step opens a session or
/// closes one. Then it holds the record of that session, logged in, or the
/// record of a closed session.
pub proof fn lemma_step_stored(flow: FlowView, event: EventView, store: SpaceConfigView)
    ensures
        store_after(store, flow.step(event).1) == if opens_session(flow, event) {
            store.save(ResponseView::logged_in(event->Exchanged_0->Ok_0))
        } else if event is LogoutRequested {
            store.save(ResponseView::logged_out())
        } else {
            store
        },
{
    lemma_step_effects(flow, event, store);
}

/// Whether the store says "logged in" exactly when it holds an access token.
pub open spec fn store_consistent(store: SpaceConfigView) -> bool {
    store.response matches Some(record) ==> record.consistent()
}

/// Whatever the coordinator is told, the saves it asks for leave a store
/// that says "logged in" exactly when it holds an access token.
pub proof fn lemma_store_stays_consistent(
    flow: FlowView,
    events: Seq<EventView>,
    store: SpaceConfigView,
)
    requires
        store_consistent(store),
    ensures
        store_consistent(store_after(store, run(flow, events).1)),
    decreases events.len(),
{
    if events.len() > 0 {
        let (before, done) = run(flow, events.drop_last());
        lemma_store_stays_consistent(flow, events.drop_last(), store);
        lemma_store_after_both(store, done, before.step(events.last()).1);
        lemma_step_stored(before, events.last(), store_after(store, done));
    }
}

/// The callback that a request hands to a coordinator in state `flow`.
pub open spec fn callback_of(flow: FlowView, method: Seq<char>, target: Seq<char>) -> Option<
    CallbackRequestView,
> {
    match flow.attempt {
        Some(attempt) => attempt.listener.accept(method, target).1,
        None => None,
    }
}

/// A callback that carries an `error` ends the attempt without a save: the
/// store is as it was, the listener is stopped, the user interface hears
/// that the provider denied the login, and no answer to an exchange that
/// comes later is taken.
pub proof fn lemma_denied_callback_saves_nothing(
    flow: FlowView,
    method: Seq<char>,
    target: Seq<char>,
    store: SpaceConfigView,
)
    requires
        callback_of(flow, method, target) is Some,
        callback_of(flow, method, target)->0.error is Some,
    ensures
        ({
            let (after, actions) = flow.step(EventView::Request { method, target });
            let error = callback_of(flow, method, target)->0.error->0;
            &&& actions == seq![
                ActionView::Reply(Reply::Accepted),
                ActionView::StopListener,
                ActionView::Notify(NoticeView::LoginFailed(AuthErrorView::ProviderDenied(error))),
            ]
            &&& saves(actions) == 0
            &&& store_after(store, actions) == store
            &&& after.attempt is None
            &&& forall|result: Result<TokenView, Seq<char>>| #[trigger]
                after.step(EventView::Exchanged(result)) == (after, Seq::<ActionView>::empty())
        }),
{
    lemma_step_effects(flow, EventView::Request { method, target }, store);
}

/// A callback that carries a `code`, and no `error`, has the code exchanged;
/// where the exchange fails, the attempt ends without a save: the store is
/// as it was before the attempt.
pub proof fn lemma_failed_exchange_saves_nothing(
    flow: FlowView,
    method: Seq<char>,
    target: Seq<char>,
    reason: Seq<char>,
    store: SpaceConfigView,
)
    requires
        callback_of(flow, method, target) is Some,
        callback_of(flow, method, target)->0.error is None,
        callback_of(flow, method, target)->0.code is Some,
    ensures
        ({
            let (waiting, first) = flow.step(EventView::Request { method, target });
            let (after, second) = waiting.step(EventView::Exchanged(Err(reason)));
            let code = callback_of(flow, method, target)->0.code->0;
            &&& first == seq![ActionView::Reply(Reply::Accepted), ActionView::Exchange { code }]
            &&& second == seq![
                ActionView::StopListener,
                ActionView::Notify(NoticeView::LoginFailed(AuthErrorView::ExchangeFailed(reason))),
            ]
            &&& saves(first) == 0
            &&& saves(second) == 0
            &&& store_after(store_after(store, first), second) == store
            &&& after.attempt is None
        }),
{
    let (waiting, first) = flow.step(EventView::Request { method, target });
    lemma_step_effects(flow, EventView::Request { method, target }, store);
    lemma_step_effects(waiting, EventView::Exchanged(Err(reason)), store);
}

/// Where the exchange that an attempt waits for brings a token with an
/// access token, the listener is stopped and then one save is asked for: that
/// of the token's record, marked as logged in. A load from the store after
/// that save returns exactly that record. The user interface hears of the
/// login only once the store has answered.
pub proof fn lemma_exchanged_token_is_saved(flow: FlowView, token: TokenView, store: SpaceConfigView)
    requires
        flow.listener_is(ListenerState::Delivered),
        token.access_token.len() > 0,
    ensures
        ({
            let (saving, actions) = flow.step(EventView::Exchanged(Ok(token)));
            let record = ResponseView::logged_in(token);
            &&& actions == seq![
                ActionView::StopListener,
                ActionView::Save { purpose: SavePurpose::Login, record },
            ]
            &&& saves(actions) == 1
            &&& store_after(store, actions).load() == Some(record)
            &&& store_after(store, actions).is_logged_in()
            &&& record.logged == AuthState::Yes
            &&& !saving.holds_address()
            &&& saving.step(EventView::Saved { purpose: SavePurpose::Login, result: Ok(()) }) == (
                saving.idle(),
                seq![ActionView::Notify(NoticeView::LoginCompleted)],
            )
            &&& forall|error: Seq<char>| #[trigger]
                saving.step(EventView::Saved { purpose: SavePurpose::Login, result: Err(error) })
                    == (
                    saving.idle(),
                    seq![ActionView::Notify(NoticeView::LoginFailed(AuthErrorView::StoreError(error)))],
                )
        }),
{
    lemma_step_effects(flow, EventView::Exchanged(Ok(token)), store);
}

/// An attempt that has waited for its callback for the whole of its time
/// ends at the next tick: the listener is stopped, the user interface hears
/// of the timeout, the store is as it was, and a login that is asked for
/// next gets its listener. Before that, a tick does nothing.
pub proof fn lemma_timeout(flow: FlowView, now: u64, later: u64, store: SpaceConfigView)
    requires
        flow.listener_is(ListenerState::Accepting),
    ensures
        ({
            let (after, actions) = flow.step(EventView::Tick { now });
            if waited(flow.attempt->0.started_at, now) >= flow.timeout_secs {
                &&& actions == seq![
                    ActionView::StopListener,
                    ActionView::Notify(NoticeView::LoginFailed(AuthErrorView::Timeout)),
                ]
                &&& after.attempt is None
                &&& listeners_of(after) == 0
                &&& store_after(store, actions) == store
                &&& after.step(EventView::LoginRequested { now: later }).1 == seq![
                    ActionView::StartListener {
                        address: redirect_address(),
                        path: redirect_path(),
                    },
                ]
            } else {
                after == flow && actions == Seq::<ActionView>::empty()
            }
        }),
{
    lemma_step_effects(flow, EventView::Tick { now }, store);
}

/// A logout leaves the store with the record of a closed session, and a
/// second logout right after it leaves the same store. Neither asks for
/// anything that could fail but the save itself, and the answer of the
/// store is passed on as it comes.
pub proof fn lemma_logout_twice(flow: FlowView, store: SpaceConfigView)
    ensures
        ({
            let (once, first) = flow.step(EventView::LogoutRequested);
            let (twice, second) = once.step(EventView::LogoutRequested);
            let save = ActionView::Save {
                purpose: SavePurpose::Logout,
                record: ResponseView::logged_out(),
            };
            &&& first == flow.release() + seq![save]
            &&& second == seq![save]
            &&& store_after(store, first).load() == Some(ResponseView::logged_out())
            &&& !store_after(store, first).is_logged_in()
            &&& store_after(store_after(store, first), second) == store_after(store, first)
            &&& once.attempt is None
            &&& twice == once
            &&& twice.step(EventView::Saved { purpose: SavePurpose::Logout, result: Ok(()) }).1
                == seq![ActionView::Notify(NoticeView::LogoutCompleted)]
        }),
{
    let (once, first) = flow.step(EventView::LogoutRequested);
    lemma_step_effects(flow, EventView::LogoutRequested, store);
    lemma_step_effects(once, EventView::LogoutRequested, store_after(store, first));
    assert(once.release() + seq![
        ActionView::Save { purpose: SavePurpose::Logout, record: ResponseView::logged_out() },
    ] =~= seq![
        ActionView::Save { purpose: SavePurpose::Logout, record: ResponseView::logged_out() },
    ]);
}

/// A login that is asked for while an attempt is pending is refused at
/// once: the coordinator and its attempt are as they were, no listener is
/// started, and all that is asked for is to tell the user interface.
pub proof fn lemma_second_login_refused(flow: FlowView, now: u64, store: SpaceConfigView)
    requires
        flow.attempt is Some,
    ensures
        ({
            let (after, actions) = flow.step(EventView::LoginRequested { now });
            &&& after == flow
            &&& actions == seq![
                ActionView::Notify(NoticeView::LoginFailed(AuthErrorView::AlreadyInProgress)),
            ]
            &&& starts(actions) == 0
            &&& stops(actions) == 0
            &&& store_after(store, actions) == store
        }),
{
    lemma_step_effects(flow, EventView::LoginRequested { now }, store);
    lemma_count_one(
        ActionView::Notify(NoticeView::LoginFailed(AuthErrorView::AlreadyInProgress)),
    );
}

/// Giving an attempt up, by a logout or because the program closes, stops
/// its listener where it has one, and whatever the exchange or the store
/// answers afterwards is dropped: the token of an attempt that was given up
/// is never saved.
pub proof fn lemma_cancelled_attempt_saves_nothing(flow: FlowView, store: SpaceConfigView)
    ensures
        ({
            let (closed, by_shutdown) = flow.step(EventView::Shutdown);
            let (out, by_logout) = flow.step(EventView::LogoutRequested);
            &&& by_shutdown == flow.release() + seq![ActionView::Quit]
            &&& stops(by_shutdown) == listeners_of(flow)
            &&& stops(by_logout) == listeners_of(flow)
            &&& store_after(store, by_shutdown) == store
            &&& closed.attempt is None
            &&& out.attempt is None
            &&& forall|result: Result<TokenView, Seq<char>>| #[trigger]
                closed.step(EventView::Exchanged(result)) == (closed, Seq::<ActionView>::empty())
            &&& forall|result: Result<TokenView, Seq<char>>| #[trigger]
                out.step(EventView::Exchanged(result)) == (out, Seq::<ActionView>::empty())
            &&& forall|result: Result<(), Seq<char>>| #[trigger]
                out.step(EventView::Saved { purpose: SavePurpose::Login, result }) == (
                    out,
                    Seq::<ActionView>::empty(),
                )
        }),
{
    lemma_step_effects(flow, EventView::Shutdown, store);
    lemma_step_effects(flow, EventView::LogoutRequested, store);
    lemma_count_one(ActionView::Quit);
    lemma_count_one(
        ActionView::Save { purpose: SavePurpose::Logout, record: ResponseView::logged_out() },
    );
}

/// An attempt takes one callback. Once its listener has handed one over, and
/// before it is bound, no request is a callback, whatever it asks for.
pub proof fn lemma_one_callback_per_attempt(flow: FlowView, method: Seq<char>, target: Seq<char>)
    requires
        !flow.listener_is(ListenerState::Accepting),
    ensures
        callback_of(flow, method, target) is None,
        flow.step(EventView::Request { method, target }) == (
            flow,
            seq![ActionView::Reply(Reply::Acknowledged)],
        ),
{
}

/// While an attempt is pending, the time at which it began stays as it is:
/// nothing that happens gives it more time.
pub proof fn lemma_clock_is_never_reset(flow: FlowView, event: EventView)
    requires
        flow.attempt is Some,
        flow.step(event).0.attempt is Some,
    ensures
        flow.step(event).0.attempt->0.started_at == flow.attempt->0.started_at,
{
}

/// A request that is not the callback is acknowledged and changes nothing:
/// not the attempt, not the time at which it began.
pub proof fn lemma_other_requests_change_nothing(
    flow: FlowView,
    method: Seq<char>,
    target: Seq<char>,
)
    requires
        callback_of(flow, method, target) is None,
    ensures
        flow.step(EventView::Request { method, target }) == (
            flow,
            seq![ActionView::Reply(Reply::Acknowledged)],
        ),
{
}

/// The target of the provider's redirect with `query`.
pub open spec fn redirect_target(query: Seq<char>) -> Seq<char> {
    redirect_path() + seq!['?'] + query
}

/// A whole login, from the click to the session. A coordinator without a
/// pending attempt is asked to log in, its listener is bound, the browser is
/// sent to the provider, the provider redirects with a code, the code is
/// exchanged for a token with an access token, and the store takes the
/// record. Then the code that was exchanged is the code of the redirect,
/// the one save of the attempt is that of the token's record, a load from the
/// store returns exactly that record, logged in, the user interface hears of
/// the login after the save, and no attempt is pending.
pub proof fn lemma_successful_login(
    flow: FlowView,
    now: u64,
    url: Seq<char>,
    code: Seq<char>,
    token: TokenView,
    store: SpaceConfigView,
)
    requires
        flow.attempt is None,
        !code.contains('&'),
        token.access_token.len() > 0,
    ensures
        ({
            let (starting, a1) = flow.step(EventView::LoginRequested { now });
            let (accepting, a2) = starting.step(EventView::ListenerBound);
            let (waiting, a3) = accepting.step(EventView::AuthorizationUrl(url));
            let (exchanging, a4) = waiting.step(
                EventView::Request {
                    method: "GET"@,
                    target: redirect_target("code"@ + seq!['='] + code),
                },
            );
            let (saving, a5) = exchanging.step(EventView::Exchanged(Ok(token)));
            let (done, a6) = saving.step(
                EventView::Saved { purpose: SavePurpose::Login, result: Ok(()) },
            );
            let record = ResponseView::logged_in(token);
            &&& a1 == seq![
                ActionView::StartListener { address: redirect_address(), path: redirect_path() },
            ]
            &&& a2 == seq![ActionView::BuildAuthorizationUrl]
            &&& a3 == seq![ActionView::OpenBrowser { url }]
            &&& a4 == seq![ActionView::Reply(Reply::Accepted), ActionView::Exchange { code }]
            &&& a5 == seq![
                ActionView::StopListener,
                ActionView::Save { purpose: SavePurpose::Login, record },
            ]
            &&& a6 == seq![ActionView::Notify(NoticeView::LoginCompleted)]
            &&& saves(a1) + saves(a2) + saves(a3) + saves(a4) + saves(a5) + saves(a6) == 1
            &&& store_after(store, a1 + a2 + a3 + a4) == store
            &&& store_after(store, a1 + a2 + a3 + a4 + a5 + a6).load() == Some(record)
            &&& store_after(store, a1 + a2 + a3 + a4 + a5 + a6).is_logged_in()
            &&& done == flow
        }),
{
    let (starting, a1) = flow.step(EventView::LoginRequested { now });
    let (accepting, a2) = starting.step(EventView::ListenerBound);
    let (waiting, a3) = accepting.step(EventView::AuthorizationUrl(url));
    let query = "code"@ + seq!['='] + code;
    let request = EventView::Request { method: "GET"@, target: redirect_target(query) };
    let (exchanging, a4) = waiting.step(request);
    let (saving, a5) = exchanging.step(EventView::Exchanged(Ok(token)));
    let saved = EventView::Saved { purpose: SavePurpose::Login, result: Ok(()) };
    let (done, a6) = saving.step(saved);

    assert(!redirect_path().contains('?')) by {
        reveal_strlit("/success");
        let path = redirect_path();
        assert forall|j: int| 0 <= j < path.len() implies path[j] != '?' by {}
    }
    lemma_target_split(redirect_path(), query);
    lemma_redirect_with_code(code);

    lemma_step_effects(flow, EventView::LoginRequested { now }, store);
    let s1 = store_after(store, a1);
    lemma_step_effects(starting, EventView::ListenerBound, s1);
    let s2 = store_after(s1, a2);
    lemma_step_effects(accepting, EventView::AuthorizationUrl(url), s2);
    let s3 = store_after(s2, a3);
    lemma_step_effects(waiting, request, s3);
    let s4 = store_after(s3, a4);
    lemma_step_effects(exchanging, EventView::Exchanged(Ok(token)), s4);
    let s5 = store_after(s4, a5);
    lemma_step_effects(saving, saved, s5);

    lemma_store_after_both(store, a1, a2);
    lemma_store_after_both(store, a1 + a2, a3);
    lemma_store_after_both(store, a1 + a2 + a3, a4);
    lemma_store_after_both(store, a1 + a2 + a3 + a4, a5);
    lemma_store_after_both(store, a1 + a2 + a3 + a4 + a5, a6);
}

} // verus!
