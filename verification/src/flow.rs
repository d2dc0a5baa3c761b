//! The coordinator of a login attempt.
//!
//! The coordinator does no work on the outside world itself. It is told what
//! happened, one [`Event`] at a time, and answers each with the [`Action`]s
//! that the driving program has to perform, in order. What it decides is a
//! function of its state and the event alone: [`FlowView::step`].

use vstd::prelude::*;
use vstd::string::*;
use crate::callback::{CallbackRequest, CallbackRequestView};
use crate::listener::{CallbackListener, ListenerState, ListenerView, Reply};
use crate::store::StoreError;
use crate::token::{Response, ResponseView, ScopeSet, Token, TokenView};

verus! {

/// How long a login attempt waits for the callback unless told otherwise.
pub const DEFAULT_TIMEOUT_SECS: u64 = 120;

/// The address on which the listener waits: the host and port of the
/// redirect URI that is registered with the provider.
pub open spec fn redirect_address() -> Seq<char> {
    "127.0.0.1:8088"@
}

/// The path of the redirect URI that is registered with the provider.
pub open spec fn redirect_path() -> Seq<char> {
    "/success"@
}

/// The redirect URI that is registered with the provider. The listener
/// waits on its host and port, for its path.
pub open spec fn redirect_uri_text() -> Seq<char> {
    "http://"@ + redirect_address() + redirect_path()
}

/// The scope that a login asks the provider for.
pub open spec fn requested_scope() -> Seq<char> {
    "user-read-recently-played"@
}

/// The reason given when the provider answers an exchange with a token that
/// has no access token.
pub open spec fn no_access_token() -> Seq<char> {
    "the provider returned no access token"@
}

/// The seconds between `started_at` and `now`; none where the clock reads
/// earlier than it did at the start.
pub open spec fn waited(started_at: u64, now: u64) -> int {
    if now >= started_at {
        now - started_at
    } else {
        0
    }
}

/// Why a login attempt did not end in a session.
#[derive(Debug, PartialEq, Eq)]
pub enum AuthError {
    /// Another attempt was pending.
    AlreadyInProgress,
    /// The listener's address could not be bound.
    BindError,
    /// No callback came in time.
    Timeout,
    /// The provider's redirect did not grant a code; with its `error`, if it
    /// gave one.
    ProviderDenied(String),
    /// The code could not be exchanged for a token.
    ExchangeFailed(String),
    /// The token was issued but could not be saved.
    StoreError(StoreError),
}

/// An [`AuthError`] as a mathematical value.
pub enum AuthErrorView {
    AlreadyInProgress,
    BindError,
    Timeout,
    ProviderDenied(Seq<char>),
    ExchangeFailed(Seq<char>),
    StoreError(Seq<char>),
}

impl View for AuthError {
    type V = AuthErrorView;

    open spec fn view(&self) -> AuthErrorView {
        match self {
            AuthError::AlreadyInProgress => AuthErrorView::AlreadyInProgress,
            AuthError::BindError => AuthErrorView::BindError,
            AuthError::Timeout => AuthErrorView::Timeout,
            AuthError::ProviderDenied(reason) => AuthErrorView::ProviderDenied(reason@),
            AuthError::ExchangeFailed(reason) => AuthErrorView::ExchangeFailed(reason@),
            AuthError::StoreError(error) => AuthErrorView::StoreError(error@),
        }
    }
}

/// What a save is for.
#[derive(Clone, Copy, Debug, PartialEq, Eq, Structural)]
pub enum SavePurpose {
    Login,
    Logout,
}

/// What the user interface is told.
#[derive(Debug, PartialEq, Eq)]
pub enum Notice {
    LoginCompleted,
    LoginFailed(AuthError),
    LogoutCompleted,
    LogoutFailed(StoreError),
}

/// A [`Notice`] as a mathematical value.
pub enum NoticeView {
    LoginCompleted,
    LoginFailed(AuthErrorView),
    LogoutCompleted,
    LogoutFailed(Seq<char>),
}

impl View for Notice {
    type V = NoticeView;

    open spec fn view(&self) -> NoticeView {
        match self {
            Notice::LoginCompleted => NoticeView::LoginCompleted,
            Notice::LoginFailed(error) => NoticeView::LoginFailed(error@),
            Notice::LogoutCompleted => NoticeView::LogoutCompleted,
            Notice::LogoutFailed(error) => NoticeView::LogoutFailed(error@),
        }
    }
}

/// Something that happened outside and that the coordinator is told of.
#[derive(Debug)]
pub enum Event {
    /// The user asked to log in, at `now` seconds on the driver's clock.
    LoginRequested { now: u64 },
    /// The listener that was asked for is bound and accepts requests.
    ListenerBound,
    /// The listener that was asked for could not be bound.
    ListenerFailed,
    /// The authorization client built the URL that was asked for.
    AuthorizationUrl(String),
    /// A request came in on the listener.
    Request { method: String, target: String },
    /// Time has passed; it is `now` seconds on the driver's clock.
    Tick { now: u64 },
    /// The authorization client answered the exchange that was asked for.
    Exchanged(Result<Token, String>),
    /// The store answered the save that was asked for.
    Saved { purpose: SavePurpose, result: Result<(), StoreError> },
    /// The user asked to log out.
    LogoutRequested,
    /// The program is closing.
    Shutdown,
}

/// An [`Event`] as a mathematical value.
pub enum EventView {
    LoginRequested { now: u64 },
    ListenerBound,
    ListenerFailed,
    AuthorizationUrl(Seq<char>),
    Request { method: Seq<char>, target: Seq<char> },
    Tick { now: u64 },
    Exchanged(Result<TokenView, Seq<char>>),
    Saved { purpose: SavePurpose, result: Result<(), Seq<char>> },
    LogoutRequested,
    Shutdown,
}

impl View for Event {
    type V = EventView;

    open spec fn view(&self) -> EventView {
        match self {
            Event::LoginRequested { now } => EventView::LoginRequested { now: *now },
            Event::ListenerBound => EventView::ListenerBound,
            Event::ListenerFailed => EventView::ListenerFailed,
            Event::AuthorizationUrl(url) => EventView::AuthorizationUrl(url@),
            Event::Request { method, target } => EventView::Request {
                method: method@,
                target: target@,
            },
            Event::Tick { now } => EventView::Tick { now: *now },
            Event::Exchanged(result) => EventView::Exchanged(
                match result {
                    Ok(token) => Ok(token@),
                    Err(reason) => Err(reason@),
                },
            ),
            Event::Saved { purpose, result } => EventView::Saved {
                purpose: *purpose,
                result: match result {
                    Ok(_) => Ok(()),
                    Err(error) => Err(error@),
                },
            },
            Event::LogoutRequested => EventView::LogoutRequested,
            Event::Shutdown => EventView::Shutdown,
        }
    }
}

/// Something the driving program has to do for the coordinator.
#[derive(Debug)]
pub enum Action {
    /// Bind a listener for `path` on `address` and report `ListenerBound` or
    /// `ListenerFailed`.
    StartListener { address: String, path: String },
    /// Shut the listener down and free its address.
    StopListener,
    /// Ask the authorization client for the authorization URL and report it.
    BuildAuthorizationUrl,
    /// Show `url` to the user and try to open it in the browser. Whether the
    /// browser opened is of no consequence to the attempt.
    OpenBrowser { url: String },
    /// Answer the request that was just reported.
    Reply(Reply),
    /// Ask the authorization client to exchange `code` and report the outcome.
    Exchange { code: String },
    /// Put `record` in the store in place of what is there and report the
    /// outcome together with `purpose`.
    Save { purpose: SavePurpose, record: Response },
    /// Tell the user interface.
    Notify(Notice),
    /// Leave the program.
    Quit,
}

/// An [`Action`] as a mathematical value.
pub enum ActionView {
    StartListener { address: Seq<char>, path: Seq<char> },
    StopListener,
    BuildAuthorizationUrl,
    OpenBrowser { url: Seq<char> },
    Reply(Reply),
    Exchange { code: Seq<char> },
    Save { purpose: SavePurpose, record: ResponseView },
    Notify(NoticeView),
    Quit,
}

impl View for Action {
    type V = ActionView;

    open spec fn view(&self) -> ActionView {
        match self {
            Action::StartListener { address, path } => ActionView::StartListener {
                address: address@,
                path: path@,
            },
            Action::StopListener => ActionView::StopListener,
            Action::BuildAuthorizationUrl => ActionView::BuildAuthorizationUrl,
            Action::OpenBrowser { url } => ActionView::OpenBrowser { url: url@ },
            Action::Reply(reply) => ActionView::Reply(*reply),
            Action::Exchange { code } => ActionView::Exchange { code: code@ },
            Action::Save { purpose, record } => ActionView::Save {
                purpose: *purpose,
                record: record@,
            },
            Action::Notify(notice) => ActionView::Notify(notice@),
            Action::Quit => ActionView::Quit,
        }
    }
}

/// The actions in a vector, as mathematical values.
pub open spec fn action_views(actions: Seq<Action>) -> Seq<ActionView> {
    actions.map_values(|action: Action| action@)
}

/// One login attempt: its listener and the time at which it began. The
/// listener's state tells how far the attempt has come. An attempt exists
/// only while its outcome is open; how it ended is what the user interface
/// is told.
#[derive(Debug)]
pub struct FlowAttempt {
    listener: CallbackListener,
    started_at: u64,
}

/// A [`FlowAttempt`] as a mathematical value.
pub struct AttemptView {
    pub listener: ListenerView,
    pub started_at: u64,
}

impl View for FlowAttempt {
    type V = AttemptView;

    closed spec fn view(&self) -> AttemptView {
        AttemptView { listener: self.listener@, started_at: self.started_at }
    }
}

impl FlowAttempt {
    /// The attempt's listener.
    pub fn listener(&self) -> (listener: &CallbackListener)
        ensures
            listener@ == self@.listener,
    {
        &self.listener
    }

    /// The time at which the attempt began, in seconds on the driver's clock.
    pub fn started_at(&self) -> (at: u64)
        ensures
            at == self@.started_at,
    {
        self.started_at
    }
}

/// The coordinator: the attempt that is pending, if one is, and the time
/// that an attempt may wait for its callback.
#[derive(Debug)]
pub struct FlowCoordinator {
    attempt: Option<FlowAttempt>,
    timeout_secs: u64,
}

/// A [`FlowCoordinator`] as a mathematical value.
pub struct FlowView {
    pub attempt: Option<AttemptView>,
    pub timeout_secs: u64,
}

impl View for FlowCoordinator {
    type V = FlowView;

    closed spec fn view(&self) -> FlowView {
        FlowView {
            attempt: match self.attempt {
                Some(attempt) => Some(attempt@),
                None => None,
            },
            timeout_secs: self.timeout_secs,
        }
    }
}

impl FlowView {
    /// A coordinator without a pending attempt.
    pub open spec fn new(timeout_secs: u64) -> FlowView {
        FlowView { attempt: None, timeout_secs }
    }

    /// The same coordinator with no attempt pending.
    pub open spec fn idle(self) -> FlowView {
        FlowView { attempt: None, ..self }
    }

    /// The same coordinator with its attempt's listener replaced.
    pub open spec fn with_listener(self, listener: ListenerView) -> FlowView {
        match self.attempt {
            Some(attempt) => FlowView {
                attempt: Some(AttemptView { listener, ..attempt }),
                ..self
            },
            None => self,
        }
    }

    /// Whether the pending attempt's listener is in `state`.
    pub open spec fn listener_is(self, state: ListenerState) -> bool {
        self.attempt matches Some(attempt) && attempt.listener.state == state
    }

    /// Whether a listener of this coordinator has, or may still get, the
    /// address.
    pub open spec fn holds_address(self) -> bool {
        self.attempt matches Some(attempt) && attempt.listener.holds_address()
    }

    /// Whether an attempt that began at `started_at` has waited out its time
    /// at `now`.
    pub open spec fn expired(self, started_at: u64, now: u64) -> bool {
        waited(started_at, now) >= self.timeout_secs
    }

    /// Every listener of the coordinator is one for the registered redirect
    /// URI.
    pub open spec fn wf(self) -> bool {
        self.attempt matches Some(attempt) ==> attempt.listener.address == redirect_address()
            && attempt.listener.path == redirect_path()
    }

    /// `StopListener` where a listener holds the address, nothing otherwise.
    pub open spec fn release(self) -> Seq<ActionView> {
        if self.holds_address() {
            seq![ActionView::StopListener]
        } else {
            Seq::empty()
        }
    }

    /// The end of an attempt that failed with `error`: the listener is
    /// stopped, the user interface is told, nothing is saved.
    pub open spec fn fail(self, error: AuthErrorView) -> (FlowView, Seq<ActionView>) {
        (
            self.idle(),
            seq![ActionView::StopListener, ActionView::Notify(NoticeView::LoginFailed(error))],
        )
    }

    /// A request to log in starts an attempt, unless one is pending: then it
    /// is refused and nothing else happens.
    pub open spec fn on_login_requested(self, now: u64) -> (FlowView, Seq<ActionView>) {
        if self.attempt is Some {
            (
                self,
                seq![
                    ActionView::Notify(NoticeView::LoginFailed(AuthErrorView::AlreadyInProgress)),
                ],
            )
        } else {
            (
                FlowView {
                    attempt: Some(
                        AttemptView {
                            listener: ListenerView::start(redirect_address(), redirect_path()),
                            started_at: now,
                        },
                    ),
                    ..self
                },
                seq![
                    ActionView::StartListener {
                        address: redirect_address(),
                        path: redirect_path(),
                    },
                ],
            )
        }
    }

    /// Once the listener is bound, the authorization URL is asked for. An
    /// address that cannot be bound ends the attempt.
    pub open spec fn on_listener(self, ok: bool) -> (FlowView, Seq<ActionView>) {
        if self.listener_is(ListenerState::Starting) {
            if ok {
                (
                    self.with_listener(self.attempt->0.listener.bound(true)),
                    seq![ActionView::BuildAuthorizationUrl],
                )
            } else {
                (
                    self.idle(),
                    seq![ActionView::Notify(NoticeView::LoginFailed(AuthErrorView::BindError))],
                )
            }
        } else {
            (self, Seq::empty())
        }
    }

    /// The authorization URL goes to the browser while the attempt waits for
    /// its callback.
    pub open spec fn on_authorization_url(self, url: Seq<char>) -> (FlowView, Seq<ActionView>) {
        if self.listener_is(ListenerState::Accepting) {
            (self, seq![ActionView::OpenBrowser { url }])
        } else {
            (self, Seq::empty())
        }
    }

    /// What the callback leads to. An `error` ends the attempt, whatever
    /// else the callback carries; a `code` is sent to be exchanged; a
    /// callback with neither ends the attempt as one that was denied without
    /// a reason.
    pub open spec fn on_callback(self, listener: ListenerView, callback: CallbackRequestView) -> (
        FlowView,
        Seq<ActionView>,
    ) {
        match callback.error {
            Some(error) => (
                self.idle(),
                seq![
                    ActionView::Reply(Reply::Accepted),
                    ActionView::StopListener,
                    ActionView::Notify(
                        NoticeView::LoginFailed(AuthErrorView::ProviderDenied(error)),
                    ),
                ],
            ),
            None => match callback.code {
                Some(code) => (
                    self.with_listener(listener),
                    seq![ActionView::Reply(Reply::Accepted), ActionView::Exchange { code }],
                ),
                None => (
                    self.idle(),
                    seq![
                        ActionView::Reply(Reply::Accepted),
                        ActionView::StopListener,
                        ActionView::Notify(
                            NoticeView::LoginFailed(AuthErrorView::ProviderDenied(Seq::empty())),
                        ),
                    ],
                ),
            },
        }
    }

    /// Every request is answered. The listener of the pending attempt says
    /// whether it is the callback; a request that is not changes nothing.
    pub open spec fn on_request(self, method: Seq<char>, target: Seq<char>) -> (
        FlowView,
        Seq<ActionView>,
    ) {
        match self.attempt {
            Some(attempt) => {
                let (listener, delivered) = attempt.listener.accept(method, target);
                match delivered {
                    Some(callback) => self.on_callback(listener, callback),
                    None => (self, seq![ActionView::Reply(Reply::Acknowledged)]),
                }
            },
            None => (self, seq![ActionView::Reply(Reply::Acknowledged)]),
        }
    }

    /// An attempt that has waited for its callback for the whole of its time
    /// ends with `Timeout`. The clock does nothing else.
    pub open spec fn on_tick(self, now: u64) -> (FlowView, Seq<ActionView>) {
        if self.listener_is(ListenerState::Accepting) && self.expired(
            self.attempt->0.started_at,
            now,
        ) {
            self.fail(AuthErrorView::Timeout)
        } else {
            (self, Seq::empty())
        }
    }

    /// The answer to the exchange. A token with an access token is saved as
    /// the record of a live session, after the listener was stopped; a
    /// failure, or a token without an access token, ends the attempt. An
    /// answer that no attempt waits for is dropped.
    pub open spec fn on_exchanged(self, result: Result<TokenView, Seq<char>>) -> (
        FlowView,
        Seq<ActionView>,
    ) {
        if self.listener_is(ListenerState::Delivered) {
            match result {
                Ok(token) => if token.access_token.len() > 0 {
                    (
                        self.with_listener(self.attempt->0.listener.stop()),
                        seq![
                            ActionView::StopListener,
                            ActionView::Save {
                                purpose: SavePurpose::Login,
                                record: ResponseView::logged_in(token),
                            },
                        ],
                    )
                } else {
                    self.fail(AuthErrorView::ExchangeFailed(no_access_token()))
                },
                Err(reason) => self.fail(AuthErrorView::ExchangeFailed(reason)),
            }
        } else {
            (self, Seq::empty())
        }
    }

    /// The answer to a save. That of a login ends the attempt that waits for
    /// it, with success or with the store's error; that of a logout is
    /// passed on.
    pub open spec fn on_saved(self, purpose: SavePurpose, result: Result<(), Seq<char>>) -> (
        FlowView,
        Seq<ActionView>,
    ) {
        match purpose {
            SavePurpose::Login => if self.listener_is(ListenerState::Stopped) {
                (
                    self.idle(),
                    seq![
                        ActionView::Notify(
                            match result {
                                Ok(_) => NoticeView::LoginCompleted,
                                Err(error) => NoticeView::LoginFailed(AuthErrorView::StoreError(error)),
                            },
                        ),
                    ],
                )
            } else {
                (self, Seq::empty())
            },
            SavePurpose::Logout => (
                self,
                seq![
                    ActionView::Notify(
                        match result {
                            Ok(_) => NoticeView::LogoutCompleted,
                            Err(error) => NoticeView::LogoutFailed(error),
                        },
                    ),
                ],
            ),
        }
    }

    /// A logout gives up the pending attempt, if there is one, and puts the
    /// record of a closed session in the store.
    pub open spec fn on_logout_requested(self) -> (FlowView, Seq<ActionView>) {
        (
            self.idle(),
            self.release() + seq![
                ActionView::Save {
                    purpose: SavePurpose::Logout,
                    record: ResponseView::logged_out(),
                },
            ],
        )
    }

    /// Closing the program gives up the pending attempt, if there is one.
    pub open spec fn on_shutdown(self) -> (FlowView, Seq<ActionView>) {
        (self.idle(), self.release() + seq![ActionView::Quit])
    }

    /// The coordinator after `event`, and the actions it asks for, in order.
    pub open spec fn step(self, event: EventView) -> (FlowView, Seq<ActionView>) {
        match event {
            EventView::LoginRequested { now } => self.on_login_requested(now),
            EventView::ListenerBound => self.on_listener(true),
            EventView::ListenerFailed => self.on_listener(false),
            EventView::AuthorizationUrl(url) => self.on_authorization_url(url),
            EventView::Request { method, target } => self.on_request(method, target),
            EventView::Tick { now } => self.on_tick(now),
            EventView::Exchanged(result) => self.on_exchanged(result),
            EventView::Saved { purpose, result } => self.on_saved(purpose, result),
            EventView::LogoutRequested => self.on_logout_requested(),
            EventView::Shutdown => self.on_shutdown(),
        }
    }
}

/// The address on which the listener waits.
fn listen_address() -> (address: String)
    ensures
        address@ == redirect_address(),
{
    String::from_str("127.0.0.1:8088")
}

/// The path for which the listener waits.
fn listen_path() -> (path: String)
    ensures
        path@ == redirect_path(),
{
    String::from_str("/success")
}

/// The redirect URI to hand to the authorization client.
pub fn redirect_uri() -> (uri: String)
    ensures
        uri@ == redirect_uri_text(),
{
    String::from_str("http://").concat(listen_address().as_str()).concat(listen_path().as_str())
}

/// The scopes to hand to the authorization client.
pub fn requested_scopes() -> (scopes: ScopeSet)
    ensures
        scopes@ == set![requested_scope()],
{
    let mut scopes = ScopeSet::new();
    scopes.insert(String::from_str("user-read-recently-played"));
    scopes
}

/// The two actions that end a failed attempt.
fn failure(error: AuthError) -> (actions: Vec<Action>)
    ensures
        action_views(actions@) == seq![
            ActionView::StopListener,
            ActionView::Notify(NoticeView::LoginFailed(error@)),
        ],
{
    let mut actions: Vec<Action> = Vec::new();
    actions.push(Action::StopListener);
    actions.push(Action::Notify(Notice::LoginFailed(error)));
    assert(action_views(actions@) =~= seq![
        ActionView::StopListener,
        ActionView::Notify(NoticeView::LoginFailed(error@)),
    ]);
    actions
}

/// The three actions that end an attempt whose callback granted no code.
fn denial(reason: String) -> (actions: Vec<Action>)
    ensures
        action_views(actions@) == seq![
            ActionView::Reply(Reply::Accepted),
            ActionView::StopListener,
            ActionView::Notify(NoticeView::LoginFailed(AuthErrorView::ProviderDenied(reason@))),
        ],
{
    let mut actions: Vec<Action> = Vec::new();
    actions.push(Action::Reply(Reply::Accepted));
    actions.push(Action::StopListener);
    actions.push(Action::Notify(Notice::LoginFailed(AuthError::ProviderDenied(reason))));
    assert(action_views(actions@) =~= seq![
        ActionView::Reply(Reply::Accepted),
        ActionView::StopListener,
        ActionView::Notify(NoticeView::LoginFailed(AuthErrorView::ProviderDenied(reason@))),
    ]);
    actions
}

/// A single action.
fn only(action: Action) -> (actions: Vec<Action>)
    ensures
        action_views(actions@) == seq![action@],
{
    let mut actions: Vec<Action> = Vec::new();
    actions.push(action);
    actions
}

/// No action.
fn nothing() -> (actions: Vec<Action>)
    ensures
        action_views(actions@) == Seq::<ActionView>::empty(),
{
    let actions: Vec<Action> = Vec::new();
    actions
}

impl FlowCoordinator {
    /// A coordinator whose attempts wait `DEFAULT_TIMEOUT_SECS` for their
    /// callback.
    pub fn new() -> (coordinator: Self)
        ensures
            coordinator@ == FlowView::new(DEFAULT_TIMEOUT_SECS),
            coordinator@.wf(),
    {
        FlowCoordinator { attempt: None, timeout_secs: DEFAULT_TIMEOUT_SECS }
    }

    /// A coordinator whose attempts wait `timeout_secs` for their callback.
    pub fn with_timeout(timeout_secs: u64) -> (coordinator: Self)
        ensures
            coordinator@ == FlowView::new(timeout_secs),
            coordinator@.wf(),
    {
        FlowCoordinator { attempt: None, timeout_secs }
    }

    /// Whether an attempt is pending.
    pub fn is_pending(&self) -> (pending: bool)
        ensures
            pending == (self@.attempt is Some),
    {
        self.attempt.is_some()
    }

    /// The pending attempt.
    pub fn attempt(&self) -> (attempt: Option<&FlowAttempt>)
        ensures
            match attempt {
                Some(a) => self@.attempt == Some(a@),
                None => self@.attempt is None,
            },
    {
        self.attempt.as_ref()
    }

    /// The seconds that an attempt may wait for its callback.
    pub fn timeout_secs(&self) -> (secs: u64)
        ensures
            secs == self@.timeout_secs,
    {
        self.timeout_secs
    }

    /// The seconds that the pending attempt may still wait for its callback
    /// at `now`; nothing where no attempt waits for one. No seconds are left
    /// exactly when a tick at `now` would end the attempt.
    pub fn seconds_left(&self, now: u64) -> (left: Option<u64>)
        ensures
            left is Some == self@.listener_is(ListenerState::Accepting),
            left matches Some(secs) ==> {
                let waited = waited(self@.attempt->0.started_at, now);
                &&& secs == if waited >= self@.timeout_secs {
                    0
                } else {
                    self@.timeout_secs - waited
                }
                &&& secs == 0 <==> self@.expired(self@.attempt->0.started_at, now)
            },
    {
        match &self.attempt {
            Some(attempt) => {
                if attempt.listener.state() == ListenerState::Accepting {
                    let waited = if now >= attempt.started_at {
                        now - attempt.started_at
                    } else {
                        0
                    };
                    if waited >= self.timeout_secs {
                        Some(0)
                    } else {
                        Some(self.timeout_secs - waited)
                    }
                } else {
                    None
                }
            },
            None => None,
        }
    }

    /// Whether the pending attempt's listener is in `state`.
    fn is_in(&self, state: ListenerState) -> (yes: bool)
        ensures
            yes == self@.listener_is(state),
    {
        match &self.attempt {
            Some(attempt) => attempt.listener.state() == state,
            None => false,
        }
    }

    /// The stop of the listener, where one holds the address.
    fn release(&self) -> (actions: Vec<Action>)
        ensures
            action_views(actions@) == self@.release(),
    {
        let holds = match &self.attempt {
            Some(attempt) => attempt.listener.state() != ListenerState::Stopped,
            None => false,
        };
        if holds {
            only(Action::StopListener)
        } else {
            nothing()
        }
    }

    /// Answers a request to log in.
    fn on_login_requested(&mut self, now: u64) -> (actions: Vec<Action>)
        ensures
            (final(self)@, action_views(actions@)) == old(self)@.on_login_requested(now),
    {
        if self.attempt.is_some() {
            only(Action::Notify(Notice::LoginFailed(AuthError::AlreadyInProgress)))
        } else {
            let listener = CallbackListener::start(listen_address(), listen_path());
            self.attempt = Some(FlowAttempt { listener, started_at: now });
            only(Action::StartListener { address: listen_address(), path: listen_path() })
        }
    }

    /// Answers the outcome of binding the listener.
    fn on_listener(&mut self, ok: bool) -> (actions: Vec<Action>)
        ensures
            (final(self)@, action_views(actions@)) == old(self)@.on_listener(ok),
    {
        if self.is_in(ListenerState::Starting) {
            if ok {
                let mut attempt = self.attempt.take().unwrap();
                attempt.listener.bound(true);
                self.attempt = Some(attempt);
                only(Action::BuildAuthorizationUrl)
            } else {
                self.attempt = None;
                only(Action::Notify(Notice::LoginFailed(AuthError::BindError)))
            }
        } else {
            nothing()
        }
    }

    /// Answers the authorization URL.
    fn on_authorization_url(&mut self, url: String) -> (actions: Vec<Action>)
        ensures
            (final(self)@, action_views(actions@)) == old(self)@.on_authorization_url(url@),
    {
        if self.is_in(ListenerState::Accepting) {
            only(Action::OpenBrowser { url })
        } else {
            nothing()
        }
    }

    /// Answers a request that came in on the listener.
    fn on_request(&mut self, method: String, target: String) -> (actions: Vec<Action>)
        ensures
            (final(self)@, action_views(actions@)) == old(self)@.on_request(method@, target@),
    {
        match self.attempt.take() {
            Some(attempt) => {
                let mut attempt = attempt;
                match attempt.listener.accept(method.as_str(), target.as_str()) {
                    Some(callback) => {
                        let CallbackRequest { code, error, raw_query: _ } = callback;
                        match error {
                            Some(error) => denial(error),
                            None => match code {
                                Some(code) => {
                                    self.attempt = Some(attempt);
                                    let mut actions: Vec<Action> = Vec::new();
                                    actions.push(Action::Reply(Reply::Accepted));
                                    actions.push(Action::Exchange { code });
                                    assert(action_views(actions@) =~= seq![
                                        ActionView::Reply(Reply::Accepted),
                                        ActionView::Exchange { code: code@ },
                                    ]);
                                    actions
                                },
                                None => denial(String::new()),
                            },
                        }
                    },
                    None => {
                        self.attempt = Some(attempt);
                        only(Action::Reply(Reply::Acknowledged))
                    },
                }
            },
            None => only(Action::Reply(Reply::Acknowledged)),
        }
    }

    /// Answers the passing of time.
    fn on_tick(&mut self, now: u64) -> (actions: Vec<Action>)
        ensures
            (final(self)@, action_views(actions@)) == old(self)@.on_tick(now),
    {
        let expired = match &self.attempt {
            Some(attempt) => {
                let waited = if now >= attempt.started_at {
                    now - attempt.started_at
                } else {
                    0
                };
                attempt.listener.state() == ListenerState::Accepting && waited
                    >= self.timeout_secs
            },
            None => false,
        };
        if expired {
            self.attempt = None;
            failure(AuthError::Timeout)
        } else {
            nothing()
        }
    }

    /// Answers the outcome of the exchange.
    fn on_exchanged(&mut self, result: Result<Token, String>) -> (actions: Vec<Action>)
        ensures
            (final(self)@, action_views(actions@)) == old(self)@.on_exchanged(
                match result {
                    Ok(token) => Ok(token@),
                    Err(reason) => Err(reason@),
                },
            ),
    {
        if self.is_in(ListenerState::Delivered) {
            let mut attempt = self.attempt.take().unwrap();
            match result {
                Ok(token) => match Response::logged_in(token) {
                    Some(record) => {
                        attempt.listener.stop();
                        self.attempt = Some(attempt);
                        let mut actions: Vec<Action> = Vec::new();
                        actions.push(Action::StopListener);
                        actions.push(Action::Save { purpose: SavePurpose::Login, record });
                        assert(action_views(actions@) =~= seq![
                            ActionView::StopListener,
                            ActionView::Save { purpose: SavePurpose::Login, record: record@ },
                        ]);
                        actions
                    },
                    None => failure(
                        AuthError::ExchangeFailed(
                            String::from_str("the provider returned no access token"),
                        ),
                    ),
                },
                Err(reason) => failure(AuthError::ExchangeFailed(reason)),
            }
        } else {
            nothing()
        }
    }

    /// Answers the outcome of a save.
    fn on_saved(&mut self, purpose: SavePurpose, result: Result<(), StoreError>) -> (actions: Vec<
        Action,
    >)
        ensures
            (final(self)@, action_views(actions@)) == old(self)@.on_saved(
                purpose,
                match result {
                    Ok(_) => Ok(()),
                    Err(error) => Err(error@),
                },
            ),
    {
        match purpose {
            SavePurpose::Login => {
                if self.is_in(ListenerState::Stopped) {
                    self.attempt = None;
                    match result {
                        Ok(_) => only(Action::Notify(Notice::LoginCompleted)),
                        Err(error) => only(
                            Action::Notify(Notice::LoginFailed(AuthError::StoreError(error))),
                        ),
                    }
                } else {
                    nothing()
                }
            },
            SavePurpose::Logout => match result {
                Ok(_) => only(Action::Notify(Notice::LogoutCompleted)),
                Err(error) => only(Action::Notify(Notice::LogoutFailed(error))),
            },
        }
    }

    /// Answers a request to log out.
    fn on_logout_requested(&mut self) -> (actions: Vec<Action>)
        ensures
            (final(self)@, action_views(actions@)) == old(self)@.on_logout_requested(),
    {
        let mut actions = self.release();
        let ghost released = action_views(actions@);
        self.attempt = None;
        let record = Response::logged_out();
        actions.push(Action::Save { purpose: SavePurpose::Logout, record });
        assert(action_views(actions@) =~= released + seq![
            ActionView::Save { purpose: SavePurpose::Logout, record: ResponseView::logged_out() },
        ]);
        actions
    }

    /// Answers the closing of the program.
    fn on_shutdown(&mut self) -> (actions: Vec<Action>)
        ensures
            (final(self)@, action_views(actions@)) == old(self)@.on_shutdown(),
    {
        let mut actions = self.release();
        self.attempt = None;
        actions.push(Action::Quit);
        actions
    }

    /// Takes one event and answers with the actions to perform, in order.
    /// The coordinator afterwards and the actions are exactly those of
    /// [`FlowView::step`].
    pub fn step(&mut self, event: Event) -> (actions: Vec<Action>)
        ensures
            (final(self)@, action_views(actions@)) == old(self)@.step(event@),
            old(self)@.wf() ==> final(self)@.wf(),
    {
        match event {
            Event::LoginRequested { now } => self.on_login_requested(now),
            Event::ListenerBound => self.on_listener(true),
            Event::ListenerFailed => self.on_listener(false),
            Event::AuthorizationUrl(url) => self.on_authorization_url(url),
            Event::Request { method, target } => self.on_request(method, target),
            Event::Tick { now } => self.on_tick(now),
            Event::Exchanged(result) => self.on_exchanged(result),
            Event::Saved { purpose, result } => self.on_saved(purpose, result),
            Event::LogoutRequested => self.on_logout_requested(),
            Event::Shutdown => self.on_shutdown(),
        }
    }
}

} // verus!
