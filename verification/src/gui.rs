//! The user interface's side of a login: what its messages ask of the
//! coordinator, and which button it offers.

use vstd::prelude::*;
use vstd::string::*;
use crate::flow::{
    action_views, Action, ActionView, AuthError, AuthErrorView, Event, EventView, FlowCoordinator,
    FlowView, Notice, NoticeView, DEFAULT_TIMEOUT_SECS,
};
use crate::store::{is_logged_in, loaded_view, session_is_live, SpaceConfig, StoreError};

verus! {

/// The buttons of the menu.
#[derive(Clone, Copy, Debug, PartialEq, Eq, Structural)]
pub enum Buttons {
    Login,
    Logout,
    Quit,
}

/// What the user interface's loop is told.
#[derive(Debug, PartialEq, Eq)]
pub enum AppMessage {
    /// A login attempt ended in a session.
    LoggedIn,
    /// A login attempt ended without one.
    LoginFailed(AuthError),
    /// The session was closed.
    LoggedOut,
    /// The record of the closed session could not be saved.
    LogoutFailed(StoreError),
    /// The user pressed a button.
    Clicked(Buttons),
}

/// An [`AppMessage`] as a mathematical value.
pub enum AppMessageView {
    LoggedIn,
    LoginFailed(AuthErrorView),
    LoggedOut,
    LogoutFailed(Seq<char>),
    Clicked(Buttons),
}

impl View for AppMessage {
    type V = AppMessageView;

    open spec fn view(&self) -> AppMessageView {
        match self {
            AppMessage::LoggedIn => AppMessageView::LoggedIn,
            AppMessage::LoginFailed(error) => AppMessageView::LoginFailed(error@),
            AppMessage::LoggedOut => AppMessageView::LoggedOut,
            AppMessage::LogoutFailed(error) => AppMessageView::LogoutFailed(error@),
            AppMessage::Clicked(button) => AppMessageView::Clicked(*button),
        }
    }
}

/// The message that tells the user interface of `notice`.
pub open spec fn message_of(notice: NoticeView) -> AppMessageView {
    match notice {
        NoticeView::LoginCompleted => AppMessageView::LoggedIn,
        NoticeView::LoginFailed(error) => AppMessageView::LoginFailed(error),
        NoticeView::LogoutCompleted => AppMessageView::LoggedOut,
        NoticeView::LogoutFailed(error) => AppMessageView::LogoutFailed(error),
    }
}

/// What a message asks of the coordinator at `now`. A button asks for what
/// it names; a message about something that already happened asks for
/// nothing.
pub open spec fn event_of(message: AppMessageView, now: u64) -> Option<EventView> {
    match message {
        AppMessageView::Clicked(Buttons::Login) => Some(EventView::LoginRequested { now }),
        AppMessageView::Clicked(Buttons::Logout) => Some(EventView::LogoutRequested),
        AppMessageView::Clicked(Buttons::Quit) => Some(EventView::Shutdown),
        _ => None,
    }
}

/// The coordinator after a message, and the actions it asks for.
pub open spec fn update_of(flow: FlowView, message: AppMessageView, now: u64) -> (
    FlowView,
    Seq<ActionView>,
) {
    match event_of(message, now) {
        Some(event) => flow.step(event),
        None => (flow, Seq::empty()),
    }
}

/// The button that the menu offers for the session: `Logout` while a load
/// of the store shows a live session, `Login` otherwise.
pub open spec fn button_for(live: bool) -> Buttons {
    if live {
        Buttons::Logout
    } else {
        Buttons::Login
    }
}

impl Buttons {
    /// The text on the button.
    pub fn label(&self) -> (label: String)
        ensures
            label@ == match *self {
                Buttons::Login => "login"@,
                Buttons::Logout => "logout"@,
                Buttons::Quit => "Quit"@,
            },
    {
        match self {
            Buttons::Login => String::from_str("login"),
            Buttons::Logout => String::from_str("logout"),
            Buttons::Quit => String::from_str("Quit"),
        }
    }
}

impl AppMessage {
    /// The message that tells the user interface of `notice`.
    pub fn from_notice(notice: Notice) -> (message: Self)
        ensures
            message@ == message_of(notice@),
    {
        match notice {
            Notice::LoginCompleted => AppMessage::LoggedIn,
            Notice::LoginFailed(error) => AppMessage::LoginFailed(error),
            Notice::LogoutCompleted => AppMessage::LoggedOut,
            Notice::LogoutFailed(error) => AppMessage::LogoutFailed(error),
        }
    }
}

/// The application: the state behind the window.
#[derive(Debug)]
pub struct SpaceSymphony {
    coordinator: FlowCoordinator,
}

impl View for SpaceSymphony {
    type V = FlowView;

    closed spec fn view(&self) -> FlowView {
        self.coordinator@
    }
}

impl SpaceSymphony {
    /// The application at its start: no login attempt is pending.
    pub fn new() -> (application: Self)
        ensures
            application@ == FlowView::new(DEFAULT_TIMEOUT_SECS),
            application@.wf(),
    {
        SpaceSymphony { coordinator: FlowCoordinator::new() }
    }

    /// The title of the window.
    pub fn title(&self) -> (title: String)
        ensures
            title@ == "Space Symphony"@,
    {
        String::from_str("Space Symphony")
    }

    /// The coordinator of the application's login attempts.
    pub fn coordinator(&self) -> (coordinator: &FlowCoordinator)
        ensures
            coordinator@ == self@,
    {
        &self.coordinator
    }

    /// Takes a message of the user interface at `now` and answers with the
    /// actions to perform.
    pub fn update(&mut self, message: AppMessage, now: u64) -> (actions: Vec<Action>)
        ensures
            (final(self)@, action_views(actions@)) == update_of(old(self)@, message@, now),
            old(self)@.wf() ==> final(self)@.wf(),
    {
        match message {
            AppMessage::Clicked(button) => match button {
                Buttons::Login => self.coordinator.step(Event::LoginRequested { now }),
                Buttons::Logout => self.coordinator.step(Event::LogoutRequested),
                Buttons::Quit => self.coordinator.step(Event::Shutdown),
            },
            _ => {
                let actions: Vec<Action> = Vec::new();
                actions
            },
        }
    }

    /// Takes an event from outside the user interface and answers with the
    /// actions to perform.
    pub fn handle(&mut self, event: Event) -> (actions: Vec<Action>)
        ensures
            (final(self)@, action_views(actions@)) == old(self)@.step(event@),
            old(self)@.wf() ==> final(self)@.wf(),
    {
        self.coordinator.step(event)
    }

    /// The session button to draw, from what a load of the store came back
    /// with.
    pub fn login_btn(&self, loaded: &Result<SpaceConfig, StoreError>) -> (button: Buttons)
        ensures
            button == button_for(session_is_live(loaded_view(*loaded))),
    {
        if is_logged_in(loaded) {
            Buttons::Logout
        } else {
            Buttons::Login
        }
    }
}

} // verus!
