//! What the credential store holds, and the question the user interface
//! asks of it.

use vstd::prelude::*;
use vstd::string::*;
use crate::token::{AuthState, Response, ResponseView};

verus! {

/// The name under which the store is kept.
pub open spec fn app_id_text() -> Seq<char> {
    "space.symphony"@
}

/// The name under which the store is kept.
pub fn app_id() -> (id: String)
    ensures
        id@ == app_id_text(),
{
    String::from_str("space.symphony")
}

/// A failure of the storage below the store: permissions, the disk, the
/// encoding. It never stands for "not logged in".
#[derive(Debug, PartialEq, Eq)]
pub struct StoreError {
    pub reason: String,
}

impl View for StoreError {
    type V = Seq<char>;

    open spec fn view(&self) -> Seq<char> {
        self.reason@
    }
}

/// The content of the credential store: at most one token record.
#[derive(Debug)]
pub struct SpaceConfig {
    pub response: Option<Response>,
}

/// A [`SpaceConfig`] as a mathematical value.
pub struct SpaceConfigView {
    pub response: Option<ResponseView>,
}

impl View for SpaceConfig {
    type V = SpaceConfigView;

    open spec fn view(&self) -> SpaceConfigView {
        SpaceConfigView {
            response: match self.response {
                Some(record) => Some(record@),
                None => None,
            },
        }
    }
}

impl SpaceConfigView {
    /// The store in which nothing was ever saved.
    pub open spec fn empty() -> SpaceConfigView {
        SpaceConfigView { response: None }
    }

    /// The store after `record` was saved: the record takes the place of
    /// whatever was there, as a whole.
    pub open spec fn save(self, record: ResponseView) -> SpaceConfigView {
        SpaceConfigView { response: Some(record) }
    }

    /// What a load returns.
    pub open spec fn load(self) -> Option<ResponseView> {
        self.response
    }

    /// Whether the store holds the record of a live session.
    pub open spec fn is_logged_in(self) -> bool {
        self.response matches Some(record) && record.logged == AuthState::Yes
    }
}

/// What a load from the store came back with, as a mathematical value.
pub open spec fn loaded_view(loaded: Result<SpaceConfig, StoreError>) -> Result<
    SpaceConfigView,
    Seq<char>,
> {
    match loaded {
        Ok(config) => Ok(config@),
        Err(error) => Err(error@),
    }
}

/// Whether a load shows a live session. A load that failed shows none.
pub open spec fn session_is_live(loaded: Result<SpaceConfigView, Seq<char>>) -> bool {
    loaded matches Ok(config) && config.is_logged_in()
}

impl Default for SpaceConfig {
    fn default() -> (config: Self)
        ensures
            config@ == SpaceConfigView::empty(),
    {
        SpaceConfig { response: None }
    }
}

impl SpaceConfig {
    /// Puts `record` in the place of whatever the store held.
    pub fn save(&mut self, record: Response)
        ensures
            final(self)@ == old(self)@.save(record@),
    {
        self.response = Some(record);
    }

    /// A copy of the record in the store; nothing where none was ever saved.
    pub fn load(&self) -> (record: Option<Response>)
        ensures
            match record {
                Some(r) => self@.load() == Some(r@),
                None => self@.load() is None,
            },
    {
        match &self.response {
            Some(record) => Some(record.clone()),
            None => None,
        }
    }

    /// Whether the store holds the record of a live session.
    pub fn is_logged_in(&self) -> (yes: bool)
        ensures
            yes == self@.is_logged_in(),
    {
        match &self.response {
            Some(record) => record.is_logged_in(),
            None => false,
        }
    }
}

/// Answers "is the user logged in?" from what a load of the store came back
/// with. A failed load counts as "no".
pub fn is_logged_in(loaded: &Result<SpaceConfig, StoreError>) -> (yes: bool)
    ensures
        yes == session_is_live(loaded_view(*loaded)),
{
    match loaded {
        Ok(config) => config.is_logged_in(),
        Err(_) => false,
    }
}

/// A record that was saved is the record that a load returns, field for
/// field, whatever the store held before.
pub proof fn lemma_save_then_load(store: SpaceConfigView, record: ResponseView)
    ensures
        store.save(record).load() == Some(record),
        store.save(record).is_logged_in() == (record.logged == AuthState::Yes),
{
}

/// A store in which nothing was saved returns nothing, and shows no session.
pub proof fn lemma_empty_store()
    ensures
        SpaceConfigView::empty().load() is None,
        !SpaceConfigView::empty().is_logged_in(),
        !session_is_live(Ok(SpaceConfigView::empty())),
{
}

} // verus!
