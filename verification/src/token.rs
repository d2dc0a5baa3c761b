//! The token record and the values it is made of.

use vstd::prelude::*;

verus! {

/// Whether a record stands for a live session.
#[derive(Clone, Copy, Debug, PartialEq, Eq, Structural)]
pub enum AuthState {
    Yes,
    No,
}

impl Default for AuthState {
    fn default() -> (state: Self)
        ensures
            state == AuthState::No,
    {
        AuthState::No
    }
}

/// A length of time in whole seconds.
#[derive(Clone, Copy, Debug, PartialEq, Eq, Structural)]
pub struct DurationSecs(pub i64);

/// An instant on the UTC time line: whole seconds since the Unix epoch and
/// the nanoseconds into that second.
#[derive(Clone, Copy, Debug, PartialEq, Eq, Structural)]
pub struct Timestamp {
    pub secs: i64,
    pub nanos: u32,
}

/// The names held by a sequence of strings, in order.
pub open spec fn names(items: Seq<String>) -> Seq<Seq<char>> {
    items.map_values(|s: String| s@)
}

/// The scopes granted with a token: an unordered collection in which no name
/// occurs twice.
#[derive(Debug)]
pub struct ScopeSet {
    items: Vec<String>,
}

impl View for ScopeSet {
    type V = Set<Seq<char>>;

    closed spec fn view(&self) -> Set<Seq<char>> {
        names(self.items@).to_set()
    }
}

impl ScopeSet {
    #[verifier::type_invariant]
    spec fn unique(self) -> bool {
        names(self.items@).no_duplicates()
    }

    /// The set without any scope.
    pub fn new() -> (set: Self)
        ensures
            set@ == Set::<Seq<char>>::empty(),
    {
        ScopeSet { items: Vec::new() }
    }

    /// Whether `scope` is in the set.
    pub fn contains(&self, scope: &String) -> (found: bool)
        ensures
            found == self@.contains(scope@),
    {
        let mut i: usize = 0;
        while i < self.items.len()
            invariant
                i <= self.items.len(),
                forall|j: int| 0 <= j < i ==> names(self.items@)[j] != scope@,
            decreases self.items.len() - i,
        {
            if self.items[i] == *scope {
                assert(names(self.items@)[i as int] == scope@);
                return true;
            }
            i += 1;
        }
        false
    }

    /// Adds `scope`; a scope that is already there is not added again.
    pub fn insert(&mut self, scope: String) -> (added: bool)
        ensures
            final(self)@ == old(self)@.insert(scope@),
            added == !old(self)@.contains(scope@),
    {
        proof {
            use_type_invariant(&*self);
        }
        if self.contains(&scope) {
            false
        } else {
            let ghost before = names(self.items@);
            let mut items: Vec<String> = Vec::new();
            std::mem::swap(&mut self.items, &mut items);
            items.push(scope);
            proof {
                assert(names(items@) =~= before.push(scope@));
                before.lemma_push_to_set_commute(scope@);
            }
            std::mem::swap(&mut self.items, &mut items);
            true
        }
    }

    /// How many scopes the set holds.
    pub fn len(&self) -> (count: usize)
        ensures
            self@.finite(),
            count == self@.len(),
    {
        proof {
            use_type_invariant(self);
            names(self.items@).unique_seq_to_set();
        }
        self.items.len()
    }

    /// The set of the names in `scopes`; a name that occurs again is dropped.
    pub fn from_vec(scopes: Vec<String>) -> (set: Self)
        ensures
            set@ == names(scopes@).to_set(),
    {
        let mut set = ScopeSet::new();
        let mut i: usize = 0;
        while i < scopes.len()
            invariant
                i <= scopes.len(),
                set@ == names(scopes@).subrange(0, i as int).to_set(),
            decreases scopes.len() - i,
        {
            let scope = scopes[i].clone();
            proof {
                let prefix = names(scopes@).subrange(0, i as int);
                assert(names(scopes@).subrange(0, i + 1) =~= prefix.push(scope@));
                prefix.lemma_push_to_set_commute(scope@);
            }
            set.insert(scope);
            i += 1;
        }
        assert(names(scopes@).subrange(0, scopes@.len() as int) =~= names(scopes@));
        set
    }

    /// The scopes, each once, in the order in which they were added.
    pub fn to_vec(&self) -> (scopes: Vec<String>)
        ensures
            names(scopes@).no_duplicates(),
            names(scopes@).to_set() == self@,
    {
        proof {
            use_type_invariant(self);
        }
        let mut scopes: Vec<String> = Vec::new();
        let mut i: usize = 0;
        while i < self.items.len()
            invariant
                i <= self.items.len(),
                names(scopes@) == names(self.items@).subrange(0, i as int),
            decreases self.items.len() - i,
        {
            let ghost before = names(scopes@);
            let scope = self.items[i].clone();
            scopes.push(scope);
            assert(names(scopes@) =~= before.push(names(self.items@)[i as int]));
            i += 1;
        }
        assert(names(scopes@) =~= names(self.items@));
        scopes
    }
}

impl Clone for ScopeSet {
    fn clone(&self) -> (copy: Self)
        ensures
            copy@ == self@,
    {
        proof {
            use_type_invariant(self);
        }
        ScopeSet { items: self.to_vec() }
    }
}

/// The text of an optional string.
pub open spec fn text(value: Option<String>) -> Option<Seq<char>> {
    match value {
        Some(s) => Some(s@),
        None => None,
    }
}

/// What the provider hands out when a code is exchanged.
#[derive(Debug)]
pub struct Token {
    pub access_token: String,
    pub expires_in: DurationSecs,
    pub expires_at: Option<Timestamp>,
    pub refresh_token: Option<String>,
    pub scopes: ScopeSet,
}

/// A [`Token`] as a mathematical value.
pub struct TokenView {
    pub access_token: Seq<char>,
    pub expires_in: DurationSecs,
    pub expires_at: Option<Timestamp>,
    pub refresh_token: Option<Seq<char>>,
    pub scopes: Set<Seq<char>>,
}

impl View for Token {
    type V = TokenView;

    open spec fn view(&self) -> TokenView {
        TokenView {
            access_token: self.access_token@,
            expires_in: self.expires_in,
            expires_at: self.expires_at,
            refresh_token: text(self.refresh_token),
            scopes: self.scopes@,
        }
    }
}

/// A [`Response`] as a mathematical value.
pub struct ResponseView {
    pub access_token: Seq<char>,
    pub expires_in: DurationSecs,
    pub expires_at: Option<Timestamp>,
    pub refresh_token: Option<Seq<char>>,
    pub scopes: Set<Seq<char>>,
    pub logged: AuthState,
}

impl ResponseView {
    /// A record says "logged in" exactly when it carries an access token.
    pub open spec fn consistent(self) -> bool {
        self.logged == AuthState::Yes <==> self.access_token.len() > 0
    }

    /// The record of a session opened with `token`: every field of the token
    /// as it came, marked as logged in.
    pub open spec fn logged_in(token: TokenView) -> ResponseView {
        ResponseView {
            access_token: token.access_token,
            expires_in: token.expires_in,
            expires_at: token.expires_at,
            refresh_token: token.refresh_token,
            scopes: token.scopes,
            logged: AuthState::Yes,
        }
    }

    /// The record of a closed session: no token, nothing granted.
    pub open spec fn logged_out() -> ResponseView {
        ResponseView {
            access_token: Seq::empty(),
            expires_in: DurationSecs(0),
            expires_at: None,
            refresh_token: None,
            scopes: Set::empty(),
            logged: AuthState::No,
        }
    }
}

/// The token record that is kept between runs.
#[derive(Debug)]
pub struct Response {
    access_token: String,
    expires_in: DurationSecs,
    expires_at: Option<Timestamp>,
    refresh_token: Option<String>,
    scopes: ScopeSet,
    logged: AuthState,
}

impl View for Response {
    type V = ResponseView;

    closed spec fn view(&self) -> ResponseView {
        ResponseView {
            access_token: self.access_token@,
            expires_in: self.expires_in,
            expires_at: self.expires_at,
            refresh_token: text(self.refresh_token),
            scopes: self.scopes@,
            logged: self.logged,
        }
    }
}

impl Response {
    #[verifier::type_invariant]
    spec fn sound(self) -> bool {
        self@.consistent()
    }

    /// The record for `token`, or nothing where the token has no access
    /// token: such a token opens no session.
    pub fn logged_in(token: Token) -> (record: Option<Self>)
        ensures
            match record {
                Some(r) => token@.access_token.len() > 0 && r@ == ResponseView::logged_in(token@),
                None => token@.access_token.len() == 0,
            },
    {
        if token.access_token.as_str().is_empty() {
            None
        } else {
            Some(
                Response {
                    access_token: token.access_token,
                    expires_in: token.expires_in,
                    expires_at: token.expires_at,
                    refresh_token: token.refresh_token,
                    scopes: token.scopes,
                    logged: AuthState::Yes,
                },
            )
        }
    }

    /// The record that takes the place of a session that was closed.
    pub fn logged_out() -> (record: Self)
        ensures
            record@ == ResponseView::logged_out(),
    {
        Response {
            access_token: String::new(),
            expires_in: DurationSecs(0),
            expires_at: None,
            refresh_token: None,
            scopes: ScopeSet::new(),
            logged: AuthState::No,
        }
    }

    /// A record made of the given fields, or nothing where they contradict
    /// each other: "logged in" without an access token, or an access token
    /// without "logged in".
    pub fn from_parts(
        access_token: String,
        expires_in: DurationSecs,
        expires_at: Option<Timestamp>,
        refresh_token: Option<String>,
        scopes: ScopeSet,
        logged: AuthState,
    ) -> (record: Option<Self>)
        ensures
            match record {
                Some(r) => r@ == (ResponseView {
                    access_token: access_token@,
                    expires_in,
                    expires_at,
                    refresh_token: text(refresh_token),
                    scopes: scopes@,
                    logged,
                }) && r@.consistent(),
                None => !(logged == AuthState::Yes <==> access_token@.len() > 0),
            },
    {
        let has_token = !access_token.as_str().is_empty();
        let says_yes = logged == AuthState::Yes;
        if has_token == says_yes {
            Some(Response { access_token, expires_in, expires_at, refresh_token, scopes, logged })
        } else {
            None
        }
    }

    /// Whether the record stands for a live session; it does exactly when
    /// it carries an access token.
    pub fn is_logged_in(&self) -> (yes: bool)
        ensures
            yes == (self@.logged == AuthState::Yes),
            yes == (self@.access_token.len() > 0),
            self@.consistent(),
    {
        proof {
            use_type_invariant(self);
        }
        self.logged == AuthState::Yes
    }

    /// The access token; empty in the record of a closed session.
    pub fn access_token(&self) -> (value: &String)
        ensures
            value@ == self@.access_token,
    {
        &self.access_token
    }

    /// The time for which the access token is valid, counted from its issue.
    pub fn expires_in(&self) -> (value: DurationSecs)
        ensures
            value == self@.expires_in,
    {
        self.expires_in
    }

    /// The instant at which the access token expires, where the provider gave one.
    pub fn expires_at(&self) -> (value: Option<Timestamp>)
        ensures
            value == self@.expires_at,
    {
        self.expires_at
    }

    /// The token to renew the access token with, where the provider gave one.
    pub fn refresh_token(&self) -> (value: &Option<String>)
        ensures
            text(*value) == self@.refresh_token,
    {
        &self.refresh_token
    }

    /// The scopes that were granted.
    pub fn scopes(&self) -> (value: &ScopeSet)
        ensures
            value@ == self@.scopes,
    {
        &self.scopes
    }

    /// Whether the record stands for a live session.
    pub fn logged(&self) -> (value: AuthState)
        ensures
            value == self@.logged,
    {
        self.logged
    }
}

impl Clone for Response {
    fn clone(&self) -> (copy: Self)
        ensures
            copy@ == self@,
    {
        proof {
            use_type_invariant(self);
        }
        let refresh_token = match &self.refresh_token {
            Some(value) => Some(value.clone()),
            None => None,
        };
        Response {
            access_token: self.access_token.clone(),
            expires_in: self.expires_in,
            expires_at: self.expires_at,
            refresh_token,
            scopes: self.scopes.clone(),
            logged: self.logged,
        }
    }
}

} // verus!
