//! A repository of users with records, enums with data, optional fields, a
//! typed error, a stateful object and an observer that the embedding side
//! implements.

use vstd::prelude::*;
use std::sync::Arc;
use crate::model::copy_opt_string;
use crate::text::{concat2, concat3};

verus! {

/// The role of a user.
#[derive(Debug)]
pub enum Role {
    Guest,
    Member,
    Admin,
}

impl Clone for Role {
    fn clone(&self) -> (r: Self)
        ensures
            r == *self,
    {
        match self {
            Role::Guest => Role::Guest,
            Role::Member => Role::Member,
            Role::Admin => Role::Admin,
        }
    }
}

/// A user of the repository.
#[derive(Debug)]
pub struct User {
    pub id: String,
    pub display_name: String,
    pub email: Option<String>,
    pub role: Role,
}

/// A user as text.
pub struct UserView {
    pub id: Seq<char>,
    pub display_name: Seq<char>,
    pub email: Option<Seq<char>>,
    pub role: Role,
}

impl View for User {
    type V = UserView;

    open spec fn view(&self) -> UserView {
        UserView {
            id: self.id@,
            display_name: self.display_name@,
            email: self.email.deep_view(),
            role: self.role,
        }
    }
}

impl Clone for User {
    fn clone(&self) -> (r: Self)
        ensures
            r@ == self@,
    {
        User {
            id: self.id.clone(),
            display_name: self.display_name.clone(),
            email: copy_opt_string(&self.email),
            role: self.role.clone(),
        }
    }
}

/// Session lifecycle.
#[derive(Debug)]
pub enum SessionState {
    LoggedOut,
    Active { user: User, token: String },
    Expired { since_epoch_secs: u64 },
}

/// A session as text.
pub enum SessionView {
    LoggedOut,
    Active { user: UserView, token: Seq<char> },
    Expired { since_epoch_secs: u64 },
}

impl View for SessionState {
    type V = SessionView;

    open spec fn view(&self) -> SessionView {
        match self {
            SessionState::LoggedOut => SessionView::LoggedOut,
            SessionState::Active { user, token } => SessionView::Active { user: user@, token: token@ },
            SessionState::Expired { since_epoch_secs } => SessionView::Expired {
                since_epoch_secs: *since_epoch_secs,
            },
        }
    }
}

impl Clone for SessionState {
    fn clone(&self) -> (r: Self)
        ensures
            r@ == self@,
    {
        match self {
            SessionState::LoggedOut => SessionState::LoggedOut,
            SessionState::Active { user, token } => SessionState::Active {
                user: user.clone(),
                token: token.clone(),
            },
            SessionState::Expired { since_epoch_secs } => SessionState::Expired {
                since_epoch_secs: *since_epoch_secs,
            },
        }
    }
}

/// The errors of the repository.
#[derive(Debug)]
pub enum RepoError {
    NotFound { id: String },
    Network { reason: String },
}

/// An error as text.
pub enum RepoErrorView {
    NotFound { id: Seq<char> },
    Network { reason: Seq<char> },
}

impl View for RepoError {
    type V = RepoErrorView;

    open spec fn view(&self) -> RepoErrorView {
        match self {
            RepoError::NotFound { id } => RepoErrorView::NotFound { id: id@ },
            RepoError::Network { reason } => RepoErrorView::Network { reason: reason@ },
        }
    }
}

/// The text by which an error describes itself.
pub open spec fn repo_error_text(e: RepoErrorView) -> Seq<char> {
    match e {
        RepoErrorView::NotFound { id } => "user "@ + id + " not found"@,
        RepoErrorView::Network { reason } => "network failed: "@ + reason,
    }
}

impl RepoError {
    /// The human-readable description of the error.
    pub fn message(&self) -> (r: String)
        ensures
            r@ == repo_error_text(self@),
    {
        match self {
            RepoError::NotFound { id } => concat3("user ", id.as_str(), " not found"),
            RepoError::Network { reason } => concat2("network failed: ", reason.as_str()),
        }
    }
}

/// An observer, implemented by the embedding side, told of every new session.
pub trait SessionObserver: Send + Sync {
    fn on_session_changed(&self, state: SessionState);
}

/// The token that every session opened by a login carries.
pub const FAKE_TOKEN: &'static str = "fake-jwt-token";

/// The users that a new repository holds.
pub open spec fn seed_users() -> Seq<UserView> {
    seq![
        UserView {
            id: "u_1"@,
            display_name: "Ada Lovelace"@,
            email: Some("ada@example.com"@),
            role: Role::Admin,
        },
        UserView { id: "u_2"@, display_name: "Guest"@, email: None, role: Role::Guest },
    ]
}

/// The views of a list of users.
pub open spec fn users_view(us: Seq<User>) -> Seq<UserView> {
    us.map_values(|u: User| u@)
}

/// The position of the first user with id `id`, if there is one.
pub open spec fn first_with_id(users: Seq<UserView>, id: Seq<char>, i: int) -> bool {
    &&& 0 <= i < users.len()
    &&& users[i].id == id
    &&& forall|k: int| 0 <= k < i ==> users[k].id != id
}

/// Some user has id `id`.
pub open spec fn has_id(users: Seq<UserView>, id: Seq<char>) -> bool {
    exists|i: int| 0 <= i < users.len() && users[i].id == id
}

/// The state of a repository: its users and its session.
pub struct RepositoryView {
    pub users: Seq<UserView>,
    pub session: SessionView,
}

/// What a login gives back: its result, and the session to push to the
/// registered observer, when there is one to tell.
#[derive(Debug)]
pub struct LoginStep {
    pub result: Result<SessionState, RepoError>,
    pub notify: Option<SessionState>,
}

/// The repository of users and the current session.
pub struct UserRepository {
    users: Vec<User>,
    session: SessionState,
    observer: Option<Arc<dyn SessionObserver>>,
}

impl View for UserRepository {
    type V = RepositoryView;

    closed spec fn view(&self) -> RepositoryView {
        RepositoryView {
            users: users_view(self.users@),
            session: self.session@,
        }
    }
}

impl UserRepository {
    /// The observer that is registered, if any.
    pub closed spec fn held_observer(&self) -> Option<Arc<dyn SessionObserver>> {
        self.observer
    }

    /// A repository seeded with two users, nobody logged in, no observer.
    pub fn new() -> (r: Self)
        ensures
            r@.users == seed_users(),
            r@.session == SessionView::LoggedOut,
            r.held_observer() is None,
    {
        let ada = User {
            id: String::from_str("u_1"),
            display_name: String::from_str("Ada Lovelace"),
            email: Some(String::from_str("ada@example.com")),
            role: Role::Admin,
        };
        let guest = User {
            id: String::from_str("u_2"),
            display_name: String::from_str("Guest"),
            email: None,
            role: Role::Guest,
        };
        let mut users: Vec<User> = Vec::new();
        users.push(ada);
        users.push(guest);
        let r = UserRepository { users, session: SessionState::LoggedOut, observer: None };
        assert(r@.users =~= seed_users());
        r
    }

    /// All users, in order.
    pub fn all_users(&self) -> (r: Vec<User>)
        ensures
            users_view(r@) == self@.users,
    {
        let n = self.users.len();
        let mut r: Vec<User> = Vec::new();
        let mut i: usize = 0;
        while i < n
            invariant
                n == self.users@.len(),
                i <= n,
                r@.len() == i,
                forall|k: int| 0 <= k < i ==> #[trigger] r@[k]@ == self.users@[k]@,
            decreases n - i,
        {
            let u = self.users[i].clone();
            r.push(u);
            i = i + 1;
        }
        assert(users_view(r@) =~= users_view(self.users@));
        r
    }

    /// The first user with id `id`, or `NotFound` with that id.
    pub fn user(&self, id: String) -> (r: Result<User, RepoError>)
        ensures
            match r {
                Ok(u) => exists|i: int| first_with_id(self@.users, id@, i) && self@.users[i] == u@,
                Err(e) => !has_id(self@.users, id@) && e@ == (RepoErrorView::NotFound { id: id@ }),
            },
    {
        let n = self.users.len();
        let mut i: usize = 0;
        while i < n
            invariant
                n == self.users@.len(),
                i <= n,
                forall|k: int| 0 <= k < i ==> (#[trigger] self.users@[k]).id@ != id@,
            decreases n - i,
        {
            if self.users[i].id == id {
                let u = self.users[i].clone();
                assert(first_with_id(self@.users, id@, i as int));
                return Ok(u);
            }
            i = i + 1;
        }
        assert(!has_id(self@.users, id@)) by {
            if has_id(self@.users, id@) {
                let k = choose|k: int| 0 <= k < self@.users.len() && self@.users[k].id == id@;
                assert(self.users@[k]@ == self@.users[k]);
            }
        }
        Err(RepoError::NotFound { id })
    }

    /// Registers the observer of sessions, in place of any earlier one.
    pub fn set_observer(&mut self, observer: Arc<dyn SessionObserver>)
        ensures
            final(self)@ == old(self)@,
            final(self).held_observer() == Some(observer),
    {
        let held = Some(observer);
        self.observer = held;
    }

    /// The registered observer, if any.
    pub fn observer(&self) -> (r: &Option<Arc<dyn SessionObserver>>)
        ensures
            *r == self.held_observer(),
    {
        &self.observer
    }

    /// Logs the user with id `id` in: the session becomes active with that
    /// user, and the session is returned. When an observer is registered, the
    /// step also gives the new session to push to it, once, now that it is
    /// stored. An unknown id is `NotFound`; then nothing changes and nobody is
    /// to be told.
    pub fn fake_login(&mut self, id: String) -> (step: LoginStep)
        ensures
            final(self)@.users == old(self)@.users,
            final(self).held_observer() == old(self).held_observer(),
            match step.result {
                Ok(state) => exists|i: int|
                    first_with_id(old(self)@.users, id@, i) && state@ == (SessionView::Active {
                        user: old(self)@.users[i],
                        token: FAKE_TOKEN@,
                    }) && final(self)@.session == state@,
                Err(e) => !has_id(old(self)@.users, id@) && e@ == (RepoErrorView::NotFound {
                    id: id@,
                }) && final(self)@.session == old(self)@.session,
            },
            step.notify is Some <==> (step.result is Ok && old(self).held_observer() is Some),
            step.notify matches Some(n) ==> (step.result matches Ok(s) && n@ == s@),
    {
        let user = match self.user(id) {
            Ok(u) => u,
            Err(e) => return LoginStep { result: Err(e), notify: None },
        };
        let state = SessionState::Active { user, token: String::from_str(FAKE_TOKEN) };
        self.session = state.clone();
        let notify = match &self.observer {
            Some(_) => Some(state.clone()),
            None => None,
        };
        LoginStep { result: Ok(state), notify }
    }

    /// The current session.
    pub fn current_session(&self) -> (r: SessionState)
        ensures
            r@ == self@.session,
    {
        self.session.clone()
    }
}

/// A login with an id that a user of the repository has succeeds, and one with
/// any other id fails: `user` and `fake_login` agree on which ids exist.
pub proof fn lemma_known_ids(users: Seq<UserView>, id: Seq<char>)
    ensures
        has_id(users, id) <==> exists|i: int| first_with_id(users, id, i),
{
    if has_id(users, id) {
        let j = choose|j: int| 0 <= j < users.len() && users[j].id == id;
        lemma_first_exists(users, id, j);
    }
}

/// Where some user has the id, a first such user exists.
proof fn lemma_first_exists(users: Seq<UserView>, id: Seq<char>, j: int)
    requires
        0 <= j < users.len(),
        users[j].id == id,
    ensures
        exists|i: int| first_with_id(users, id, i),
    decreases j,
{
    if forall|k: int| 0 <= k < j ==> users[k].id != id {
        assert(first_with_id(users, id, j));
    } else {
        let k = choose|k: int| 0 <= k < j && users[k].id == id;
        lemma_first_exists(users, id, k);
    }
}

/// The first user with an id is unique: two positions that are both first
/// are one position.
pub proof fn lemma_first_unique(users: Seq<UserView>, id: Seq<char>, i: int, j: int)
    requires
        first_with_id(users, id, i),
        first_with_id(users, id, j),
    ensures
        i == j,
{
}

/// A new repository knows the ids `u_1` (Ada Lovelace, an admin) and `u_2`
/// (a guest), and no other.
pub proof fn lemma_seed_ids(id: Seq<char>)
    ensures
        has_id(seed_users(), id) <==> (id == "u_1"@ || id == "u_2"@),
{
    let s = seed_users();
    if id == "u_1"@ {
        assert(s[0].id == id);
    }
    if id == "u_2"@ {
        assert(s[1].id == id);
    }
}

} // verus!
