//! The session repository: the app's single source of truth about the user.
//! Logging in fabricates a user from a display name; no auth server is involved.

use vstd::prelude::*;
use crate::model::{SessionState, SessionView, User, UserView};
use crate::text::{concat2, lowercase, replace_char, replaced, to_lowercase};

verus! {

/// The token that every fabricated session carries.
pub const FAKE_TOKEN: &'static str = "fake-jwt-token";

/// The mail domain of every fabricated address.
pub const EMAIL_DOMAIN: &'static str = "@example.com";

/// The prefix of every fabricated user id.
pub const USER_ID_PREFIX: &'static str = "u_";

/// The id fabricated for a display name: `u_`, then the lowercased name with
/// each space turned into `_`.
pub open spec fn user_id_for(display_name: Seq<char>) -> Seq<char> {
    USER_ID_PREFIX@ + replaced(lowercase(display_name), ' ', '_')
}

/// The address fabricated for a display name: the lowercased name with each
/// space turned into `.`, then `@example.com`.
pub open spec fn email_for(display_name: Seq<char>) -> Seq<char> {
    replaced(lowercase(display_name), ' ', '.') + EMAIL_DOMAIN@
}

/// The user fabricated for a display name.
pub open spec fn fake_user(display_name: Seq<char>) -> UserView {
    UserView {
        id: user_id_for(display_name),
        display_name: display_name,
        email: Some(email_for(display_name)),
    }
}

/// The session that logging in with a display name opens.
pub open spec fn login_session(display_name: Seq<char>) -> SessionView {
    SessionView::Active { user: fake_user(display_name), token: FAKE_TOKEN@ }
}

/// The user of a session, if it is active.
pub open spec fn session_user(s: SessionView) -> Option<UserView> {
    match s {
        SessionView::Active { user, .. } => Some(user),
        SessionView::LoggedOut => None,
    }
}

/// The user id made from an already lowercased name: `u_`, then the name
/// with each space turned into `_`.
pub fn id_from_lowercase(lower: &str) -> (r: String)
    ensures
        r@ == USER_ID_PREFIX@ + replaced(lower@, ' ', '_'),
{
    let tail = replace_char(lower, ' ', '_');
    concat2(USER_ID_PREFIX, tail.as_str())
}

/// The mail address made from an already lowercased name: the name with each
/// space turned into `.`, then `@example.com`.
pub fn email_from_lowercase(lower: &str) -> (r: String)
    ensures
        r@ == replaced(lower@, ' ', '.') + EMAIL_DOMAIN@,
{
    let head = replace_char(lower, ' ', '.');
    concat2(head.as_str(), EMAIL_DOMAIN)
}

/// Fabricates the user id for a display name.
pub fn make_user_id(display_name: &str) -> (r: String)
    ensures
        r@ == user_id_for(display_name@),
{
    let lower = to_lowercase(display_name);
    id_from_lowercase(lower.as_str())
}

/// Fabricates the mail address for a display name.
pub fn make_email(display_name: &str) -> (r: String)
    ensures
        r@ == email_for(display_name@),
{
    let lower = to_lowercase(display_name);
    email_from_lowercase(lower.as_str())
}

/// The user repository. One per domain, app-lifetime scope.
pub struct UserRepository {
    session: SessionState,
}

impl View for UserRepository {
    type V = SessionView;

    /// The current session.
    closed spec fn view(&self) -> SessionView {
        self.session@
    }
}

impl UserRepository {
    /// A repository with nobody logged in.
    pub fn new() -> (r: Self)
        ensures
            r@ == SessionView::LoggedOut,
    {
        UserRepository { session: SessionState::LoggedOut }
    }

    /// Fabricates a session for the given display name, makes it the current
    /// session and returns it. Local: no network.
    pub fn fake_login(&mut self, display_name: &str) -> (state: SessionState)
        ensures
            state@ == login_session(display_name@),
            final(self)@ == state@,
    {
        let user = User {
            id: make_user_id(display_name),
            display_name: String::from_str(display_name),
            email: Some(make_email(display_name)),
        };
        let state = SessionState::Active { user, token: String::from_str(FAKE_TOKEN) };
        self.session = state.clone();
        state
    }

    /// Ends the current session.
    pub fn logout(&mut self)
        ensures
            final(self)@ == SessionView::LoggedOut,
    {
        self.session = SessionState::LoggedOut;
    }

    /// The current session.
    pub fn current_session(&self) -> (r: SessionState)
        ensures
            r@ == self@,
    {
        self.session.clone()
    }

    /// The user of the current session, if one is logged in.
    pub fn current_user(&self) -> (r: Option<User>)
        ensures
            match r {
                Some(u) => session_user(self@) == Some(u@),
                None => session_user(self@) is None,
            },
    {
        match &self.session {
            SessionState::Active { user, .. } => Some(user.clone()),
            SessionState::LoggedOut => None,
        }
    }
}

impl Default for UserRepository {
    fn default() -> (r: Self)
        ensures
            r@ == SessionView::LoggedOut,
    {
        Self::new()
    }
}

/// After a login with a display name, the current user is the user fabricated
/// from that name, whatever the session was before.
pub proof fn lemma_login_then_current_user(display_name: Seq<char>)
    ensures
        session_user(login_session(display_name)) == Some(fake_user(display_name)),
{
}

/// After a logout there is no current user.
pub proof fn lemma_logout_then_no_user()
    ensures
        session_user(SessionView::LoggedOut) is None,
{
}

/// A fabricated id starts with `u_` and holds no space.
pub proof fn lemma_user_id_shape(display_name: Seq<char>)
    ensures
        user_id_for(display_name).take(2) == seq!['u', '_'],
        !user_id_for(display_name).contains(' '),
{
    reveal_strlit("u_");
    let id = user_id_for(display_name);
    let tail = replaced(lowercase(display_name), ' ', '_');
    assert(id.take(2) =~= seq!['u', '_']);
    assert forall|i: int| 0 <= i < id.len() implies id[i] != ' ' by {
        if i >= 2 {
            assert(id[i] == tail[i - 2]);
        }
    }
}

/// A fabricated address ends with `@example.com` and holds no space.
pub proof fn lemma_email_shape(display_name: Seq<char>)
    ensures
        email_for(display_name).len() >= EMAIL_DOMAIN@.len(),
        email_for(display_name).skip(email_for(display_name).len() - EMAIL_DOMAIN@.len()) == EMAIL_DOMAIN@,
        !email_for(display_name).contains(' '),
{
    reveal_strlit("@example.com");
    let e = email_for(display_name);
    let head = replaced(lowercase(display_name), ' ', '.');
    assert(e.skip(head.len() as int) =~= EMAIL_DOMAIN@);
    assert forall|i: int| 0 <= i < e.len() implies e[i] != ' ' by {
        if i >= head.len() {
            assert(e[i] == EMAIL_DOMAIN@[i - head.len()]);
        }
    }
}

/// Every login opens an active session whose user carries the display name as
/// given, an id made of `u_` and the lowercased name with each space turned
/// into `_`, and always an address: the lowercased name with each space turned
/// into `.`, then `@example.com`; the token is `fake-jwt-token`.
pub proof fn lemma_login_user_fields(display_name: Seq<char>)
    ensures
        session_user(login_session(display_name)) matches Some(u) && u.display_name
            == display_name && u.id == "u_"@ + replaced(lowercase(display_name), ' ', '_')
            && u.email == Some(replaced(lowercase(display_name), ' ', '.') + "@example.com"@),
        login_session(display_name) matches SessionView::Active { token, .. } && token
            == "fake-jwt-token"@,
{
}

/// Every logged-in user has an address, which ends with `@example.com` and
/// holds no space, and an id, which starts with `u_` and holds no space.
pub proof fn lemma_login_user_shape(display_name: Seq<char>)
    ensures
        session_user(login_session(display_name)) matches Some(u) && u.email matches Some(e)
            && e.len() >= EMAIL_DOMAIN@.len() && e.skip(e.len() - EMAIL_DOMAIN@.len())
            == EMAIL_DOMAIN@ && !e.contains(' ') && u.id.take(2) == seq!['u', '_']
            && !u.id.contains(' '),
{
    lemma_email_shape(display_name);
    lemma_user_id_shape(display_name);
}

/// Two display names that lowercase alike give one id and one address.
pub proof fn lemma_same_lowercase_same_user(a: Seq<char>, b: Seq<char>)
    requires
        lowercase(a) == lowercase(b),
    ensures
        session_user(login_session(a)) matches Some(ua) && session_user(login_session(b)) matches Some(
            ub,
        ) && ua.id == ub.id && ua.email == ub.email,
{
}

} // verus!
