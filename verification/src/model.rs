//! Value types of the core: users, sessions, dictionary entries and the one
//! error type that every operation of the core reports.

use vstd::prelude::*;
use crate::text::concat2;

verus! {

/// The authenticated user.
#[derive(Debug)]
pub struct User {
    pub id: String,
    pub display_name: String,
    pub email: Option<String>,
}

/// A user as text.
pub struct UserView {
    pub id: Seq<char>,
    pub display_name: Seq<char>,
    pub email: Option<Seq<char>>,
}

impl View for User {
    type V = UserView;

    open spec fn view(&self) -> UserView {
        UserView { id: self.id@, display_name: self.display_name@, email: self.email.deep_view() }
    }
}

/// A copy of an optional string.
pub fn copy_opt_string(o: &Option<String>) -> (r: Option<String>)
    ensures
        r.deep_view() == o.deep_view(),
{
    match o {
        Some(s) => Some(s.clone()),
        None => None,
    }
}

impl Clone for User {
    fn clone(&self) -> (r: Self)
        ensures
            r@ == self@,
    {
        User {
            id: self.id.clone(),
            display_name: self.display_name.clone(),
            email: copy_opt_string(&self.email),
        }
    }
}

/// Session lifecycle.
#[derive(Debug)]
pub enum SessionState {
    LoggedOut,
    Active { user: User, token: String },
}

/// A session as text.
pub enum SessionView {
    LoggedOut,
    Active { user: UserView, token: Seq<char> },
}

impl View for SessionState {
    type V = SessionView;

    open spec fn view(&self) -> SessionView {
        match self {
            SessionState::LoggedOut => SessionView::LoggedOut,
            SessionState::Active { user, token } => SessionView::Active { user: user@, token: token@ },
        }
    }
}

impl Clone for SessionState {
    fn clone(&self) -> (r: Self)
        ensures
            r@ == self@,
    {
        match self {
            SessionState::LoggedOut => SessionState::LoggedOut,
            SessionState::Active { user, token } => SessionState::Active {
                user: user.clone(),
                token: token.clone(),
            },
        }
    }
}

/// One definition of a dictionary entry.
#[derive(Debug)]
pub struct Definition {
    pub part_of_speech: String,
    pub meaning: String,
    pub example: Option<String>,
}

/// A definition as text.
pub struct DefinitionView {
    pub part_of_speech: Seq<char>,
    pub meaning: Seq<char>,
    pub example: Option<Seq<char>>,
}

impl View for Definition {
    type V = DefinitionView;

    open spec fn view(&self) -> DefinitionView {
        DefinitionView {
            part_of_speech: self.part_of_speech@,
            meaning: self.meaning@,
            example: self.example.deep_view(),
        }
    }
}

impl Clone for Definition {
    fn clone(&self) -> (r: Self)
        ensures
            r@ == self@,
    {
        Definition {
            part_of_speech: self.part_of_speech.clone(),
            meaning: self.meaning.clone(),
            example: copy_opt_string(&self.example),
        }
    }
}

/// The views of a list of definitions.
pub open spec fn definitions_view(ds: Seq<Definition>) -> Seq<DefinitionView> {
    ds.map_values(|d: Definition| d@)
}

/// A copy of a list of definitions.
pub fn copy_definitions(ds: &Vec<Definition>) -> (r: Vec<Definition>)
    ensures
        definitions_view(r@) == definitions_view(ds@),
{
    let mut r: Vec<Definition> = Vec::new();
    let n = ds.len();
    let mut i: usize = 0;
    while i < n
        invariant
            n == ds@.len(),
            i <= n,
            r@.len() == i,
            forall|k: int| 0 <= k < i ==> #[trigger] r@[k]@ == ds@[k]@,
        decreases n - i,
    {
        let d = ds[i].clone();
        r.push(d);
        i = i + 1;
    }
    assert(definitions_view(r@) =~= definitions_view(ds@));
    r
}

/// One dictionary entry.
#[derive(Debug)]
pub struct WordEntry {
    pub word: String,
    pub phonetic: Option<String>,
    pub definitions: Vec<Definition>,
}

/// A dictionary entry as text.
pub struct WordEntryView {
    pub word: Seq<char>,
    pub phonetic: Option<Seq<char>>,
    pub definitions: Seq<DefinitionView>,
}

impl View for WordEntry {
    type V = WordEntryView;

    open spec fn view(&self) -> WordEntryView {
        WordEntryView {
            word: self.word@,
            phonetic: self.phonetic.deep_view(),
            definitions: definitions_view(self.definitions@),
        }
    }
}

impl Clone for WordEntry {
    fn clone(&self) -> (r: Self)
        ensures
            r@ == self@,
    {
        let definitions = copy_definitions(&self.definitions);
        WordEntry {
            word: self.word.clone(),
            phonetic: copy_opt_string(&self.phonetic),
            definitions,
        }
    }
}

/// One typed error surface for the whole core.
#[derive(Debug)]
pub enum CoreError {
    Network { message: String },
    Decode { message: String },
    NotFound { message: String },
    Unauthenticated,
}

/// An error as text.
pub enum CoreErrorView {
    Network { message: Seq<char> },
    Decode { message: Seq<char> },
    NotFound { message: Seq<char> },
    Unauthenticated,
}

impl View for CoreError {
    type V = CoreErrorView;

    open spec fn view(&self) -> CoreErrorView {
        match self {
            CoreError::Network { message } => CoreErrorView::Network { message: message@ },
            CoreError::Decode { message } => CoreErrorView::Decode { message: message@ },
            CoreError::NotFound { message } => CoreErrorView::NotFound { message: message@ },
            CoreError::Unauthenticated => CoreErrorView::Unauthenticated,
        }
    }
}

/// The text by which an error describes itself.
pub open spec fn core_error_text(e: CoreErrorView) -> Seq<char> {
    match e {
        CoreErrorView::Network { message } => "network error: "@ + message,
        CoreErrorView::Decode { message } => "decoding error: "@ + message,
        CoreErrorView::NotFound { message } => "not found: "@ + message,
        CoreErrorView::Unauthenticated => "not authenticated"@,
    }
}

impl Clone for CoreError {
    fn clone(&self) -> (r: Self)
        ensures
            r@ == self@,
    {
        match self {
            CoreError::Network { message } => CoreError::Network { message: message.clone() },
            CoreError::Decode { message } => CoreError::Decode { message: message.clone() },
            CoreError::NotFound { message } => CoreError::NotFound { message: message.clone() },
            CoreError::Unauthenticated => CoreError::Unauthenticated,
        }
    }
}

impl CoreError {
    /// The human-readable description of the error.
    pub fn message(&self) -> (r: String)
        ensures
            r@ == core_error_text(self@),
    {
        match self {
            CoreError::Network { message } => concat2("network error: ", message.as_str()),
            CoreError::Decode { message } => concat2("decoding error: ", message.as_str()),
            CoreError::NotFound { message } => concat2("not found: ", message.as_str()),
            CoreError::Unauthenticated => String::from_str("not authenticated"),
        }
    }
}

} // verus!
