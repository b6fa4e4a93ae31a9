//! The login form: two text fields, the one that has the focus, and how far
//! the login has come.

use vstd::prelude::*;
use termion::event::MouseButton;

verus! {

/// `termion::event::MouseButton`, the button of a mouse event. Opaque: it is
/// only carried through.
#[verifier::external_type_specification]
#[verifier::external_body]
pub struct ExMouseButton(MouseButton);

/// `String::push`: appends one character at the end.
#[verifier::external_body]
pub(crate) fn push_char(text: &mut String, c: char)
    ensures
        final(text)@ == old(text)@.push(c),
{
    text.push(c)
}

/// `String::pop`: removes the last character and returns it; an empty string
/// stays empty and gives `None`.
#[verifier::external_body]
pub(crate) fn pop_char(text: &mut String) -> (popped: Option<char>)
    ensures
        old(text)@.len() == 0 ==> popped.is_none() && final(text)@ == old(text)@,
        old(text)@.len() > 0 ==> popped == Some(old(text)@.last()) && final(text)@ == old(
            text,
        )@.drop_last(),
{
    text.pop()
}

/// The field of the login form that typing goes to.
#[derive(Debug, Clone, Copy, PartialEq, Eq, Structural)]
pub enum LoginSelect {
    Username,
    Password,
}

impl LoginSelect {
    /// The form has two fields, so moving up and moving down both go to the
    /// other one.
    pub open spec fn other(self) -> LoginSelect {
        match self {
            LoginSelect::Username => LoginSelect::Password,
            LoginSelect::Password => LoginSelect::Username,
        }
    }
}

#[derive(Debug, Clone, PartialEq, Eq)]
pub struct Login {
    pub username: String,
    pub password: String,
    pub selected: LoginSelect,
}

#[derive(Debug, Clone, PartialEq, Eq)]
pub struct LoginWidget {
    pub login: Login,
    /// A login request is under way.
    pub logging_in: bool,
    pub logged_in: bool,
}

/// The login form as plain values.
pub struct LoginView {
    pub username: Seq<char>,
    pub password: Seq<char>,
    pub selected: LoginSelect,
    pub logging_in: bool,
    pub logged_in: bool,
}

impl LoginView {
    /// An empty form with the focus on the user name.
    pub open spec fn blank() -> LoginView {
        LoginView {
            username: Seq::empty(),
            password: Seq::empty(),
            selected: LoginSelect::Username,
            logging_in: false,
            logged_in: false,
        }
    }

    /// Both fields are filled in, so a login can be tried.
    pub open spec fn try_login(self) -> bool {
        self.username.len() > 0 && self.password.len() > 0
    }

    /// The focus moved to the other field.
    pub open spec fn select_other(self) -> LoginView {
        LoginView { selected: self.selected.other(), ..self }
    }

    /// One character typed into the field that has the focus.
    pub open spec fn push(self, c: char) -> LoginView {
        match self.selected {
            LoginSelect::Username => LoginView { username: self.username.push(c), ..self },
            LoginSelect::Password => LoginView { password: self.password.push(c), ..self },
        }
    }

    /// The last character of the field that has the focus deleted, if it has
    /// one.
    pub open spec fn pop(self) -> LoginView {
        match self.selected {
            LoginSelect::Username => LoginView {
                username: drop_last_or_empty(self.username),
                ..self
            },
            LoginSelect::Password => LoginView {
                password: drop_last_or_empty(self.password),
                ..self
            },
        }
    }
}

impl View for LoginWidget {
    type V = LoginView;

    open spec fn view(&self) -> LoginView {
        LoginView {
            username: self.login.username@,
            password: self.login.password@,
            selected: self.login.selected,
            logging_in: self.logging_in,
            logged_in: self.logged_in,
        }
    }
}

impl LoginWidget {
    pub fn new() -> (r: LoginWidget)
        ensures
            r@ == LoginView::blank(),
    {
        LoginWidget {
            login: Login {
                username: String::new(),
                password: String::new(),
                selected: LoginSelect::Username,
            },
            logging_in: false,
            logged_in: false,
        }
    }

    pub fn try_login(&self) -> (r: bool)
        ensures
            r == self@.try_login(),
    {
        !self.login.username.as_str().is_empty() && !self.login.password.as_str().is_empty()
    }

    /// Moves the focus to the other field.
    pub fn select_other(&mut self)
        ensures
            final(self)@ == old(self)@.select_other(),
    {
        match self.login.selected {
            LoginSelect::Username => {
                self.login.selected = LoginSelect::Password;
            },
            LoginSelect::Password => {
                self.login.selected = LoginSelect::Username;
            },
        }
    }

    /// Types one character into the field that has the focus.
    pub fn push(&mut self, c: char)
        ensures
            final(self)@ == old(self)@.push(c),
    {
        match self.login.selected {
            LoginSelect::Username => push_char(&mut self.login.username, c),
            LoginSelect::Password => push_char(&mut self.login.password, c),
        }
    }

    /// Deletes the last character of the field that has the focus, if it has
    /// one.
    pub fn pop(&mut self)
        ensures
            final(self)@ == old(self)@.pop(),
    {
        match self.login.selected {
            LoginSelect::Username => {
                let _ = pop_char(&mut self.login.username);
            },
            LoginSelect::Password => {
                let _ = pop_char(&mut self.login.password);
            },
        }
    }

    /// A click on the form changes nothing.
    pub fn on_click(&mut self, btn: MouseButton, x: u16, y: u16)
        ensures
            *final(self) == *old(self),
    {
    }
}

/// A text without its last character; the empty text stays empty.
pub open spec fn drop_last_or_empty(text: Seq<char>) -> Seq<char> {
    if text.len() == 0 {
        text
    } else {
        text.drop_last()
    }
}

} // verus!
