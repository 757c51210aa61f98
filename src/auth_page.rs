//! The state of the login and registration forms, and what the client makes
//! of the server's replies to them.

use vstd::prelude::*;
use crate::auth::{user_text, User, UserConnectData, UserRegisterData};
use crate::io::BytesBuffer;
use crate::notification::Notification;
use crate::text::{field, has_field};
use crate::utils::be_value_u32;

verus! {

/// The registration form.
pub struct RegistrationPage {
    pub host_name: String,
    pub port: String,
    pub registration_data: UserRegisterData,
    pub error_message: Option<String>,
}

impl RegistrationPage {
    /// An empty form aimed at the local server.
    pub fn new() -> (r: Self)
        ensures
            r.host_name@ == "127.0.0.1"@,
            r.port@ == "8080"@,
            r.registration_data.username@ == Seq::<char>::empty(),
            r.registration_data.nickname@ == Seq::<char>::empty(),
            r.registration_data.password@ == Seq::<char>::empty(),
            r.error_message is None,
    {
        let registration_data = UserRegisterData {
            username: String::new(),
            nickname: String::new(),
            password: String::new(),
        };
        Self {
            host_name: String::from_str("127.0.0.1"),
            port: String::from_str("8080"),
            registration_data,
            error_message: None,
        }
    }

    /// Whether every field is filled in.
    pub fn is_form_valid(&self) -> (r: bool)
        ensures
            r == (self.host_name@.len() > 0 && self.port@.len() > 0
                && self.registration_data.username@.len() > 0
                && self.registration_data.nickname@.len() > 0
                && self.registration_data.password@.len() > 0),
    {
        !self.host_name.as_str().is_empty() && !self.port.as_str().is_empty()
            && !self.registration_data.username.as_str().is_empty()
            && !self.registration_data.nickname.as_str().is_empty()
            && !self.registration_data.password.as_str().is_empty()
    }

    /// Empties the account fields; the server address and the error stay.
    pub fn clear(&mut self)
        ensures
            final(self).host_name == old(self).host_name,
            final(self).port == old(self).port,
            final(self).error_message == old(self).error_message,
            final(self).registration_data.username@ == Seq::<char>::empty(),
            final(self).registration_data.nickname@ == Seq::<char>::empty(),
            final(self).registration_data.password@ == Seq::<char>::empty(),
    {
        self.registration_data.username = String::new();
        self.registration_data.nickname = String::new();
        self.registration_data.password = String::new();
    }
}

/// The login form.
pub struct LoginPage {
    pub host_name: String,
    pub port: String,
    pub connect_data: UserConnectData,
    pub error_message: Option<String>,
}

impl LoginPage {
    /// An empty form aimed at the local server.
    pub fn new() -> (r: Self)
        ensures
            r.host_name@ == "127.0.0.1"@,
            r.port@ == "8080"@,
            r.connect_data.username@ == Seq::<char>::empty(),
            r.connect_data.password@ == Seq::<char>::empty(),
            r.error_message is None,
    {
        let connect_data = UserConnectData { password: String::new(), username: String::new() };
        Self {
            host_name: String::from_str("127.0.0.1"),
            port: String::from_str("8080"),
            connect_data,
            error_message: None,
        }
    }

    /// Whether every field is filled in.
    pub fn is_form_valid(&self) -> (r: bool)
        ensures
            r == (self.host_name@.len() > 0 && self.port@.len() > 0
                && self.connect_data.username@.len() > 0 && self.connect_data.password@.len() > 0),
    {
        !self.host_name.as_str().is_empty() && !self.port.as_str().is_empty()
            && !self.connect_data.username.as_str().is_empty()
            && !self.connect_data.password.as_str().is_empty()
    }

    /// Empties the account fields; the server address and the error stay.
    pub fn clear(&mut self)
        ensures
            final(self).host_name == old(self).host_name,
            final(self).port == old(self).port,
            final(self).error_message == old(self).error_message,
            final(self).connect_data.username@ == Seq::<char>::empty(),
            final(self).connect_data.password@ == Seq::<char>::empty(),
    {
        self.connect_data.username = String::new();
        self.connect_data.password = String::new();
    }
}

/// The two forms, one of them shown.
pub struct AuthentificationPage {
    pub registration_page: RegistrationPage,
    pub login_page: LoginPage,
    pub registering: bool,
}

impl AuthentificationPage {
    /// Both forms empty, the login form shown.
    pub fn new() -> (r: Self)
        ensures
            !r.registering,
            r.registration_page.error_message is None,
            r.login_page.error_message is None,
    {
        Self {
            registration_page: RegistrationPage::new(),
            login_page: LoginPage::new(),
            registering: false,
        }
    }

    /// Shows the other form; what was typed in either stays.
    pub fn switch_page(&mut self)
        ensures
            final(self).registering == !old(self).registering,
            final(self).registration_page == old(self).registration_page,
            final(self).login_page == old(self).login_page,
    {
        self.registering = !self.registering;
    }
}

/// Whether `r` is an error with message `message`.
pub open spec fn fails_with<T>(r: Result<T, String>, message: Seq<char>) -> bool {
    match r {
        Ok(_) => false,
        Err(m) => m@ == message,
    }
}

/// What the client makes of the reply to its registration.
pub fn register_reply(notification: Notification) -> (r: Result<(), String>)
    ensures
        notification == Notification::UserRegistred ==> r is Ok,
        notification == Notification::UserAlreadyExist ==> fails_with(r, "User already registered"@),
        notification != Notification::UserRegistred && notification
            != Notification::UserAlreadyExist ==> fails_with(r, "Error while connecting to server"@),
{
    match notification {
        Notification::UserRegistred => Ok(()),
        Notification::UserAlreadyExist => Err(String::from_str("User already registered")),
        _ => Err(String::from_str("Error while connecting to server")),
    }
}

/// What the client makes of the reply to its login: the user that the
/// payload of `UserConnected` holds, or the message to show.
pub fn connect_reply(notification: Notification, payload: Option<BytesBuffer>) -> (r: Result<
    User,
    String,
>)
    requires
        payload matches Some(p) ==> p.wf(),
    ensures
        notification == Notification::UserConnected ==> match payload {
            Some(p) if p.unread().len() > 4 && has_field(user_text(p.unread()), 1) => {
                &&& r matches Ok(u)
                &&& u.id.0 == be_value_u32(p.unread().subrange(0, 4))
                &&& u.username@ == field(user_text(p.unread()), 0)
                &&& u.nickname@ == field(user_text(p.unread()), 1)
            },
            _ => fails_with(r, "Cannot read user data from server"@),
        },
        notification == Notification::UserIsAlreadyConnected ==> fails_with(r, "User is already connected"@),
        notification == Notification::UserNotFound ==> fails_with(r, "User is not registered"@),
        notification == Notification::UserPasswordIncorrect ==> fails_with(r, "Password is incorrect"@),
        notification != Notification::UserConnected && notification
            != Notification::UserIsAlreadyConnected && notification != Notification::UserNotFound
            && notification != Notification::UserPasswordIncorrect ==> fails_with(r, "Error while connecting to server"@),
{
    match notification {
        Notification::UserConnected => {
            let user = match payload {
                Some(p) => {
                    let mut p = p;
                    User::from_bytes(&mut p)
                },
                None => None,
            };
            match user {
                Some(u) => Ok(u),
                None => Err(String::from_str("Cannot read user data from server")),
            }
        },
        Notification::UserIsAlreadyConnected => Err(String::from_str("User is already connected")),
        Notification::UserNotFound => Err(String::from_str("User is not registered")),
        Notification::UserPasswordIncorrect => Err(String::from_str("Password is incorrect")),
        _ => Err(String::from_str("Error while connecting to server")),
    }
}

} // verus!
