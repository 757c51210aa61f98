//! The business rules of the three commands, and their dispatch.

use vstd::prelude::*;
use vstd::utf8::*;
use crate::auth::{user_bytes, UserConnectData, UserId, UserRegisterData};
use crate::command::{Command, CommandView};
use crate::messaging::contact_bytes;
use crate::notification::Notification;
use crate::server::{ServerConnectionData, ServerResponse};
use crate::user::{
    account_named, has_username, id_space, lemma_named_is_found, usernames_unique, AccountView,
};
use crate::utils::be_bytes_u32;

verus! {

/// Whether a user with these names fits in the frames that carry it.
pub open spec fn fits_wire(username: Seq<char>, nickname: Seq<char>) -> bool {
    encode_utf8(username).len() + encode_utf8(nickname).len() + 5 <= u32::MAX
}

/// What a well-kept directory looks like: each id is the account's
/// position, usernames are unique, and every account fits the wire.
pub open spec fn directory_wf(accounts: Seq<AccountView>) -> bool {
    &&& usernames_unique(accounts)
    &&& accounts.len() <= id_space()
    &&& forall|i: int|
        0 <= i < accounts.len() ==> (#[trigger] accounts[i]).id == i && fits_wire(
            accounts[i].username,
            accounts[i].nickname,
        )
}

/// `bytes` as a length-prefixed payload.
pub open spec fn framed_payload(bytes: Seq<u8>) -> Seq<u8> {
    be_bytes_u32(bytes.len() as u32) + bytes
}

/// The reply to a registration and the accounts after it: a taken username
/// is refused; so is a registration once every id is used, or one whose
/// names would not fit in a frame; otherwise the account is added under the
/// next id.
pub open spec fn register_outcome(
    accounts: Seq<AccountView>,
    username: Seq<char>,
    nickname: Seq<char>,
    password: Seq<char>,
) -> (Notification, Seq<AccountView>) {
    if has_username(accounts, username) {
        (Notification::UserAlreadyExist, accounts)
    } else if accounts.len() >= id_space() || !fits_wire(username, nickname) {
        (Notification::InvalidPayload, accounts)
    } else {
        (
            Notification::UserRegistred,
            accounts.push(
                AccountView { id: accounts.len() as u32, username, nickname, password },
            ),
        )
    }
}

/// The reply to a login, its payload, and who is logged in on the
/// connection after it.
pub open spec fn connect_outcome(
    accounts: Seq<AccountView>,
    current: Option<UserId>,
    username: Seq<char>,
    password: Seq<char>,
) -> (Notification, Seq<u8>, Option<UserId>) {
    if current is Some {
        (Notification::UserIsAlreadyConnected, Seq::empty(), current)
    } else if !has_username(accounts, username) {
        (Notification::UserNotFound, Seq::empty(), current)
    } else if account_named(accounts, username).password != password {
        (Notification::UserPasswordIncorrect, Seq::empty(), current)
    } else {
        let a = account_named(accounts, username);
        (
            Notification::UserConnected,
            framed_payload(user_bytes(a.id, a.username, a.nickname)),
            Some(UserId(a.id)),
        )
    }
}

/// The reply to a contact request and its payload.
pub open spec fn contact_outcome(accounts: Seq<AccountView>, username: Seq<char>) -> (
    Notification,
    Seq<u8>,
) {
    if !has_username(accounts, username) {
        (Notification::UserNotFound, Seq::empty())
    } else {
        let a = account_named(accounts, username);
        (Notification::ReceiveContactInfo, framed_payload(contact_bytes(a.id, a.nickname)))
    }
}

/// The account a successful registration adds.
pub open spec fn new_account(
    accounts: Seq<AccountView>,
    username: Seq<char>,
    nickname: Seq<char>,
    password: Seq<char>,
) -> AccountView {
    AccountView { id: accounts.len() as u32, username, nickname, password }
}

/// Registration keeps the directory well kept.
pub proof fn lemma_register_keeps_wf(
    accounts: Seq<AccountView>,
    username: Seq<char>,
    nickname: Seq<char>,
    password: Seq<char>,
)
    requires
        directory_wf(accounts),
    ensures
        directory_wf(register_outcome(accounts, username, nickname, password).1),
{
    let after = register_outcome(accounts, username, nickname, password).1;
    if register_outcome(accounts, username, nickname, password).0 == Notification::UserRegistred {
        assert forall|i: int, j: int| 0 <= i < j < after.len() implies (
        #[trigger] after[i]).username != (#[trigger] after[j]).username by {
            if j == accounts.len() {
                assert(after[i] == accounts[i]);
            }
        }
        assert forall|i: int| 0 <= i < after.len() implies (#[trigger] after[i]).id == i
            && fits_wire(after[i].username, after[i].nickname) by {
            if i < accounts.len() {
                assert(after[i] == accounts[i]);
            }
        }
    }
}

/// Once a username is registered, registering it again is refused with
/// `UserAlreadyExist` and changes nothing, whatever the nickname and
/// password.
pub proof fn lemma_username_taken(
    accounts: Seq<AccountView>,
    username: Seq<char>,
    nickname: Seq<char>,
    password: Seq<char>,
    other_nickname: Seq<char>,
    other_password: Seq<char>,
)
    requires
        register_outcome(accounts, username, nickname, password).0 == Notification::UserRegistred,
    ensures
        ({
            let after = register_outcome(accounts, username, nickname, password).1;
            register_outcome(after, username, other_nickname, other_password) == (
                Notification::UserAlreadyExist,
                after,
            )
        }),
{
    let after = register_outcome(accounts, username, nickname, password).1;
    assert(after[accounts.len() as int].username == username);
}

/// Before anyone registers a username, logging in with it and asking for it
/// as a contact both give `UserNotFound`.
pub proof fn lemma_unknown_username(
    accounts: Seq<AccountView>,
    username: Seq<char>,
    password: Seq<char>,
)
    requires
        !has_username(accounts, username),
    ensures
        connect_outcome(accounts, None, username, password) == (
            Notification::UserNotFound,
            Seq::<u8>::empty(),
            None::<UserId>,
        ),
        contact_outcome(accounts, username).0 == Notification::UserNotFound,
{
}

/// A connection on which someone logged in refuses any further login with
/// `UserIsAlreadyConnected` and stays as it is.
pub proof fn lemma_already_connected(
    accounts: Seq<AccountView>,
    id: UserId,
    username: Seq<char>,
    password: Seq<char>,
)
    ensures
        connect_outcome(accounts, Some(id), username, password) == (
            Notification::UserIsAlreadyConnected,
            Seq::<u8>::empty(),
            Some(id),
        ),
{
}

/// After a registration, logging in with its username succeeds with the
/// registered password, sending the user's id, username and nickname, and
/// fails with `UserPasswordIncorrect` with any other; asking for it as a
/// contact sends its id and nickname.
pub proof fn lemma_registered_user_found(
    accounts: Seq<AccountView>,
    username: Seq<char>,
    nickname: Seq<char>,
    password: Seq<char>,
    attempt: Seq<char>,
)
    requires
        directory_wf(accounts),
        register_outcome(accounts, username, nickname, password).0 == Notification::UserRegistred,
    ensures
        ({
            let after = register_outcome(accounts, username, nickname, password).1;
            let id = accounts.len() as u32;
            &&& attempt == password ==> connect_outcome(after, None, username, attempt) == (
                Notification::UserConnected,
                framed_payload(user_bytes(id, username, nickname)),
                Some(UserId(id)),
            )
            &&& attempt != password ==> connect_outcome(after, None, username, attempt) == (
                Notification::UserPasswordIncorrect,
                Seq::<u8>::empty(),
                None::<UserId>,
            )
            &&& contact_outcome(after, username) == (
                Notification::ReceiveContactInfo,
                framed_payload(contact_bytes(id, nickname)),
            )
        }),
{
    let after = register_outcome(accounts, username, nickname, password).1;
    lemma_register_keeps_wf(accounts, username, nickname, password);
    lemma_named_is_found(after, accounts.len() as int, username);
}

/// The replies to registrations of one username, made one after another,
/// each with its own nickname and password.
pub open spec fn register_each(
    accounts: Seq<AccountView>,
    username: Seq<char>,
    attempts: Seq<(Seq<char>, Seq<char>)>,
) -> Seq<Notification>
    decreases attempts.len(),
{
    if attempts.len() == 0 {
        Seq::empty()
    } else {
        let outcome = register_outcome(accounts, username, attempts[0].0, attempts[0].1);
        seq![outcome.0] + register_each(outcome.1, username, attempts.drop_first())
    }
}

proof fn lemma_register_each_taken(
    accounts: Seq<AccountView>,
    username: Seq<char>,
    attempts: Seq<(Seq<char>, Seq<char>)>,
)
    requires
        has_username(accounts, username),
    ensures
        register_each(accounts, username, attempts).len() == attempts.len(),
        forall|i: int|
            0 <= i < attempts.len() ==> #[trigger] register_each(accounts, username, attempts)[i]
                == Notification::UserAlreadyExist,
    decreases attempts.len(),
{
    if attempts.len() > 0 {
        lemma_register_each_taken(accounts, username, attempts.drop_first());
        let r = register_each(accounts, username, attempts);
        assert forall|i: int| 0 <= i < attempts.len() implies #[trigger] r[i]
            == Notification::UserAlreadyExist by {
            if i > 0 {
                assert(r[i] == register_each(accounts, username, attempts.drop_first())[i - 1]);
            }
        }
    }
}

/// Of registrations of one username made one after another, as the lock on
/// the directory orders concurrent ones, at most one succeeds: every attempt
/// after a success gets `UserAlreadyExist`.
pub proof fn lemma_one_registration_wins(
    accounts: Seq<AccountView>,
    username: Seq<char>,
    attempts: Seq<(Seq<char>, Seq<char>)>,
)
    ensures
        register_each(accounts, username, attempts).len() == attempts.len(),
        forall|i: int, j: int|
            0 <= i < j < attempts.len() && #[trigger] register_each(
                accounts,
                username,
                attempts,
            )[i] == Notification::UserRegistred ==> #[trigger] register_each(
                accounts,
                username,
                attempts,
            )[j] == Notification::UserAlreadyExist,
    decreases attempts.len(),
{
    if attempts.len() > 0 {
        let outcome = register_outcome(accounts, username, attempts[0].0, attempts[0].1);
        let rest = attempts.drop_first();
        let r = register_each(accounts, username, attempts);
        lemma_one_registration_wins(outcome.1, username, rest);
        if outcome.0 == Notification::UserRegistred {
            assert(outcome.1[accounts.len() as int].username == username);
            lemma_register_each_taken(outcome.1, username, rest);
        }
        assert forall|i: int, j: int|
            0 <= i < j < attempts.len() && #[trigger] r[i] == Notification::UserRegistred
                implies #[trigger] r[j] == Notification::UserAlreadyExist by {
            assert(r[j] == register_each(outcome.1, username, rest)[j - 1]);
            if i > 0 {
                assert(r[i] == register_each(outcome.1, username, rest)[i - 1]);
            }
        }
    }
}

/// Carries out the commands of one connection against a directory.
pub trait CommandHandler {
    /// The registered accounts, in the order they were registered.
    spec fn accounts(&self) -> Seq<AccountView>;

    spec fn wf(&self) -> bool;

    fn handle_register_cmd(&mut self, user_register_data: UserRegisterData) -> (r: ServerResponse)
        requires
            old(self).wf(),
        ensures
            final(self).wf(),
            r.data_bytes.wf(),
            r.data_bytes.unread() == Seq::<u8>::empty(),
            (r.notification, final(self).accounts()) == register_outcome(
                old(self).accounts(),
                user_register_data.username@,
                user_register_data.nickname@,
                user_register_data.password@,
            ),
    ;

    fn handle_connect_cmd(
        &self,
        user_connect_data: UserConnectData,
        connection_data: &mut ServerConnectionData,
    ) -> (r: ServerResponse)
        requires
            self.wf(),
        ensures
            r.data_bytes.wf(),
            (r.notification, r.data_bytes.unread(), final(connection_data).user_id)
                == connect_outcome(
                self.accounts(),
                old(connection_data).user_id,
                user_connect_data.username@,
                user_connect_data.password@,
            ),
    ;

    fn handle_request_contact_cmd(&self, username: &str) -> (r: ServerResponse)
        requires
            self.wf(),
        ensures
            r.data_bytes.wf(),
            (r.notification, r.data_bytes.unread()) == contact_outcome(
                self.accounts(),
                username@,
            ),
    ;
}

/// Hands `cmd` to the handler method for its kind.
pub fn handle_command<H: CommandHandler>(
    cmd: Command,
    command_handler: &mut H,
    connection_data: &mut ServerConnectionData,
) -> (r: ServerResponse)
    requires
        old(command_handler).wf(),
    ensures
        final(command_handler).wf(),
        r.data_bytes.wf(),
        match cmd@ {
            CommandView::Register { username, nickname, password } => {
                &&& (r.notification, final(command_handler).accounts()) == register_outcome(
                    old(command_handler).accounts(),
                    username,
                    nickname,
                    password,
                )
                &&& r.data_bytes.unread() == Seq::<u8>::empty()
                &&& final(connection_data).user_id == old(connection_data).user_id
            },
            CommandView::Connect { username, password } => {
                &&& (r.notification, r.data_bytes.unread(), final(connection_data).user_id)
                    == connect_outcome(
                    old(command_handler).accounts(),
                    old(connection_data).user_id,
                    username,
                    password,
                )
                &&& final(command_handler).accounts() == old(command_handler).accounts()
            },
            CommandView::RequestContact { username } => {
                &&& (r.notification, r.data_bytes.unread()) == contact_outcome(
                    old(command_handler).accounts(),
                    username,
                )
                &&& final(command_handler).accounts() == old(command_handler).accounts()
                &&& final(connection_data).user_id == old(connection_data).user_id
            },
        },
{
    match cmd {
        Command::Register(user_register_data) => command_handler.handle_register_cmd(
            user_register_data,
        ),
        Command::Connect(user_connect_data) => command_handler.handle_connect_cmd(
            user_connect_data,
            connection_data,
        ),
        Command::RequestContact(username) => command_handler.handle_request_contact_cmd(
            username.as_str(),
        ),
    }
}

} // verus!
