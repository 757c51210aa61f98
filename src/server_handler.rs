//! The command handler of the server, over a repository of accounts.

use vstd::prelude::*;
use crate::auth::{User, UserConnectData, UserRegisterData};
use crate::command_handler::{directory_wf, fits_wire, lemma_register_keeps_wf, CommandHandler};
use crate::messaging::Contact;
use crate::notification::Notification;
use crate::server::{ServerConnectionData, ServerResponse};
use crate::text::lemma_joined_len;
use crate::user::{
    lemma_named_is_found, AccountView, InMemoryUserRepository, UserData, UserIdGenerator,
    UserRepository,
};

verus! {

/// The most bytes the names of one user may take together.
const NAMES_LIMIT: usize = 0xFFFF_FFFA;

pub struct ServerCommandHandler<R: UserRepository> {
    users_repo: R,
    ids_generator: UserIdGenerator,
}

impl<R: UserRepository> ServerCommandHandler<R> {
    /// A handler over `users_repo`, which holds no account yet.
    pub fn with_repository(users_repo: R) -> (r: Self)
        requires
            users_repo.accounts() == Seq::<AccountView>::empty(),
        ensures
            r.wf(),
            r.accounts() == Seq::<AccountView>::empty(),
    {
        Self { users_repo, ids_generator: UserIdGenerator::new() }
    }
}

impl ServerCommandHandler<InMemoryUserRepository> {
    /// A handler over an empty directory in memory.
    pub fn new() -> (r: Self)
        ensures
            r.wf(),
            r.accounts() == Seq::<AccountView>::empty(),
    {
        Self::with_repository(InMemoryUserRepository::new())
    }
}

impl<R: UserRepository> CommandHandler for ServerCommandHandler<R> {
    closed spec fn accounts(&self) -> Seq<AccountView> {
        self.users_repo.accounts()
    }

    closed spec fn wf(&self) -> bool {
        &&& self.ids_generator.wf()
        &&& self.ids_generator.issued() == self.users_repo.accounts().len()
        &&& directory_wf(self.users_repo.accounts())
    }

    fn handle_register_cmd(&mut self, user_register_data: UserRegisterData) -> (r: ServerResponse) {
        let ghost accounts = self.users_repo.accounts();
        let ghost u = user_register_data.username@;
        let ghost n = user_register_data.nickname@;
        let ghost p = user_register_data.password@;
        let user_registered = self.users_repo.find_user_with_username(
            user_register_data.username.as_str(),
        ).is_some();
        if user_registered {
            return ServerResponse::without_payload(Notification::UserAlreadyExist);
        }
        let username_len = user_register_data.username.as_str().as_bytes().len();
        let nickname_len = user_register_data.nickname.as_str().as_bytes().len();
        if username_len > NAMES_LIMIT || nickname_len > NAMES_LIMIT - username_len {
            assert(!fits_wire(u, n));
            return ServerResponse::without_payload(Notification::InvalidPayload);
        }
        assert(fits_wire(u, n));
        let id = match self.ids_generator.next_id() {
            Some(id) => id,
            None => {
                return ServerResponse::without_payload(Notification::InvalidPayload);
            },
        };
        let UserRegisterData { username, nickname, password } = user_register_data;
        let user_data = UserData { user: User { id, username, nickname }, password };
        let ghost added = AccountView { id: accounts.len() as u32, username: u, nickname: n, password: p };
        assert(user_data@ == added);
        self.users_repo.add_user(user_data);
        proof {
            lemma_register_keeps_wf(accounts, u, n, p);
        }
        ServerResponse::without_payload(Notification::UserRegistred)
    }

    fn handle_connect_cmd(
        &self,
        user_connect_data: UserConnectData,
        connection_data: &mut ServerConnectionData,
    ) -> (r: ServerResponse) {
        if connection_data.user_id.is_some() {
            return ServerResponse::without_payload(Notification::UserIsAlreadyConnected);
        }
        match self.users_repo.find_user_with_username(user_connect_data.username.as_str()) {
            None => ServerResponse::without_payload(Notification::UserNotFound),
            Some(user) => {
                let ghost accounts = self.users_repo.accounts();
                proof {
                    let i = choose|i: int|
                        0 <= i < accounts.len() && #[trigger] accounts[i] == user@
                            && user@.username == user_connect_data.username@;
                    lemma_named_is_found(accounts, i, user_connect_data.username@);
                    lemma_joined_len(user@.username, user@.nickname);
                }
                if user.password == user_connect_data.password {
                    connection_data.user_id = Some(user.user.id);
                    let user_bytes = user.user.to_bytes();
                    ServerResponse::with_payload(Notification::UserConnected, &user_bytes)
                } else {
                    ServerResponse::without_payload(Notification::UserPasswordIncorrect)
                }
            },
        }
    }

    fn handle_request_contact_cmd(&self, username: &str) -> (r: ServerResponse) {
        match self.users_repo.find_user_with_username(username) {
            None => ServerResponse::without_payload(Notification::UserNotFound),
            Some(user) => {
                let ghost accounts = self.users_repo.accounts();
                proof {
                    let i = choose|i: int|
                        0 <= i < accounts.len() && #[trigger] accounts[i] == user@
                            && user@.username == username@;
                    lemma_named_is_found(accounts, i, username@);
                }
                let contact = Contact { id: user.user.id, nickname: user.user.nickname.clone() };
                let bytes = contact.to_bytes();
                ServerResponse::with_payload(Notification::ReceiveContactInfo, &bytes)
            },
        }
    }
}

} // verus!
