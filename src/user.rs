//! The directory of registered accounts and the generator of user ids.

use vstd::prelude::*;
use crate::auth::{User, UserId};

verus! {

/// A registered account: the user and the password it was registered with.
pub struct UserData {
    pub user: User,
    pub password: String,
}

/// An account with its text fields as character sequences.
pub struct AccountView {
    pub id: u32,
    pub username: Seq<char>,
    pub nickname: Seq<char>,
    pub password: Seq<char>,
}

impl View for UserData {
    type V = AccountView;

    open spec fn view(&self) -> AccountView {
        AccountView {
            id: self.user.id.0,
            username: self.user.username@,
            nickname: self.user.nickname@,
            password: self.password@,
        }
    }
}

/// Whether some account in `accounts` has username `username`.
pub open spec fn has_username(accounts: Seq<AccountView>, username: Seq<char>) -> bool {
    exists|i: int| 0 <= i < accounts.len() && (#[trigger] accounts[i]).username == username
}

/// Whether no two accounts share a username.
pub open spec fn usernames_unique(accounts: Seq<AccountView>) -> bool {
    forall|i: int, j: int|
        0 <= i < j < accounts.len() ==> (#[trigger] accounts[i]).username
            != (#[trigger] accounts[j]).username
}

/// The account with username `username`, where there is one.
pub open spec fn account_named(accounts: Seq<AccountView>, username: Seq<char>) -> AccountView
    recommends
        has_username(accounts, username),
{
    accounts[choose|i: int| 0 <= i < accounts.len() && (#[trigger] accounts[i]).username == username]
}

/// Under unique usernames, the account named `username` is the one at the
/// position that holds it.
pub proof fn lemma_named_is_found(accounts: Seq<AccountView>, i: int, username: Seq<char>)
    requires
        usernames_unique(accounts),
        0 <= i < accounts.len(),
        accounts[i].username == username,
    ensures
        has_username(accounts, username),
        account_named(accounts, username) == accounts[i],
{
    assert(has_username(accounts, username));
    let j = choose|j: int| 0 <= j < accounts.len() && (#[trigger] accounts[j]).username == username;
    if j < i {
        assert(accounts[j].username != accounts[i].username);
    } else if i < j {
        assert(accounts[i].username != accounts[j].username);
    }
}

/// Where accounts are kept.
pub trait UserRepository {
    /// The accounts, in the order they were added.
    spec fn accounts(&self) -> Seq<AccountView>;

    /// Adds an account; its username must be free.
    fn add_user(&mut self, user: UserData)
        requires
            !has_username(old(self).accounts(), user@.username),
        ensures
            final(self).accounts() == old(self).accounts().push(user@),
    ;

    /// The account with this username, if there is one.
    fn find_user_with_username(&self, username: &str) -> (r: Option<&UserData>)
        ensures
            r is Some <==> has_username(self.accounts(), username@),
            r matches Some(d) ==> exists|i: int|
                0 <= i < self.accounts().len() && #[trigger] self.accounts()[i] == d@
                    && d@.username == username@,
    ;
}

/// Accounts held in memory, in the order they were added.
pub struct InMemoryUserRepository {
    users: Vec<UserData>,
}

impl InMemoryUserRepository {
    pub fn new() -> (r: Self)
        ensures
            r.accounts() == Seq::<AccountView>::empty(),
    {
        Self { users: Vec::new() }
    }
}

impl UserRepository for InMemoryUserRepository {
    closed spec fn accounts(&self) -> Seq<AccountView> {
        self.users@.map_values(|u: UserData| u@)
    }

    fn add_user(&mut self, user: UserData) {
        self.users.push(user);
        assert(self.accounts() =~= old(self).accounts().push(user@));
    }

    fn find_user_with_username(&self, username: &str) -> (r: Option<&UserData>) {
        let wanted = username.to_owned();
        let mut i: usize = 0;
        while i < self.users.len()
            invariant
                0 <= i <= self.users@.len(),
                wanted@ == username@,
                forall|k: int| 0 <= k < i ==> (#[trigger] self.accounts()[k]).username != username@,
            decreases self.users@.len() - i,
        {
            if self.users[i].user.username == wanted {
                assert(self.accounts()[i as int] == self.users@[i as int]@);
                return Some(&self.users[i]);
            }
            i = i + 1;
        }
        assert forall|k: int| 0 <= k < self.accounts().len() implies (
        #[trigger] self.accounts()[k]).username != username@ by {}
        None
    }
}

/// Hands out the ids 0, 1, 2, ... in turn, each once.
pub struct UserIdGenerator {
    current_id: u64,
}

/// How many ids there are.
pub open spec fn id_space() -> nat {
    u32::MAX as nat + 1
}

impl UserIdGenerator {
    /// How many ids have been handed out.
    pub closed spec fn issued(&self) -> nat {
        self.current_id as nat
    }

    pub closed spec fn wf(&self) -> bool {
        self.current_id <= id_space()
    }

    pub fn new() -> (r: Self)
        ensures
            r.wf(),
            r.issued() == 0,
    {
        Self { current_id: 0 }
    }

    /// The next id, or `None` once every id has been handed out.
    pub fn next_id(&mut self) -> (r: Option<UserId>)
        requires
            old(self).wf(),
        ensures
            final(self).wf(),
            old(self).issued() < id_space() ==> {
                &&& r matches Some(id)
                &&& id.0 == old(self).issued()
                &&& final(self).issued() == old(self).issued() + 1
            },
            old(self).issued() >= id_space() ==> r is None && final(self).issued() == old(
                self,
            ).issued(),
    {
        if self.current_id > u32::MAX as u64 {
            None
        } else {
            let id = self.current_id as u32;
            self.current_id = self.current_id + 1;
            Some(UserId::new(id))
        }
    }
}

} // verus!
