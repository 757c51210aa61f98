//! User identities and the account data carried by commands.

use vstd::prelude::*;
use vstd::utf8::*;
use crate::io::BytesBuffer;
use crate::text::{
    chars_of, decode_lossy, field, field_start, has_field, join_fields, joined, next_delim,
    next_field, received_text,
};
use crate::utils::{append_bytes, be_bytes_u32, be_value_u32, bytes_as_u32, u32_as_bytes};

verus! {

/// The text of a registration: username, nickname and password, in this order.
pub open spec fn register_text(username: Seq<char>, nickname: Seq<char>, password: Seq<char>) -> Seq<char> {
    joined(username, joined(nickname, password))
}

#[derive(Debug, Clone)]
pub struct UserRegisterData {
    pub username: String,
    pub nickname: String,
    pub password: String,
}

impl UserRegisterData {
    /// The first three `;`-separated fields of `data_str`, or `None` where it
    /// has fewer than two delimiters; a third delimiter ends the password.
    pub fn new(data_str: &str) -> (r: Option<Self>)
        ensures
            r is Some <==> has_field(data_str@, 2),
            r matches Some(d) ==> {
                &&& d.username@ == field(data_str@, 0)
                &&& d.nickname@ == field(data_str@, 1)
                &&& d.password@ == field(data_str@, 2)
            },
    {
        let chars = chars_of(data_str);
        let ghost s = data_str@;
        let (username, e0) = next_field(data_str, &chars, 0);
        assert(field_start(s, 0) == 0);
        assert(field_start(s, 1) == e0 + 1);
        if e0 >= chars.len() {
            assert(field_start(s, 2) == next_delim(s, field_start(s, 1)) + 1);
            return None;
        }
        let (nickname, e1) = next_field(data_str, &chars, e0 + 1);
        assert(field_start(s, 2) == e1 + 1);
        if e1 >= chars.len() {
            return None;
        }
        let (password, _e2) = next_field(data_str, &chars, e1 + 1);
        Some(Self { username, nickname, password })
    }

    /// Username, nickname and password joined by `;`.
    pub fn to_string(&self) -> (r: String)
        ensures
            r@ == register_text(self.username@, self.nickname@, self.password@),
    {
        let tail = join_fields(self.nickname.as_str(), self.password.as_str());
        join_fields(self.username.as_str(), tail.as_str())
    }
}

#[derive(Debug, Clone)]
pub struct UserConnectData {
    pub username: String,
    pub password: String,
}

impl UserConnectData {
    /// The first two `;`-separated fields of `data_str`, or `None` where it
    /// has no delimiter; a second delimiter ends the password.
    pub fn new(data_str: &str) -> (r: Option<Self>)
        ensures
            r is Some <==> has_field(data_str@, 1),
            r matches Some(d) ==> {
                &&& d.username@ == field(data_str@, 0)
                &&& d.password@ == field(data_str@, 1)
            },
    {
        let chars = chars_of(data_str);
        let ghost s = data_str@;
        let (username, e0) = next_field(data_str, &chars, 0);
        assert(field_start(s, 0) == 0);
        assert(field_start(s, 1) == e0 + 1);
        if e0 >= chars.len() {
            return None;
        }
        let (password, _e1) = next_field(data_str, &chars, e0 + 1);
        Some(Self { username, password })
    }

    /// Username and password joined by `;`.
    pub fn to_string(&self) -> (r: String)
        ensures
            r@ == joined(self.username@, self.password@),
    {
        join_fields(self.username.as_str(), self.password.as_str())
    }
}

/// A user's number, unique among registered users.
#[derive(Copy, Clone, Hash, PartialEq, Eq, Debug, Structural)]
pub struct UserId(pub u32);

impl UserId {
    /// The width of an id on the wire.
    pub fn size() -> (r: usize)
        ensures
            r == 4,
    {
        4
    }

    pub fn from_bytes(bytes: &[u8; 4]) -> (r: Self)
        ensures
            r.0 == be_value_u32(bytes@),
    {
        Self::new(bytes_as_u32(bytes))
    }

    pub fn to_bytes(self) -> (r: [u8; 4])
        ensures
            r@ == be_bytes_u32(self.0),
    {
        u32_as_bytes(self.get())
    }

    pub fn new(value: u32) -> (r: Self)
        ensures
            r.0 == value,
    {
        Self(value)
    }

    pub fn get(self) -> (r: u32)
        ensures
            r == self.0,
    {
        self.0
    }
}

/// The bytes of a user on the wire: the id, then username and nickname
/// joined by `;`.
pub open spec fn user_bytes(id: u32, username: Seq<char>, nickname: Seq<char>) -> Seq<u8> {
    be_bytes_u32(id) + encode_utf8(joined(username, nickname))
}

/// The text that follows the id in the bytes of a user.
pub open spec fn user_text(b: Seq<u8>) -> Seq<char> {
    received_text(b.subrange(4, b.len() as int))
}

#[derive(Debug)]
pub struct User {
    pub id: UserId,
    pub username: String,
    pub nickname: String,
}

impl User {
    /// Reads an id, then takes all that is left as `username;nickname`.
    /// `None` where fewer than five bytes remain or the text has no `;`.
    pub fn from_bytes(bytes_buffer: &mut BytesBuffer) -> (r: Option<Self>)
        requires
            old(bytes_buffer).wf(),
        ensures
            final(bytes_buffer).wf(),
            final(bytes_buffer).data() == old(bytes_buffer).data(),
            old(bytes_buffer).unread().len() < 4 ==> final(bytes_buffer).pos() == old(bytes_buffer).pos(),
            old(bytes_buffer).unread().len() >= 4 ==> final(bytes_buffer).unread() == Seq::<u8>::empty(),
            r is Some <==> old(bytes_buffer).unread().len() > 4 && has_field(
                user_text(old(bytes_buffer).unread()),
                1,
            ),
            r matches Some(u) ==> {
                &&& u.id.0 == be_value_u32(old(bytes_buffer).unread().subrange(0, 4))
                &&& u.username@ == field(user_text(old(bytes_buffer).unread()), 0)
                &&& u.nickname@ == field(user_text(old(bytes_buffer).unread()), 1)
            },
    {
        let ghost b = bytes_buffer.unread();
        let user_id = match bytes_buffer.read_bytes(UserId::size()) {
            Some(s) => s,
            None => return None,
        };
        let id = UserId::from_bytes(&[user_id[0], user_id[1], user_id[2], user_id[3]]);
        assert([user_id[0], user_id[1], user_id[2], user_id[3]]@ =~= b.subrange(0, 4));
        let rest = match bytes_buffer.read_all() {
            Some(s) => s,
            None => return None,
        };
        assert(rest@ =~= b.subrange(4, b.len() as int));
        let data = decode_lossy(rest);
        let ghost s = data@;
        let chars = chars_of(data.as_str());
        let (username, e0) = next_field(data.as_str(), &chars, 0);
        assert(field_start(s, 0) == 0);
        assert(field_start(s, 1) == e0 + 1);
        if e0 >= chars.len() {
            return None;
        }
        let (nickname, _e1) = next_field(data.as_str(), &chars, e0 + 1);
        Some(User { id, username, nickname })
    }

    pub fn to_bytes(&self) -> (r: Vec<u8>)
        ensures
            r@ == user_bytes(self.id.0, self.username@, self.nickname@),
    {
        let mut result: Vec<u8> = Vec::new();
        append_bytes(&mut result, &self.id.to_bytes());
        let text = join_fields(self.username.as_str(), self.nickname.as_str());
        append_bytes(&mut result, text.as_str().as_bytes());
        result
    }
}

} // verus!
