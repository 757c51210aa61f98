//! The public face of a user, as sent to someone who asked for it.

use vstd::prelude::*;
use vstd::utf8::*;
use crate::auth::UserId;
use crate::io::BytesBuffer;
use crate::text::{decode_lossy, received_text};
use crate::utils::{append_bytes, be_bytes_u32, be_value_u32};

verus! {

/// The bytes of a contact on the wire: the id, then the nickname.
pub open spec fn contact_bytes(id: u32, nickname: Seq<char>) -> Seq<u8> {
    be_bytes_u32(id) + encode_utf8(nickname)
}

#[derive(Debug)]
pub struct Contact {
    pub id: UserId,
    pub nickname: String,
}

impl Contact {
    /// Reads an id, then takes all that is left as the nickname. `None`
    /// where fewer than five bytes remain.
    pub fn from_bytes(bytes_buffer: &mut BytesBuffer) -> (r: Option<Self>)
        requires
            old(bytes_buffer).wf(),
        ensures
            final(bytes_buffer).wf(),
            final(bytes_buffer).data() == old(bytes_buffer).data(),
            old(bytes_buffer).unread().len() < 4 ==> final(bytes_buffer).pos() == old(
                bytes_buffer,
            ).pos(),
            old(bytes_buffer).unread().len() >= 4 ==> final(bytes_buffer).unread()
                == Seq::<u8>::empty(),
            r is Some <==> old(bytes_buffer).unread().len() > 4,
            r matches Some(c) ==> {
                &&& c.id.0 == be_value_u32(old(bytes_buffer).unread().subrange(0, 4))
                &&& c.nickname@ == received_text(
                    old(bytes_buffer).unread().subrange(4, old(bytes_buffer).unread().len() as int),
                )
            },
    {
        let ghost b = bytes_buffer.unread();
        let user_id_bytes = match bytes_buffer.read_bytes(UserId::size()) {
            Some(s) => s,
            None => return None,
        };
        let id = UserId::from_bytes(
            &[user_id_bytes[0], user_id_bytes[1], user_id_bytes[2], user_id_bytes[3]],
        );
        assert([user_id_bytes[0], user_id_bytes[1], user_id_bytes[2], user_id_bytes[3]]@
            =~= b.subrange(0, 4));
        let rest = match bytes_buffer.read_all() {
            Some(s) => s,
            None => return None,
        };
        assert(rest@ =~= b.subrange(4, b.len() as int));
        let nickname = decode_lossy(rest);
        Some(Self { id, nickname })
    }

    pub fn to_bytes(&self) -> (r: Vec<u8>)
        ensures
            r@ == contact_bytes(self.id.0, self.nickname@),
    {
        let mut result: Vec<u8> = Vec::new();
        append_bytes(&mut result, &self.id.to_bytes());
        append_bytes(&mut result, self.nickname.as_str().as_bytes());
        result
    }
}

} // verus!
