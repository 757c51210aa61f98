//! Client-side reading of notification frames from received bytes.

use vstd::prelude::*;
use vstd::utf8::*;
use crate::auth::{user_bytes, user_text};
use crate::command_handler::framed_payload;
use crate::io::BytesBuffer;
use crate::messaging::contact_bytes;
use crate::notification::{notification_of_tag, Notification};
use crate::text::{
    field, has_field, joined, lemma_encode_nonempty, lemma_fields_of_joined, lemma_received_encoded,
    lemma_single_field, no_delim, received_text,
};
use crate::utils::{be_bytes_u32, be_value_u32, bytes_as_u32, lemma_u32_round_trip};

verus! {

/// Reads a tag byte; `None` where there is none or it names no notification.
pub fn read_notification(bytes_buffer: &mut BytesBuffer) -> (r: Option<Notification>)
    requires
        old(bytes_buffer).wf(),
    ensures
        final(bytes_buffer).wf(),
        final(bytes_buffer).data() == old(bytes_buffer).data(),
        old(bytes_buffer).unread().len() == 0 ==> r is None && final(bytes_buffer).pos() == old(
            bytes_buffer,
        ).pos(),
        old(bytes_buffer).unread().len() > 0 ==> {
            &&& r == notification_of_tag(old(bytes_buffer).unread()[0])
            &&& final(bytes_buffer).pos() == old(bytes_buffer).pos() + 1
        },
{
    let tag = match bytes_buffer.read_bytes(1) {
        Some(s) => s[0],
        None => return None,
    };
    match Notification::try_from(tag) {
        Ok(notification) => Some(notification),
        Err(_) => None,
    }
}

/// The payload that a length-prefixed string at the start of `b` holds,
/// where `b` holds all of it.
pub open spec fn payload_of(b: Seq<u8>) -> Option<Seq<u8>> {
    if b.len() < 4 {
        None
    } else if b.len() - 4 < be_value_u32(b.subrange(0, 4)) {
        None
    } else {
        Some(b.subrange(4, 4 + be_value_u32(b.subrange(0, 4))))
    }
}

/// Reads four length bytes and that many payload bytes into a buffer of
/// their own; `None` where fewer are there.
pub fn read_notification_payload(bytes_buffer: &mut BytesBuffer) -> (r: Option<BytesBuffer>)
    requires
        old(bytes_buffer).wf(),
    ensures
        final(bytes_buffer).wf(),
        final(bytes_buffer).data() == old(bytes_buffer).data(),
        r is Some <==> payload_of(old(bytes_buffer).unread()) is Some,
        r matches Some(p) ==> {
            &&& p.wf()
            &&& p.pos() == 0
            &&& payload_of(old(bytes_buffer).unread()) == Some(p.unread())
        },
{
    let ghost b = bytes_buffer.unread();
    let length_bytes = match bytes_buffer.read_bytes(4) {
        Some(s) => [s[0], s[1], s[2], s[3]],
        None => return None,
    };
    assert(length_bytes@ =~= b.subrange(0, 4));
    let payload_length = bytes_as_u32(&length_bytes);
    let payload = match bytes_buffer.read_bytes(payload_length as usize) {
        Some(s) => s,
        None => return None,
    };
    assert(payload@ =~= b.subrange(4, 4 + payload_length));
    let mut result = BytesBuffer::empty();
    result.write_bytes(payload);
    assert(result.unread() =~= payload@);
    Some(result)
}

/// The payload of a login reply, read back by the client, holds the id,
/// username and nickname that were sent, where neither name holds a
/// delimiter.
pub proof fn lemma_user_payload_round_trip(
    id: u32,
    username: Seq<char>,
    nickname: Seq<char>,
    rest: Seq<u8>,
)
    requires
        no_delim(username),
        no_delim(nickname),
        user_bytes(id, username, nickname).len() <= u32::MAX,
    ensures
        ({
            let b = user_bytes(id, username, nickname);
            &&& payload_of(framed_payload(b) + rest) == Some(b)
            &&& b.len() > 4
            &&& be_value_u32(b.subrange(0, 4)) == id
            &&& has_field(user_text(b), 1)
            &&& field(user_text(b), 0) == username
            &&& field(user_text(b), 1) == nickname
        }),
{
    let b = user_bytes(id, username, nickname);
    let t = joined(username, nickname);
    lemma_payload_framing(b, rest);
    lemma_u32_round_trip(id);
    assert(b.subrange(0, 4) =~= be_bytes_u32(id));
    assert(b.subrange(4, b.len() as int) =~= encode_utf8(t));
    lemma_received_encoded(t);
    lemma_encode_nonempty(t);
    lemma_fields_of_joined(username, nickname, 0);
    lemma_single_field(nickname);
}

/// The payload of a contact reply, read back by the client, holds the id
/// and nickname that were sent, where the nickname is not empty.
pub proof fn lemma_contact_payload_round_trip(id: u32, nickname: Seq<char>, rest: Seq<u8>)
    requires
        nickname.len() > 0,
        contact_bytes(id, nickname).len() <= u32::MAX,
    ensures
        ({
            let b = contact_bytes(id, nickname);
            &&& payload_of(framed_payload(b) + rest) == Some(b)
            &&& b.len() > 4
            &&& be_value_u32(b.subrange(0, 4)) == id
            &&& received_text(b.subrange(4, b.len() as int)) == nickname
        }),
{
    let b = contact_bytes(id, nickname);
    lemma_payload_framing(b, rest);
    lemma_u32_round_trip(id);
    assert(b.subrange(0, 4) =~= be_bytes_u32(id));
    assert(b.subrange(4, b.len() as int) =~= encode_utf8(nickname));
    lemma_received_encoded(nickname);
    lemma_encode_nonempty(nickname);
}

proof fn lemma_payload_framing(b: Seq<u8>, rest: Seq<u8>)
    requires
        b.len() <= u32::MAX,
    ensures
        payload_of(framed_payload(b) + rest) == Some(b),
{
    let f = framed_payload(b) + rest;
    lemma_u32_round_trip(b.len() as u32);
    assert(f.subrange(0, 4) =~= be_bytes_u32(b.len() as u32));
    assert(f.subrange(4, 4 + b.len() as int) =~= b);
}

} // verus!
