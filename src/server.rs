//! Server-side framing: reading a command frame, and the reply written back.

use vstd::prelude::*;
use vstd::utf8::*;
use crate::auth::UserId;
use crate::command::{
    command_frame, command_text, decode_command, Command, CommandParsingError, CommandView,
};
use crate::io::BytesBuffer;
use crate::notification::{notification_tag, Notification};
use crate::text::{
    joined, lemma_encode_nonempty, lemma_fields_of_joined, lemma_received_encoded,
    lemma_single_field, no_delim,
};
use crate::utils::{
    append_bytes, be_bytes_u32, be_value_u32, bytes_as_u32, lemma_u32_round_trip, u32_as_bytes,
};

verus! {

/// What the server knows of one connection: who logged in on it, if anyone.
pub struct ServerConnectionData {
    pub user_id: Option<UserId>,
}

#[derive(Debug, Copy, Clone, PartialEq, Eq, Structural)]
pub enum ServerError {
    /// The frame ended before its tag, its length or its payload.
    MissingCommandData,
    CommandParsingError(CommandParsingError),
}

/// What reading one command frame from `b` gives: a tag, four length bytes
/// and that many payload bytes, decoded as a command.
pub open spec fn fetch_result(b: Seq<u8>) -> Result<CommandView, ServerError> {
    if b.len() < 5 {
        Err(ServerError::MissingCommandData)
    } else if b.len() - 5 < be_value_u32(b.subrange(1, 5)) {
        Err(ServerError::MissingCommandData)
    } else {
        match decode_command(seq![b[0]] + b.subrange(5, 5 + be_value_u32(b.subrange(1, 5)))) {
            Ok(c) => Ok(c),
            Err(e) => Err(ServerError::CommandParsingError(e)),
        }
    }
}

/// How many bytes the command frame at the start of `b` takes.
pub open spec fn frame_len(b: Seq<u8>) -> int {
    5 + be_value_u32(b.subrange(1, 5))
}

/// A fetch result with the command seen through its view.
pub open spec fn fetched_view(r: Result<Command, ServerError>) -> Result<CommandView, ServerError> {
    match r {
        Ok(c) => Ok(c@),
        Err(e) => Err(e),
    }
}

/// Reads one command frame: tag, four length bytes, then exactly that many
/// payload bytes, and decodes it.
pub fn fetch_command(bytes_buffer: &mut BytesBuffer) -> (r: Result<Command, ServerError>)
    requires
        old(bytes_buffer).wf(),
    ensures
        final(bytes_buffer).wf(),
        final(bytes_buffer).data() == old(bytes_buffer).data(),
        fetched_view(r) == fetch_result(old(bytes_buffer).unread()),
        r != Err::<Command, ServerError>(ServerError::MissingCommandData)
            ==> final(bytes_buffer).unread() == old(bytes_buffer).unread().subrange(
            frame_len(old(bytes_buffer).unread()),
            old(bytes_buffer).unread().len() as int,
        ),
{
    let ghost b = bytes_buffer.unread();
    let tag = match bytes_buffer.read_bytes(1) {
        Some(s) => s[0],
        None => return Err(ServerError::MissingCommandData),
    };
    let length_bytes = match bytes_buffer.read_bytes(4) {
        Some(s) => [s[0], s[1], s[2], s[3]],
        None => return Err(ServerError::MissingCommandData),
    };
    assert(length_bytes@ =~= b.subrange(1, 5));
    let payload_length = bytes_as_u32(&length_bytes);
    let payload = match bytes_buffer.read_bytes(payload_length as usize) {
        Some(s) => s,
        None => return Err(ServerError::MissingCommandData),
    };
    assert(payload@ =~= b.subrange(5, 5 + payload_length));
    let mut data = BytesBuffer::empty();
    data.write_bytes(&[tag]);
    data.write_bytes(payload);
    assert(data.unread() =~= seq![b[0]] + b.subrange(5, 5 + payload_length));
    match Command::from_bytes(&mut data) {
        Ok(cmd) => Ok(cmd),
        Err(e) => Err(ServerError::CommandParsingError(e)),
    }
}

/// Whether a command survives the trip over the wire: its fields hold no
/// delimiter, and a contact request names someone.
pub open spec fn command_fields_ok(c: CommandView) -> bool {
    match c {
        CommandView::Register { username, nickname, password } => no_delim(username) && no_delim(
            nickname,
        ) && no_delim(password),
        CommandView::Connect { username, password } => no_delim(username) && no_delim(password),
        CommandView::RequestContact { username } => username.len() > 0,
    }
}

/// The frame of a command, read back by the server, gives the same command
/// and takes exactly the bytes of the frame, whatever follows it.
pub proof fn lemma_command_round_trip(c: CommandView, rest: Seq<u8>)
    requires
        command_fields_ok(c),
        encode_utf8(command_text(c)).len() <= u32::MAX,
    ensures
        fetch_result(command_frame(c) + rest) == Ok::<CommandView, ServerError>(c),
        frame_len(command_frame(c) + rest) == command_frame(c).len(),
{
    let t = command_text(c);
    let e = encode_utf8(t);
    let len = e.len() as u32;
    let b = command_frame(c) + rest;
    lemma_u32_round_trip(len);
    assert(b.subrange(1, 5) =~= be_bytes_u32(len));
    assert(b.subrange(5, 5 + len) =~= e);
    let framed_cmd = seq![b[0]] + b.subrange(5, 5 + len);
    assert(framed_cmd.subrange(1, framed_cmd.len() as int) =~= e);
    lemma_received_encoded(t);
    match c {
        CommandView::Register { username, nickname, password } => {
            let tail = joined(nickname, password);
            lemma_fields_of_joined(username, tail, 0);
            lemma_fields_of_joined(username, tail, 1);
            lemma_fields_of_joined(nickname, password, 0);
            lemma_single_field(password);
            lemma_encode_nonempty(t);
        },
        CommandView::Connect { username, password } => {
            lemma_fields_of_joined(username, password, 0);
            lemma_single_field(password);
            lemma_encode_nonempty(t);
        },
        CommandView::RequestContact { username } => {
            lemma_encode_nonempty(t);
        },
    }
}

/// A notification and the payload bytes that follow its tag.
pub struct ServerResponse {
    pub notification: Notification,
    pub data_bytes: BytesBuffer,
}

/// A reply on the wire: the tag, then the payload bytes, if any.
pub open spec fn response_frame(notification: Notification, payload: Seq<u8>) -> Seq<u8> {
    seq![notification_tag(notification)] + payload
}

impl ServerResponse {
    pub fn new(notification: Notification, data_bytes: BytesBuffer) -> (r: Self)
        ensures
            r.notification == notification,
            r.data_bytes == data_bytes,
    {
        Self { notification, data_bytes }
    }

    /// A reply with no payload.
    pub fn without_payload(notification: Notification) -> (r: Self)
        ensures
            r.notification == notification,
            r.data_bytes.wf(),
            r.data_bytes.unread() == Seq::<u8>::empty(),
    {
        Self::new(notification, BytesBuffer::empty())
    }

    /// A reply whose payload is `bytes` as a length-prefixed string.
    pub fn with_payload(notification: Notification, bytes: &Vec<u8>) -> (r: Self)
        requires
            bytes@.len() <= u32::MAX,
        ensures
            r.notification == notification,
            r.data_bytes.wf(),
            r.data_bytes.unread() == be_bytes_u32(bytes@.len() as u32) + bytes@,
    {
        let mut bytes_buffer = BytesBuffer::empty();
        bytes_buffer.write_bytes(&u32_as_bytes(bytes.len() as u32));
        bytes_buffer.write_bytes(bytes.as_slice());
        assert(bytes_buffer.unread() =~= be_bytes_u32(bytes@.len() as u32) + bytes@);
        Self::new(notification, bytes_buffer)
    }

    /// The frame written back to the client: the tag, then the unread
    /// payload bytes.
    pub fn to_frame(&mut self) -> (r: Vec<u8>)
        requires
            old(self).data_bytes.wf(),
        ensures
            r@ == response_frame(old(self).notification, old(self).data_bytes.unread()),
            final(self).notification == old(self).notification,
            final(self).data_bytes.wf(),
            final(self).data_bytes.unread() == Seq::<u8>::empty(),
    {
        let mut frame: Vec<u8> = Vec::new();
        frame.push(self.notification.tag());
        match self.data_bytes.read_all() {
            Some(data) => append_bytes(&mut frame, data),
            None => {},
        }
        assert(frame@ =~= response_frame(old(self).notification, old(self).data_bytes.unread()));
        frame
    }
}

/// The notification that tells the client why its command was not understood.
pub fn handle_cmd_parsing_error(error: CommandParsingError) -> (r: Notification)
    ensures
        error == CommandParsingError::UnknownCommand ==> r == Notification::UnknownCommand,
        error == CommandParsingError::InvalidPayload ==> r == Notification::InvalidPayload,
{
    match error {
        CommandParsingError::UnknownCommand => Notification::UnknownCommand,
        CommandParsingError::InvalidPayload => Notification::InvalidPayload,
    }
}

} // verus!
