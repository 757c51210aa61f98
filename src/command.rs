//! Client-to-server commands: tag byte, then a `;`-separated text payload.

use vstd::prelude::*;
use vstd::utf8::*;
use crate::auth::{register_text, UserConnectData, UserRegisterData};
use crate::io::BytesBuffer;
use crate::text::{decode_lossy, field, has_field, joined, received_text};
use crate::utils;
use crate::utils::be_bytes_u32;

verus! {

#[derive(Debug)]
pub enum Command {
    Register(UserRegisterData),
    Connect(UserConnectData),
    RequestContact(String),
}

/// A command with its text fields as character sequences.
pub enum CommandView {
    Register { username: Seq<char>, nickname: Seq<char>, password: Seq<char> },
    Connect { username: Seq<char>, password: Seq<char> },
    RequestContact { username: Seq<char> },
}

impl View for Command {
    type V = CommandView;

    open spec fn view(&self) -> CommandView {
        match self {
            Command::Register(d) => CommandView::Register {
                username: d.username@,
                nickname: d.nickname@,
                password: d.password@,
            },
            Command::Connect(d) => CommandView::Connect {
                username: d.username@,
                password: d.password@,
            },
            Command::RequestContact(u) => CommandView::RequestContact { username: u@ },
        }
    }
}

#[derive(Debug, Copy, Clone, PartialEq, Eq, Structural)]
pub enum CommandParsingError {
    UnknownCommand,
    InvalidPayload,
}

/// The tag byte of a command.
pub open spec fn command_tag(c: CommandView) -> u8 {
    match c {
        CommandView::Register { .. } => 0,
        CommandView::Connect { .. } => 1,
        CommandView::RequestContact { .. } => 2,
    }
}

/// The text a command carries after its tag.
pub open spec fn command_text(c: CommandView) -> Seq<char> {
    match c {
        CommandView::Register { username, nickname, password } => register_text(
            username,
            nickname,
            password,
        ),
        CommandView::Connect { username, password } => joined(username, password),
        CommandView::RequestContact { username } => username,
    }
}

/// A length-prefixed byte string: four big-endian length bytes, then the bytes.
pub open spec fn framed(b: Seq<u8>) -> Seq<u8> {
    be_bytes_u32(b.len() as u32) + b
}

/// A command on the wire: tag, then its text as a length-prefixed string.
pub open spec fn command_frame(c: CommandView) -> Seq<u8> {
    seq![command_tag(c)] + framed(encode_utf8(command_text(c)))
}

/// What a tag followed by a payload decodes to.
pub open spec fn decode_command(b: Seq<u8>) -> Result<CommandView, CommandParsingError> {
    if b.len() == 0 {
        Err(CommandParsingError::InvalidPayload)
    } else if b[0] > 2 {
        Err(CommandParsingError::UnknownCommand)
    } else if b.len() == 1 {
        Err(CommandParsingError::InvalidPayload)
    } else {
        let text = received_text(b.subrange(1, b.len() as int));
        if b[0] == 0 {
            if has_field(text, 2) {
                Ok(
                    CommandView::Register {
                        username: field(text, 0),
                        nickname: field(text, 1),
                        password: field(text, 2),
                    },
                )
            } else {
                Err(CommandParsingError::InvalidPayload)
            }
        } else if b[0] == 1 {
            if has_field(text, 1) {
                Ok(CommandView::Connect { username: field(text, 0), password: field(text, 1) })
            } else {
                Err(CommandParsingError::InvalidPayload)
            }
        } else {
            Ok(CommandView::RequestContact { username: text })
        }
    }
}

/// A decoding result with the command seen through its view.
pub open spec fn decoded_view(r: Result<Command, CommandParsingError>) -> Result<
    CommandView,
    CommandParsingError,
> {
    match r {
        Ok(c) => Ok(c@),
        Err(e) => Err(e),
    }
}

/// The bytes of `s` on the wire as a length-prefixed string.
pub open spec fn framed_text(s: Seq<char>) -> Seq<u8> {
    framed(encode_utf8(s))
}

impl Command {
    /// Reads a tag byte and decodes the rest of the buffer as that command's
    /// payload.
    pub fn from_bytes(bytes_buffer: &mut BytesBuffer) -> (r: Result<Self, CommandParsingError>)
        requires
            old(bytes_buffer).wf(),
        ensures
            final(bytes_buffer).wf(),
            final(bytes_buffer).data() == old(bytes_buffer).data(),
            decoded_view(r) == decode_command(old(bytes_buffer).unread()),
            old(bytes_buffer).unread().len() == 0 ==> final(bytes_buffer).pos()
                == old(bytes_buffer).pos(),
            old(bytes_buffer).unread().len() > 0 && old(bytes_buffer).unread()[0] > 2
                ==> final(bytes_buffer).pos() == old(bytes_buffer).pos() + 1,
            old(bytes_buffer).unread().len() > 0 && old(bytes_buffer).unread()[0] <= 2
                ==> final(bytes_buffer).unread() == Seq::<u8>::empty(),
    {
        let ghost b = bytes_buffer.unread();
        let cmd_type = match bytes_buffer.read_bytes(1) {
            Some(s) => s[0],
            None => return Err(CommandParsingError::InvalidPayload),
        };
        assert(bytes_buffer.unread() =~= b.subrange(1, b.len() as int));
        assert(seq![cmd_type] + bytes_buffer.unread() =~= b);
        match cmd_type {
            0 => Self::parse_register_cmd(bytes_buffer),
            1 => Self::parse_connect_cmd(bytes_buffer),
            2 => Self::parse_request_contact_cmd(bytes_buffer),
            _ => Err(CommandParsingError::UnknownCommand),
        }
    }

    fn parse_register_cmd(bytes_buffer: &mut BytesBuffer) -> (r: Result<Self, CommandParsingError>)
        requires
            old(bytes_buffer).wf(),
        ensures
            final(bytes_buffer).wf(),
            final(bytes_buffer).data() == old(bytes_buffer).data(),
            final(bytes_buffer).unread() == Seq::<u8>::empty(),
            decoded_view(r) == decode_command(seq![0u8] + old(bytes_buffer).unread()),
    {
        let ghost b = seq![0u8] + bytes_buffer.unread();
        let bytes = match bytes_buffer.read_all() {
            Some(s) => s,
            None => return Err(CommandParsingError::InvalidPayload),
        };
        assert(bytes@ =~= b.subrange(1, b.len() as int));
        let data_str = decode_lossy(bytes);
        match UserRegisterData::new(data_str.as_str()) {
            Some(register_data) => Ok(Command::Register(register_data)),
            None => Err(CommandParsingError::InvalidPayload),
        }
    }

    fn parse_connect_cmd(bytes_buffer: &mut BytesBuffer) -> (r: Result<Self, CommandParsingError>)
        requires
            old(bytes_buffer).wf(),
        ensures
            final(bytes_buffer).wf(),
            final(bytes_buffer).data() == old(bytes_buffer).data(),
            final(bytes_buffer).unread() == Seq::<u8>::empty(),
            decoded_view(r) == decode_command(seq![1u8] + old(bytes_buffer).unread()),
    {
        let ghost b = seq![1u8] + bytes_buffer.unread();
        let bytes = match bytes_buffer.read_all() {
            Some(s) => s,
            None => return Err(CommandParsingError::InvalidPayload),
        };
        assert(bytes@ =~= b.subrange(1, b.len() as int));
        let data_str = decode_lossy(bytes);
        match UserConnectData::new(data_str.as_str()) {
            Some(connect_data) => Ok(Command::Connect(connect_data)),
            None => Err(CommandParsingError::InvalidPayload),
        }
    }

    fn parse_request_contact_cmd(bytes_buffer: &mut BytesBuffer) -> (r: Result<
        Self,
        CommandParsingError,
    >)
        requires
            old(bytes_buffer).wf(),
        ensures
            final(bytes_buffer).wf(),
            final(bytes_buffer).data() == old(bytes_buffer).data(),
            final(bytes_buffer).unread() == Seq::<u8>::empty(),
            decoded_view(r) == decode_command(seq![2u8] + old(bytes_buffer).unread()),
    {
        let ghost b = seq![2u8] + bytes_buffer.unread();
        let bytes = match bytes_buffer.read_all() {
            Some(s) => s,
            None => return Err(CommandParsingError::InvalidPayload),
        };
        assert(bytes@ =~= b.subrange(1, b.len() as int));
        let username = decode_lossy(bytes);
        Ok(Command::RequestContact(username))
    }

    /// Writes the frame of this command: tag, then its text as a
    /// length-prefixed string.
    pub fn to_bytes(&self, bytes_buffer: &mut BytesBuffer)
        requires
            old(bytes_buffer).wf(),
            encode_utf8(command_text(self@)).len() <= u32::MAX,
        ensures
            final(bytes_buffer).wf(),
            final(bytes_buffer).pos() == old(bytes_buffer).pos(),
            final(bytes_buffer).data() == old(bytes_buffer).data() + command_frame(self@),
            final(bytes_buffer).unread() == old(bytes_buffer).unread() + command_frame(self@),
    {
        let ghost before_data = bytes_buffer.data();
        let ghost before_unread = bytes_buffer.unread();
        match self {
            Command::Register(user_register_data) => {
                bytes_buffer.write_bytes(&[0]);
                utils::write_string_to_bytes_buffer(
                    bytes_buffer,
                    user_register_data.to_string().as_str(),
                );
            },
            Command::Connect(user_connect_data) => {
                bytes_buffer.write_bytes(&[1]);
                utils::write_string_to_bytes_buffer(
                    bytes_buffer,
                    user_connect_data.to_string().as_str(),
                );
            },
            Command::RequestContact(username) => {
                bytes_buffer.write_bytes(&[2]);
                utils::write_string_to_bytes_buffer(bytes_buffer, username.as_str());
            },
        }
        assert(bytes_buffer.data() =~= before_data + command_frame(self@));
        assert(bytes_buffer.unread() =~= before_unread + command_frame(self@));
    }
}

} // verus!
