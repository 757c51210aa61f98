use mxchat::auth::{User, UserConnectData, UserId, UserRegisterData};
use mxchat::command::{Command, CommandParsingError};
use mxchat::command_handler::{handle_command, CommandHandler};
use mxchat::io::BytesBuffer;
use mxchat::messaging::Contact;
use mxchat::networking::{read_notification, read_notification_payload};
use mxchat::notification::Notification;
use mxchat::server::{fetch_command, handle_cmd_parsing_error, ServerConnectionData, ServerError};
use mxchat::server_handler::ServerCommandHandler;

fn register(username: &str, nickname: &str, password: &str) -> UserRegisterData {
    UserRegisterData {
        username: username.to_string(),
        nickname: nickname.to_string(),
        password: password.to_string(),
    }
}

fn connect(username: &str, password: &str) -> UserConnectData {
    UserConnectData { username: username.to_string(), password: password.to_string() }
}

fn frame_of(cmd: &Command) -> Vec<u8> {
    let mut buffer = BytesBuffer::empty();
    cmd.to_bytes(&mut buffer);
    buffer.read_all().unwrap().to_vec()
}

fn fetch(bytes: Vec<u8>) -> Result<Command, ServerError> {
    fetch_command(&mut BytesBuffer::from_bytes(bytes))
}

#[test]
fn register_frame_layout() {
    let bytes = frame_of(&Command::Register(register("al", "A", "p")));
    assert_eq!(bytes, vec![0, 0, 0, 0, 6, b'a', b'l', b';', b'A', b';', b'p']);
}

#[test]
fn connect_and_contact_frame_layout() {
    assert_eq!(frame_of(&Command::Connect(connect("a", "b"))), vec![1, 0, 0, 0, 3, b'a', b';', b'b']);
    assert_eq!(frame_of(&Command::RequestContact("bob".to_string())), vec![2, 0, 0, 0, 3, b'b', b'o', b'b']);
}

#[test]
fn register_round_trip_with_multibyte_names() {
    let bytes = frame_of(&Command::Register(register("zoë", "Ünïcødé 名前", "pässwörd")));
    match fetch(bytes).ok().unwrap() {
        Command::Register(d) => {
            assert_eq!(d.username, "zoë");
            assert_eq!(d.nickname, "Ünïcødé 名前");
            assert_eq!(d.password, "pässwörd");
        }
        _ => panic!("not a registration"),
    }
}

#[test]
fn connect_round_trip() {
    match fetch(frame_of(&Command::Connect(connect("alice", "pw1")))).ok().unwrap() {
        Command::Connect(d) => {
            assert_eq!(d.username, "alice");
            assert_eq!(d.password, "pw1");
        }
        _ => panic!("not a login"),
    }
}

#[test]
fn request_contact_round_trip_keeps_delimiters() {
    match fetch(frame_of(&Command::RequestContact("b;ob".to_string()))).ok().unwrap() {
        Command::RequestContact(u) => assert_eq!(u, "b;ob"),
        _ => panic!("not a contact request"),
    }
}

#[test]
fn invalid_utf8_is_replaced_not_rejected() {
    let bytes = vec![2, 0, 0, 0, 3, b'a', 0xFF, b'b'];
    match fetch(bytes).ok().unwrap() {
        Command::RequestContact(u) => assert_eq!(u, "a\u{FFFD}b"),
        _ => panic!("not a contact request"),
    }
}

#[test]
fn unknown_tag_and_missing_fields() {
    assert_eq!(fetch(vec![7, 0, 0, 0, 1, b'x']).err(), Some(ServerError::CommandParsingError(CommandParsingError::UnknownCommand)));
    assert_eq!(fetch(vec![0, 0, 0, 0, 3, b'a', b';', b'b']).err(), Some(ServerError::CommandParsingError(CommandParsingError::InvalidPayload)));
    assert_eq!(fetch(vec![1, 0, 0, 0, 2, b'a', b'b']).err(), Some(ServerError::CommandParsingError(CommandParsingError::InvalidPayload)));
    assert_eq!(fetch(vec![2, 0, 0, 0, 0]).err(), Some(ServerError::CommandParsingError(CommandParsingError::InvalidPayload)));
}

#[test]
fn extra_fields_are_ignored() {
    match fetch(vec![1, 0, 0, 0, 5, b'a', b';', b'b', b';', b'c']).ok().unwrap() {
        Command::Connect(d) => {
            assert_eq!(d.username, "a");
            assert_eq!(d.password, "b");
        }
        _ => panic!("not a login"),
    }
}

#[test]
fn short_frames_are_missing_data() {
    assert_eq!(fetch(vec![]).err(), Some(ServerError::MissingCommandData));
    assert_eq!(fetch(vec![0, 0, 0]).err(), Some(ServerError::MissingCommandData));
    assert_eq!(fetch(vec![2, 0, 0, 0, 4, b'a']).err(), Some(ServerError::MissingCommandData));
}

#[test]
fn parsing_errors_become_notifications() {
    assert_eq!(handle_cmd_parsing_error(CommandParsingError::UnknownCommand), Notification::UnknownCommand);
    assert_eq!(handle_cmd_parsing_error(CommandParsingError::InvalidPayload), Notification::InvalidPayload);
}

#[test]
fn notification_tags() {
    let all = [
        Notification::UnknownCommand,
        Notification::InvalidPayload,
        Notification::UserRegistred,
        Notification::UserAlreadyExist,
        Notification::UserConnected,
        Notification::UserIsAlreadyConnected,
        Notification::UserNotFound,
        Notification::UserPasswordIncorrect,
        Notification::ReceiveContactInfo,
    ];
    for (i, n) in all.iter().enumerate() {
        assert_eq!(n.tag() as usize, i);
        assert_eq!(Notification::try_from(i as u8), Ok(*n));
        assert_eq!(n.has_payload(), i == 4 || i == 8);
    }
    assert_eq!(Notification::try_from(9u8), Err(()));
}

#[test]
fn user_bytes_round_trip() {
    let user = User { id: UserId::new(7), username: "élise".to_string(), nickname: "Élise 🙂".to_string() };
    let bytes = user.to_bytes();
    assert_eq!(&bytes[..4], &[0, 0, 0, 7]);
    let back = User::from_bytes(&mut BytesBuffer::from_bytes(bytes)).unwrap();
    assert_eq!(back.id, UserId::new(7));
    assert_eq!(back.username, "élise");
    assert_eq!(back.nickname, "Élise 🙂");
}

#[test]
fn contact_bytes_round_trip_and_empty_nickname() {
    let contact = Contact { id: UserId::new(3), nickname: "BobNick".to_string() };
    let back = Contact::from_bytes(&mut BytesBuffer::from_bytes(contact.to_bytes())).unwrap();
    assert_eq!(back.id, UserId::new(3));
    assert_eq!(back.nickname, "BobNick");
    let empty = Contact { id: UserId::new(3), nickname: String::new() };
    assert!(Contact::from_bytes(&mut BytesBuffer::from_bytes(empty.to_bytes())).is_none());
}

#[test]
fn register_data_text() {
    let d = register("a", "b", "c");
    assert_eq!(d.to_string(), "a;b;c");
    assert!(UserRegisterData::new("a;b").is_none());
    let parsed = UserRegisterData::new(";;").unwrap();
    assert_eq!((parsed.username.as_str(), parsed.nickname.as_str(), parsed.password.as_str()), ("", "", ""));
    assert_eq!(connect("u", "p").to_string(), "u;p");
    assert!(UserConnectData::new("up").is_none());
}

fn reply(handler: &mut ServerCommandHandler<mxchat::user::InMemoryUserRepository>, conn: &mut ServerConnectionData, cmd: Command) -> (Notification, Vec<u8>) {
    let mut response = handle_command(cmd, handler, conn);
    let frame = response.to_frame();
    (response.notification, frame)
}

#[test]
fn directory_uniqueness() {
    let mut handler = ServerCommandHandler::new();
    let mut conn = ServerConnectionData { user_id: None };
    let (n, frame) = reply(&mut handler, &mut conn, Command::Register(register("alice", "Alice", "pw1")));
    assert_eq!(n, Notification::UserRegistred);
    assert_eq!(frame, vec![2]);
    let (n, frame) = reply(&mut handler, &mut conn, Command::Register(register("alice", "Other", "pw2")));
    assert_eq!(n, Notification::UserAlreadyExist);
    assert_eq!(frame, vec![3]);
}

#[test]
fn authentication_flow() {
    let mut handler = ServerCommandHandler::new();
    let mut conn = ServerConnectionData { user_id: None };
    let (n, _) = reply(&mut handler, &mut conn, Command::Connect(connect("alice", "wrong")));
    assert_eq!(n, Notification::UserNotFound);
    reply(&mut handler, &mut conn, Command::Register(register("alice", "Alice", "pw1")));
    let (n, _) = reply(&mut handler, &mut conn, Command::Connect(connect("alice", "wrong")));
    assert_eq!(n, Notification::UserPasswordIncorrect);
    assert!(conn.user_id.is_none());
    let (n, frame) = reply(&mut handler, &mut conn, Command::Connect(connect("alice", "pw1")));
    assert_eq!(n, Notification::UserConnected);
    assert_eq!(conn.user_id, Some(UserId::new(0)));

    let mut wire = BytesBuffer::from_bytes(frame);
    let notification = read_notification(&mut wire).unwrap();
    assert_eq!(notification, Notification::UserConnected);
    assert!(notification.has_payload());
    let mut payload = read_notification_payload(&mut wire).unwrap();
    let user = User::from_bytes(&mut payload).unwrap();
    assert_eq!(user.id, UserId::new(0));
    assert_eq!(user.username, "alice");
    assert_eq!(user.nickname, "Alice");

    let (n, _) = reply(&mut handler, &mut conn, Command::Connect(connect("bob", "x")));
    assert_eq!(n, Notification::UserIsAlreadyConnected);
    assert_eq!(conn.user_id, Some(UserId::new(0)));
}

#[test]
fn contact_lookup() {
    let mut handler = ServerCommandHandler::new();
    let mut conn = ServerConnectionData { user_id: None };
    let (n, _) = reply(&mut handler, &mut conn, Command::RequestContact("bob".to_string()));
    assert_eq!(n, Notification::UserNotFound);
    reply(&mut handler, &mut conn, Command::Register(register("alice", "Alice", "pw1")));
    reply(&mut handler, &mut conn, Command::Register(register("bob", "BobNick", "pw2")));
    let (n, frame) = reply(&mut handler, &mut conn, Command::RequestContact("bob".to_string()));
    assert_eq!(n, Notification::ReceiveContactInfo);
    let mut wire = BytesBuffer::from_bytes(frame);
    assert_eq!(read_notification(&mut wire), Some(Notification::ReceiveContactInfo));
    let mut payload = read_notification_payload(&mut wire).unwrap();
    let contact = Contact::from_bytes(&mut payload).unwrap();
    assert_eq!(contact.id, UserId::new(1));
    assert_eq!(contact.nickname, "BobNick");
}

#[test]
fn repeated_registrations_only_first_wins() {
    let mut handler = ServerCommandHandler::new();
    let mut conn = ServerConnectionData { user_id: None };
    let mut registered = 0;
    for i in 0..16 {
        let (n, _) = reply(&mut handler, &mut conn, Command::Register(register("same", &format!("n{i}"), "pw")));
        match n {
            Notification::UserRegistred => registered += 1,
            Notification::UserAlreadyExist => {}
            other => panic!("unexpected {other:?}"),
        }
    }
    assert_eq!(registered, 1);
}

#[test]
fn ids_are_given_in_order() {
    let mut handler = ServerCommandHandler::new();
    let mut conn = ServerConnectionData { user_id: None };
    for name in ["a", "b", "c"] {
        reply(&mut handler, &mut conn, Command::Register(register(name, name, "pw")));
    }
    let mut r = handler.handle_request_contact_cmd("c");
    assert_eq!(r.notification, Notification::ReceiveContactInfo);
    assert_eq!(r.to_frame(), vec![8, 0, 0, 0, 5, 0, 0, 0, 2, b'c']);
}
