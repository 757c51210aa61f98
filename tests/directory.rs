use mxchat::auth::{User, UserId};
use mxchat::command_handler::CommandHandler;
use mxchat::notification::Notification;
use mxchat::server_handler::ServerCommandHandler;
use mxchat::user::{InMemoryUserRepository, UserData, UserIdGenerator, UserRepository};

fn account(id: u32, username: &str, nickname: &str, password: &str) -> UserData {
    UserData {
        user: User { id: UserId::new(id), username: username.to_string(), nickname: nickname.to_string() },
        password: password.to_string(),
    }
}

#[test]
fn ids_start_at_zero_and_increase() {
    let mut generator = UserIdGenerator::new();
    assert_eq!(generator.next_id(), Some(UserId::new(0)));
    assert_eq!(generator.next_id(), Some(UserId::new(1)));
    assert_eq!(generator.next_id(), Some(UserId::new(2)));
}

#[test]
fn repository_finds_by_username() {
    let mut repo = InMemoryUserRepository::new();
    assert!(repo.find_user_with_username("alice").is_none());
    repo.add_user(account(0, "alice", "Alice", "pw1"));
    repo.add_user(account(1, "bob", "BobNick", "pw2"));
    let found = repo.find_user_with_username("bob").unwrap();
    assert_eq!(found.user.id, UserId::new(1));
    assert_eq!(found.user.nickname, "BobNick");
    assert_eq!(found.password, "pw2");
    assert!(repo.find_user_with_username("Bob").is_none());
}

#[test]
fn handler_over_a_given_repository() {
    let mut handler = ServerCommandHandler::with_repository(InMemoryUserRepository::new());
    let data = mxchat::auth::UserRegisterData {
        username: "x".to_string(),
        nickname: "X".to_string(),
        password: "p".to_string(),
    };
    assert_eq!(handler.handle_register_cmd(data).notification, Notification::UserRegistred);
    assert_eq!(handler.handle_request_contact_cmd("x").notification, Notification::ReceiveContactInfo);
}
