use mxchat::auth::{User, UserId};
use mxchat::auth_page::{connect_reply, register_reply, AuthentificationPage, LoginPage, RegistrationPage};
use mxchat::contacts_panel::{ContactPanelEvent, ContactsPanel, ShowMainContentSignal};
use mxchat::io::BytesBuffer;
use mxchat::messaging::Contact;
use mxchat::messenger::{MessagingInstance, Messenger};
use mxchat::notification::Notification;
use mxchat::notifications_handler::{ChatNotificationHandler, NotificationHandlerSignal, NotificationsQueue};

fn contact_payload(id: u32, nickname: &str) -> BytesBuffer {
    BytesBuffer::from_bytes(Contact { id: UserId::new(id), nickname: nickname.to_string() }.to_bytes())
}

#[test]
fn registration_form() {
    let mut page = RegistrationPage::new();
    assert_eq!(page.host_name, "127.0.0.1");
    assert_eq!(page.port, "8080");
    assert!(!page.is_form_valid());
    page.registration_data.username = "alice".to_string();
    page.registration_data.nickname = "Alice".to_string();
    assert!(!page.is_form_valid());
    page.registration_data.password = "pw1".to_string();
    assert!(page.is_form_valid());
    page.clear();
    assert!(page.registration_data.username.is_empty());
    assert!(page.registration_data.password.is_empty());
    assert_eq!(page.host_name, "127.0.0.1");
}

#[test]
fn login_form_and_switch() {
    let mut page = LoginPage::new();
    page.connect_data.username = "alice".to_string();
    page.connect_data.password = "pw1".to_string();
    assert!(page.is_form_valid());
    page.port = String::new();
    assert!(!page.is_form_valid());
    page.clear();
    assert!(page.connect_data.username.is_empty());

    let mut auth = AuthentificationPage::new();
    assert!(!auth.registering);
    auth.switch_page();
    assert!(auth.registering);
    auth.switch_page();
    assert!(!auth.registering);
}

#[test]
fn replies_to_registration() {
    assert!(register_reply(Notification::UserRegistred).is_ok());
    assert_eq!(register_reply(Notification::UserAlreadyExist), Err("User already registered".to_string()));
    assert_eq!(register_reply(Notification::InvalidPayload), Err("Error while connecting to server".to_string()));
}

#[test]
fn replies_to_login() {
    let user = User { id: UserId::new(4), username: "alice".to_string(), nickname: "Alice".to_string() };
    let got = connect_reply(Notification::UserConnected, Some(BytesBuffer::from_bytes(user.to_bytes()))).unwrap();
    assert_eq!(got.id, UserId::new(4));
    assert_eq!(got.username, "alice");
    assert_eq!(got.nickname, "Alice");
    assert_eq!(connect_reply(Notification::UserConnected, None).err().unwrap(), "Cannot read user data from server");
    assert_eq!(connect_reply(Notification::UserConnected, Some(BytesBuffer::from_bytes(vec![0, 0, 0, 4, b'x']))).err().unwrap(), "Cannot read user data from server");
    assert_eq!(connect_reply(Notification::UserIsAlreadyConnected, None).err().unwrap(), "User is already connected");
    assert_eq!(connect_reply(Notification::UserNotFound, None).err().unwrap(), "User is not registered");
    assert_eq!(connect_reply(Notification::UserPasswordIncorrect, None).err().unwrap(), "Password is incorrect");
    assert_eq!(connect_reply(Notification::UnknownCommand, None).err().unwrap(), "Error while connecting to server");
}

#[test]
fn queue_is_first_in_first_out() {
    let mut queue = NotificationsQueue::new();
    assert!(queue.pop_notification().is_none());
    queue.push_notification(Notification::UserRegistred, BytesBuffer::empty());
    queue.push_notification(Notification::UserNotFound, BytesBuffer::empty());
    assert_eq!(queue.pop_notification().unwrap().0, Notification::UserRegistred);
    assert_eq!(queue.pop_notification().unwrap().0, Notification::UserNotFound);
    assert!(queue.pop_notification().is_none());
}

#[test]
fn notification_signals() {
    match ChatNotificationHandler::handle_notification(Notification::ReceiveContactInfo, contact_payload(9, "Bob")) {
        NotificationHandlerSignal::ContactReceived(c) => {
            assert_eq!(c.id, UserId::new(9));
            assert_eq!(c.nickname, "Bob");
        }
        _ => panic!("expected a contact"),
    }
    match ChatNotificationHandler::handle_notification(Notification::ReceiveContactInfo, BytesBuffer::from_bytes(vec![0, 0, 0, 9])) {
        NotificationHandlerSignal::ContactRetreivingFailed(m) => assert_eq!(m, "Error while retreiving user information"),
        _ => panic!("expected a failure"),
    }
    match ChatNotificationHandler::handle_notification(Notification::UserNotFound, BytesBuffer::empty()) {
        NotificationHandlerSignal::ContactRetreivingFailed(m) => assert_eq!(m, "User not found"),
        _ => panic!("expected a failure"),
    }
    assert!(matches!(
        ChatNotificationHandler::handle_notification(Notification::UserRegistred, BytesBuffer::empty()),
        NotificationHandlerSignal::Nothing
    ));
}

#[test]
fn messenger_drafts() {
    let mut messenger = Messenger::new();
    assert!(messenger.get_messaging_instance(UserId::new(1)).is_none());
    messenger.add_messsaging_instance(UserId::new(1));
    messenger.get_messaging_instance(UserId::new(1)).unwrap().text_to_send.push_str("hi");
    assert_eq!(messenger.get_messaging_instance(UserId::new(1)).unwrap().text_to_send, "hi");
    messenger.add_messsaging_instance(UserId::new(2));
    assert_eq!(messenger.get_messaging_instance(UserId::new(2)).unwrap().text_to_send, "");
    messenger.add_messsaging_instance(UserId::new(1));
    assert_eq!(messenger.get_messaging_instance(UserId::new(1)).unwrap().text_to_send, "");
    assert_eq!(MessagingInstance::new().text_to_send, "");
}

#[test]
fn contacts_panel_search_and_self_contact() {
    let mut panel = ContactsPanel::new("alice");
    assert!(panel.next_event().is_none());
    panel.request_contact();
    assert!(panel.next_event().is_none());
    panel.open_search();
    panel.request_contact();
    assert!(panel.next_event().is_none());

    let me = UserId::new(0);
    panel.handle_signal(NotificationHandlerSignal::ContactReceived(Contact { id: me, nickname: "Alice".to_string() }), me);
    assert!(panel.seletected_contact().is_none());
    panel.select_contact(0);
    assert!(panel.seletected_contact().is_none());

    panel.handle_signal(NotificationHandlerSignal::ContactReceived(Contact { id: UserId::new(1), nickname: "Bob".to_string() }), me);
    panel.select_contact(0);
    assert_eq!(panel.seletected_contact().unwrap().nickname, "Bob");
    assert!(panel.main_content_signal() == Some(ShowMainContentSignal::Conversation));

    panel.logout();
    assert!(matches!(panel.next_event(), Some(ContactPanelEvent::DisconnectUser)));
    assert!(panel.next_event().is_none());
}

#[test]
fn contacts_panel_request_flow() {
    let mut panel = ContactsPanel::new("alice");
    panel.open_search();
    panel.edit_search("bob");
    panel.request_contact();
    match panel.next_event() {
        Some(ContactPanelEvent::SendRequestContact(u)) => assert_eq!(u, "bob"),
        _ => panic!("expected a contact request"),
    }
    panel.request_contact();
    assert!(panel.next_event().is_none());
    panel.cancel_search();
    panel.handle_signal(NotificationHandlerSignal::ContactRetreivingFailed("User not found".to_string()), UserId::new(0));
    panel.cancel_search();
    panel.edit_search("carol");
    panel.request_contact();
    assert!(panel.next_event().is_none());
}
