//! Server-to-client notifications and their one-byte tags.

use vstd::prelude::*;

verus! {

/// The reply of the server to one command. The tag of each variant is its
/// position in this list, from 0.
#[derive(Debug, Copy, Clone, PartialEq, Eq, Structural)]
pub enum Notification {
    UnknownCommand,
    InvalidPayload,
    UserRegistred,
    UserAlreadyExist,
    UserConnected,
    UserIsAlreadyConnected,
    UserNotFound,
    UserPasswordIncorrect,
    ReceiveContactInfo,
}

/// The tag byte of `n` on the wire.
pub open spec fn notification_tag(n: Notification) -> u8 {
    match n {
        Notification::UnknownCommand => 0,
        Notification::InvalidPayload => 1,
        Notification::UserRegistred => 2,
        Notification::UserAlreadyExist => 3,
        Notification::UserConnected => 4,
        Notification::UserIsAlreadyConnected => 5,
        Notification::UserNotFound => 6,
        Notification::UserPasswordIncorrect => 7,
        Notification::ReceiveContactInfo => 8,
    }
}

/// The notification whose tag is `t`, where there is one.
pub open spec fn notification_of_tag(t: u8) -> Option<Notification> {
    if t == 0 {
        Some(Notification::UnknownCommand)
    } else if t == 1 {
        Some(Notification::InvalidPayload)
    } else if t == 2 {
        Some(Notification::UserRegistred)
    } else if t == 3 {
        Some(Notification::UserAlreadyExist)
    } else if t == 4 {
        Some(Notification::UserConnected)
    } else if t == 5 {
        Some(Notification::UserIsAlreadyConnected)
    } else if t == 6 {
        Some(Notification::UserNotFound)
    } else if t == 7 {
        Some(Notification::UserPasswordIncorrect)
    } else if t == 8 {
        Some(Notification::ReceiveContactInfo)
    } else {
        None
    }
}

/// Whether a frame of `n` carries a length-prefixed payload after its tag.
pub open spec fn carries_payload(n: Notification) -> bool {
    n == Notification::UserConnected || n == Notification::ReceiveContactInfo
}

impl Notification {
    pub fn has_payload(self) -> (r: bool)
        ensures
            r == carries_payload(self),
    {
        match self {
            Notification::UnknownCommand => false,
            Notification::InvalidPayload => false,
            Notification::UserRegistred => false,
            Notification::UserAlreadyExist => false,
            Notification::UserPasswordIncorrect => false,
            Notification::UserIsAlreadyConnected => false,
            Notification::UserNotFound => false,
            Notification::UserConnected => true,
            Notification::ReceiveContactInfo => true,
        }
    }

    /// The tag byte of this notification.
    pub fn tag(self) -> (r: u8)
        ensures
            r == notification_tag(self),
    {
        match self {
            Notification::UnknownCommand => 0,
            Notification::InvalidPayload => 1,
            Notification::UserRegistred => 2,
            Notification::UserAlreadyExist => 3,
            Notification::UserConnected => 4,
            Notification::UserIsAlreadyConnected => 5,
            Notification::UserNotFound => 6,
            Notification::UserPasswordIncorrect => 7,
            Notification::ReceiveContactInfo => 8,
        }
    }
}

impl TryFrom<u8> for Notification {
    type Error = ();

    fn try_from(value: u8) -> (r: Result<Self, ()>)
        ensures
            r == match notification_of_tag(value) {
                Some(n) => Ok::<Notification, ()>(n),
                None => Err(()),
            },
    {
        match value {
            0 => Ok(Notification::UnknownCommand),
            1 => Ok(Notification::InvalidPayload),
            2 => Ok(Notification::UserRegistred),
            3 => Ok(Notification::UserAlreadyExist),
            4 => Ok(Notification::UserConnected),
            5 => Ok(Notification::UserIsAlreadyConnected),
            6 => Ok(Notification::UserNotFound),
            7 => Ok(Notification::UserPasswordIncorrect),
            8 => Ok(Notification::ReceiveContactInfo),
            _ => Err(()),
        }
    }
}

impl vstd::std_specs::convert::TryFromSpecImpl<u8> for Notification {
    open spec fn obeys_try_from_spec() -> bool {
        true
    }

    open spec fn try_from_spec(v: u8) -> Result<Self, ()> {
        match notification_of_tag(v) {
            Some(n) => Ok(n),
            None => Err(()),
        }
    }
}

/// Every notification is read back from its tag, and no other byte names one.
pub proof fn lemma_tag_round_trip(n: Notification, t: u8)
    ensures
        notification_of_tag(notification_tag(n)) == Some(n),
        notification_of_tag(t) matches Some(m) ==> notification_tag(m) == t,
        notification_of_tag(t) is Some <==> t <= 8,
{
}

} // verus!
