//! The client's queue of received notifications, and what each one means
//! for the contact list.

use vstd::prelude::*;
use std::collections::VecDeque;
use crate::io::BytesBuffer;
use crate::messaging::Contact;
use crate::notification::Notification;
use crate::text::received_text;
use crate::utils::be_value_u32;

verus! {

/// Notifications with their payloads, oldest first.
pub struct NotificationsQueue {
    notifications: VecDeque<(Notification, BytesBuffer)>,
}

impl NotificationsQueue {
    /// The notifications waiting, oldest first.
    pub closed spec fn pending(&self) -> Seq<(Notification, BytesBuffer)> {
        self.notifications@
    }

    pub fn new() -> (r: Self)
        ensures
            r.pending() == Seq::<(Notification, BytesBuffer)>::empty(),
    {
        Self { notifications: VecDeque::new() }
    }

    pub fn push_notification(&mut self, notification: Notification, payload: BytesBuffer)
        ensures
            final(self).pending() == old(self).pending().push((notification, payload)),
    {
        self.notifications.push_back((notification, payload));
    }

    /// The oldest notification, taken off the queue.
    pub fn pop_notification(&mut self) -> (r: Option<(Notification, BytesBuffer)>)
        ensures
            old(self).pending().len() == 0 ==> r is None && final(self).pending() == old(
                self,
            ).pending(),
            old(self).pending().len() > 0 ==> {
                &&& r == Some(old(self).pending()[0])
                &&& final(self).pending() == old(self).pending().drop_first()
            },
    {
        let r = self.notifications.pop_front();
        proof {
            if old(self).pending().len() > 0 {
                assert(old(self).pending().drop_first() =~= old(self).pending().subrange(
                    1,
                    old(self).pending().len() as int,
                ));
            }
        }
        r
    }
}

/// What the contact list makes of a notification.
pub enum NotificationHandlerSignal {
    ContactReceived(Contact),
    ContactRetreivingFailed(String),
    Nothing,
}

pub struct ChatNotificationHandler;

impl ChatNotificationHandler {
    /// A contact for `ReceiveContactInfo` whose payload decodes, an error
    /// message for one that does not and for `UserNotFound`, and nothing for
    /// the other notifications.
    pub fn handle_notification(notification: Notification, payload: BytesBuffer) -> (r:
        NotificationHandlerSignal)
        requires
            payload.wf(),
        ensures
            notification == Notification::ReceiveContactInfo && payload.unread().len() > 4 ==> {
                &&& r matches NotificationHandlerSignal::ContactReceived(c)
                &&& c.id.0 == be_value_u32(payload.unread().subrange(0, 4))
                &&& c.nickname@ == received_text(
                    payload.unread().subrange(4, payload.unread().len() as int),
                )
            },
            notification == Notification::ReceiveContactInfo && payload.unread().len() <= 4 ==> {
                &&& r matches NotificationHandlerSignal::ContactRetreivingFailed(m)
                &&& m@ == "Error while retreiving user information"@
            },
            notification == Notification::UserNotFound ==> {
                &&& r matches NotificationHandlerSignal::ContactRetreivingFailed(m)
                &&& m@ == "User not found"@
            },
            notification != Notification::ReceiveContactInfo && notification
                != Notification::UserNotFound ==> r is Nothing,
    {
        let mut payload = payload;
        match notification {
            Notification::ReceiveContactInfo => match Contact::from_bytes(&mut payload) {
                Some(contact) => NotificationHandlerSignal::ContactReceived(contact),
                None => NotificationHandlerSignal::ContactRetreivingFailed(
                    String::from_str("Error while retreiving user information"),
                ),
            },
            Notification::UserNotFound => NotificationHandlerSignal::ContactRetreivingFailed(
                String::from_str("User not found"),
            ),
            _ => NotificationHandlerSignal::Nothing,
        }
    }
}

} // verus!
