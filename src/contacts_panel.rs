//! The contact list of the client: its search state, its contacts, and
//! the requests it hands to the connection.

use vstd::prelude::*;
use crate::auth::UserId;
use crate::messaging::Contact;
use crate::notifications_handler::NotificationHandlerSignal;

verus! {

pub enum ContactPanelEvent {
    SendRequestContact(String),
    DisconnectUser,
}

/// Where the search for a contact stands.
pub enum JobStatus {
    Idle,
    InProgress,
    Failed(String),
}

/// What the main area of the window shows.
#[derive(Clone, Copy, PartialEq, Eq, Structural)]
pub enum ShowMainContentSignal {
    UserData,
    Conversation,
}

pub struct ContactsPanel {
    content_show_signal: Option<ShowMainContentSignal>,
    contacts: Vec<Contact>,
    searched_contact: Option<String>,
    contact_search_job_status: JobStatus,
    event: Option<ContactPanelEvent>,
    selected_contact: Option<usize>,
    username: String,
}

impl ContactsPanel {
    pub closed spec fn contacts(&self) -> Seq<Contact> {
        self.contacts@
    }

    pub closed spec fn status(&self) -> JobStatus {
        self.contact_search_job_status
    }

    pub closed spec fn searched(&self) -> Option<String> {
        self.searched_contact
    }

    pub closed spec fn pending_event(&self) -> Option<ContactPanelEvent> {
        self.event
    }

    pub closed spec fn selected(&self) -> Option<usize> {
        self.selected_contact
    }

    pub closed spec fn shown(&self) -> Option<ShowMainContentSignal> {
        self.content_show_signal
    }

    pub closed spec fn owner(&self) -> Seq<char> {
        self.username@
    }

    /// An empty list for the user `username`.
    pub fn new(username: &str) -> (r: Self)
        ensures
            r.contacts() == Seq::<Contact>::empty(),
            r.status() is Idle,
            r.searched() is None,
            r.pending_event() is None,
            r.selected() is None,
            r.shown() is None,
            r.owner() == username@,
    {
        Self {
            content_show_signal: None,
            contacts: Vec::new(),
            searched_contact: None,
            contact_search_job_status: JobStatus::Idle,
            event: None,
            selected_contact: None,
            username: username.to_owned(),
        }
    }

    pub fn main_content_signal(&self) -> (r: Option<ShowMainContentSignal>)
        ensures
            r == self.shown(),
    {
        self.content_show_signal
    }

    /// The event waiting to be handled, taken off the panel.
    pub fn next_event(&mut self) -> (r: Option<ContactPanelEvent>)
        ensures
            r == old(self).pending_event(),
            final(self).pending_event() is None,
            final(self).contacts() == old(self).contacts(),
            final(self).status() == old(self).status(),
            final(self).searched() == old(self).searched(),
    {
        self.event.take()
    }

    /// Starts a search: an empty search text.
    pub fn open_search(&mut self)
        ensures
            final(self).searched() matches Some(s) && s@ == Seq::<char>::empty(),
            final(self).contacts() == old(self).contacts(),
            final(self).status() == old(self).status(),
            final(self).pending_event() == old(self).pending_event(),
    {
        self.searched_contact = Some(String::new());
    }

    /// Replaces the search text, where a search is open.
    pub fn edit_search(&mut self, text: &str)
        ensures
            old(self).searched() is Some ==> (final(self).searched() matches Some(s) && s@
                == text@),
            old(self).searched() is None ==> final(self).searched() is None,
            final(self).contacts() == old(self).contacts(),
            final(self).status() == old(self).status(),
            final(self).pending_event() == old(self).pending_event(),
    {
        if self.searched_contact.is_some() {
            self.searched_contact = Some(text.to_owned());
        }
    }

    /// Closes the search, unless a request is out.
    pub fn cancel_search(&mut self)
        ensures
            old(self).status() is InProgress ==> final(self).searched() == old(self).searched()
                && final(self).status() == old(self).status(),
            !(old(self).status() is InProgress) ==> final(self).searched() is None
                && final(self).status() is Idle,
            final(self).contacts() == old(self).contacts(),
            final(self).pending_event() == old(self).pending_event(),
    {
        match self.contact_search_job_status {
            JobStatus::InProgress => {},
            _ => {
                self.searched_contact = None;
                self.contact_search_job_status = JobStatus::Idle;
            },
        }
    }

    /// Asks for the contact whose username is the search text, unless the
    /// text is empty or a request is already out.
    pub fn request_contact(&mut self)
        ensures
            final(self).contacts() == old(self).contacts(),
            final(self).searched() == old(self).searched(),
            match old(self).searched() {
                Some(s) if s@.len() > 0 && !(old(self).status() is InProgress) => {
                    &&& final(self).status() is InProgress
                    &&& final(self).pending_event() matches Some(
                        ContactPanelEvent::SendRequestContact(u),
                    ) && u@ == s@
                },
                _ => final(self).status() == old(self).status() && final(self).pending_event()
                    == old(self).pending_event(),
            },
    {
        let in_progress = match self.contact_search_job_status {
            JobStatus::InProgress => true,
            _ => false,
        };
        if in_progress {
            return;
        }
        let username = match &self.searched_contact {
            Some(s) => {
                if s.as_str().is_empty() {
                    return;
                }
                s.clone()
            },
            None => return,
        };
        self.contact_search_job_status = JobStatus::InProgress;
        self.event = Some(ContactPanelEvent::SendRequestContact(username));
    }

    /// Asks for the connection to be closed.
    pub fn logout(&mut self)
        ensures
            final(self).pending_event() matches Some(ContactPanelEvent::DisconnectUser),
            final(self).contacts() == old(self).contacts(),
            final(self).status() == old(self).status(),
            final(self).searched() == old(self).searched(),
    {
        self.event = Some(ContactPanelEvent::DisconnectUser);
    }

    /// Adds a contact that the server sent and ends the search.
    pub fn add_contact(&mut self, contact: Contact)
        ensures
            final(self).contacts() == old(self).contacts().push(contact),
            final(self).status() is Idle,
            old(self).searched() is None ==> final(self).searched() is None,
            old(self).searched() is Some ==> (final(self).searched() matches Some(s) && s@
                == Seq::<char>::empty()),
            final(self).pending_event() == old(self).pending_event(),
    {
        self.contacts.push(contact);
        self.contact_search_job_status = JobStatus::Idle;
        if self.searched_contact.is_some() {
            self.searched_contact = Some(String::new());
        }
    }

    /// Records why the search failed.
    pub fn contact_search_failed(&mut self, error_message: &str)
        ensures
            final(self).status() matches JobStatus::Failed(m) && m@ == error_message@,
            final(self).contacts() == old(self).contacts(),
            final(self).searched() == old(self).searched(),
            final(self).pending_event() == old(self).pending_event(),
    {
        self.contact_search_job_status = JobStatus::Failed(error_message.to_owned());
    }

    /// Shows the conversation with the contact at `index`.
    pub fn select_contact(&mut self, index: usize)
        ensures
            index < old(self).contacts().len() ==> final(self).selected() == Some(index)
                && final(self).shown() == Some(ShowMainContentSignal::Conversation),
            index >= old(self).contacts().len() ==> final(self).selected() == old(self).selected()
                && final(self).shown() == old(self).shown(),
            final(self).contacts() == old(self).contacts(),
    {
        if index < self.contacts.len() {
            self.selected_contact = Some(index);
            self.content_show_signal = Some(ShowMainContentSignal::Conversation);
        }
    }

    pub fn seletected_contact(&self) -> (r: Option<&Contact>)
        ensures
            match self.selected() {
                Some(i) if i < self.contacts().len() => r == Some(&self.contacts()[i as int]),
                _ => r is None,
            },
    {
        match self.selected_contact {
            Some(index) => {
                if index < self.contacts.len() {
                    Some(&self.contacts[index])
                } else {
                    None
                }
            },
            None => None,
        }
    }

    /// Applies what a notification means for the list: a received contact
    /// is added unless it is the user itself, which fails the search
    /// instead; a failure is recorded.
    pub fn handle_signal(&mut self, signal: NotificationHandlerSignal, current_user: UserId)
        ensures
            match signal {
                NotificationHandlerSignal::ContactReceived(c) => if c.id != current_user {
                    &&& final(self).contacts() == old(self).contacts().push(c)
                    &&& final(self).status() is Idle
                } else {
                    &&& final(self).contacts() == old(self).contacts()
                    &&& final(self).status() matches JobStatus::Failed(m) && m@
                        == "You can't add yourself as contact!"@
                },
                NotificationHandlerSignal::ContactRetreivingFailed(e) => {
                    &&& final(self).contacts() == old(self).contacts()
                    &&& final(self).status() matches JobStatus::Failed(m) && m@ == e@
                },
                NotificationHandlerSignal::Nothing => final(self).contacts() == old(
                    self,
                ).contacts() && final(self).status() == old(self).status(),
            },
    {
        match signal {
            NotificationHandlerSignal::ContactReceived(contact) => {
                if contact.id != current_user {
                    self.add_contact(contact);
                } else {
                    self.contact_search_failed("You can't add yourself as contact!");
                }
            },
            NotificationHandlerSignal::ContactRetreivingFailed(error_message) => {
                self.contact_search_failed(error_message.as_str());
            },
            NotificationHandlerSignal::Nothing => {},
        }
    }
}

} // verus!
