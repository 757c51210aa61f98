//! The draft message kept for each contact the user chats with.

use vstd::prelude::*;
use crate::auth::UserId;

verus! {

pub struct MessagingInstance {
    pub text_to_send: String,
}

impl MessagingInstance {
    /// An empty draft.
    pub fn new() -> (r: Self)
        ensures
            r.text_to_send@ == Seq::<char>::empty(),
    {
        Self { text_to_send: String::new() }
    }
}

/// One draft per contact id.
pub struct Messenger {
    ids: Vec<UserId>,
    intances: Vec<MessagingInstance>,
}

impl Messenger {
    /// The contacts that have a draft, in the order they were added.
    pub closed spec fn ids(&self) -> Seq<UserId> {
        self.ids@
    }

    /// The draft of the contact at position `i` of `ids()`.
    pub closed spec fn draft(&self, i: int) -> Seq<char> {
        self.intances@[i].text_to_send@
    }

    /// Ids are distinct and each has its draft.
    pub closed spec fn wf(&self) -> bool {
        &&& self.ids@.len() == self.intances@.len()
        &&& forall|i: int, j: int|
            0 <= i < j < self.ids@.len() ==> (#[trigger] self.ids@[i]) != (#[trigger] self.ids@[j])
    }

    pub fn new() -> (r: Self)
        ensures
            r.wf(),
            r.ids() == Seq::<UserId>::empty(),
    {
        Self { ids: Vec::new(), intances: Vec::new() }
    }

    fn position(&self, user_id: UserId) -> (r: Option<usize>)
        requires
            self.wf(),
        ensures
            r is None <==> !self.ids().contains(user_id),
            r matches Some(i) ==> i < self.ids().len() && self.ids()[i as int] == user_id,
    {
        let mut i: usize = 0;
        while i < self.ids.len()
            invariant
                0 <= i <= self.ids@.len(),
                forall|k: int| 0 <= k < i ==> self.ids@[k] != user_id,
            decreases self.ids@.len() - i,
        {
            if self.ids[i] == user_id {
                return Some(i);
            }
            i = i + 1;
        }
        None
    }

    /// Gives `user_id` a new empty draft, replacing the one it had.
    pub fn add_messsaging_instance(&mut self, user_id: UserId)
        requires
            old(self).wf(),
        ensures
            final(self).wf(),
            old(self).ids().contains(user_id) ==> final(self).ids() == old(self).ids(),
            !old(self).ids().contains(user_id) ==> final(self).ids() == old(self).ids().push(user_id),
            forall|i: int|
                0 <= i < final(self).ids().len() ==> #[trigger] final(self).draft(i) == (if final(self).ids()[i] == user_id {
                    Seq::<char>::empty()
                } else {
                    old(self).draft(i)
                }),
    {
        match self.position(user_id) {
            Some(i) => {
                self.intances.set(i, MessagingInstance::new());
            },
            None => {
                self.ids.push(user_id);
                self.intances.push(MessagingInstance::new());
            },
        }
    }

    /// The draft of `user_id`, where it has one.
    pub fn get_messaging_instance(&mut self, user_id: UserId) -> (r: Option<&mut MessagingInstance>)
        requires
            old(self).wf(),
        ensures
            r is Some <==> old(self).ids().contains(user_id),
            r is None ==> *final(self) == *old(self),
            r matches Some(m) ==> {
                &&& final(self).wf()
                &&& final(self).ids() == old(self).ids()
                &&& forall|i: int|
                    0 <= i < old(self).ids().len() && old(self).ids()[i] == user_id ==> {
                        &&& m.text_to_send@ == old(self).draft(i)
                        &&& #[trigger] final(self).draft(i) == (*final(m)).text_to_send@
                    }
                &&& forall|i: int|
                    0 <= i < old(self).ids().len() && old(self).ids()[i] != user_id
                        ==> #[trigger] final(self).draft(i) == old(self).draft(i)
            },
    {
        match self.position(user_id) {
            Some(i) => Some(&mut self.intances[i]),
            None => None,
        }
    }
}

} // verus!
