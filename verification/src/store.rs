//! What a server has received.
use vstd::prelude::*;

use crate::message::{Message, MessageView};

verus! {

/// The messages of a row by their ids: a later one replaces an earlier one of
/// its id.
pub open spec fn by_id(messages: Seq<Message>) -> Map<Seq<char>, MessageView>
    decreases messages.len(),
{
    if messages.len() == 0 {
        Map::empty()
    } else {
        by_id(messages.drop_last()).insert(messages.last().id@, messages.last()@)
    }
}

/// No two messages of a row have one id.
pub open spec fn ids_differ(messages: Seq<Message>) -> bool {
    forall|i: int, j: int| 0 <= i < j < messages.len() ==> messages[i].id@ != messages[j].id@
}

/// Received messages, by their ids.
#[derive(Debug)]
pub struct MessageStore {
    rec_msgs: Vec<Message>,
}

impl View for MessageStore {
    type V = Map<Seq<char>, MessageView>;

    closed spec fn view(&self) -> Map<Seq<char>, MessageView> {
        by_id(self.rec_msgs@)
    }
}

/// Where no id comes twice, each message is found under its id, and nothing else
/// is found.
proof fn lemma_by_id(messages: Seq<Message>)
    requires
        ids_differ(messages),
    ensures
        forall|i: int|
            0 <= i < messages.len() ==> by_id(messages).contains_key(
                (#[trigger] messages[i]).id@,
            ) && by_id(messages)[messages[i].id@] == messages[i]@,
        forall|id: Seq<char>| #[trigger]
            by_id(messages).contains_key(id) ==> exists|i: int|
                0 <= i < messages.len() && (#[trigger] messages[i]).id@ == id,
        by_id(messages).dom().finite(),
        by_id(messages).len() == messages.len(),
    decreases messages.len(),
{
    if messages.len() > 0 {
        let earlier = messages.drop_last();
        assert(forall|i: int| 0 <= i < earlier.len() ==> earlier[i] == messages[i]);
        lemma_by_id(earlier);
        let last = messages.last();
        assert(!by_id(earlier).contains_key(last.id@)) by {
            if by_id(earlier).contains_key(last.id@) {
                let i = choose|i: int|
                    0 <= i < earlier.len() && (#[trigger] earlier[i]).id@ == last.id@;
                assert(messages[i].id@ != messages[messages.len() - 1].id@);
            }
        }
        assert forall|id: Seq<char>| #[trigger] by_id(messages).contains_key(id) implies exists|
            i: int,
        |
            0 <= i < messages.len() && (#[trigger] messages[i]).id@ == id by {
            if id == last.id@ {
                assert(messages[messages.len() - 1].id@ == id);
            } else {
                let i = choose|i: int| 0 <= i < earlier.len() && (#[trigger] earlier[i]).id@ == id;
                assert(messages[i].id@ == id);
            }
        }
    }
}

impl MessageStore {
    /// No id comes twice.
    pub closed spec fn wf(&self) -> bool {
        ids_differ(self.rec_msgs@)
    }

    /// A store without messages.
    pub fn new() -> (store: MessageStore)
        ensures
            store.wf(),
            store@ == Map::<Seq<char>, MessageView>::empty(),
    {
        MessageStore { rec_msgs: Vec::new() }
    }

    /// Where the message of an id is.
    fn position(&self, id: &String) -> (found: Option<usize>)
        ensures
            match found {
                Some(i) => i < self.rec_msgs.len() && self.rec_msgs[i as int].id@ == id@,
                None => forall|i: int|
                    0 <= i < self.rec_msgs.len() ==> (#[trigger] self.rec_msgs[i]).id@ != id@,
            },
    {
        let mut i: usize = 0;
        while i < self.rec_msgs.len()
            invariant
                i <= self.rec_msgs.len(),
                forall|j: int| 0 <= j < i ==> (#[trigger] self.rec_msgs[j]).id@ != id@,
            decreases self.rec_msgs.len() - i,
        {
            if self.rec_msgs[i].id == *id {
                return Some(i);
            }
            i = i + 1;
        }
        None
    }

    /// Keeps a message, in place of one that has its id.
    pub fn add(&mut self, message: &Message)
        requires
            old(self).wf(),
        ensures
            final(self).wf(),
            final(self)@ == old(self)@.insert(message@.id, message@),
    {
        let ghost before = self.rec_msgs@;
        let copy = message.clone();
        match self.position(&copy.id) {
            Some(i) => {
                self.rec_msgs.set(i, copy);
                proof {
                    let after = self.rec_msgs@;
                    assert(after == before.update(i as int, copy));
                    assert(ids_differ(after));
                    lemma_by_id(before);
                    lemma_by_id(after);
                    assert forall|id: Seq<char>|
                        by_id(after).contains_key(id) <==> by_id(before).insert(
                            message@.id,
                            message@,
                        ).contains_key(id) by {
                        lemma_same_ids(before, after, id);
                    }
                    assert forall|id: Seq<char>| by_id(after).contains_key(id) implies by_id(
                        after,
                    )[id] == by_id(before).insert(message@.id, message@)[id] by {
                        let j = choose|j: int| 0 <= j < after.len() && (#[trigger] after[j]).id@ == id;
                        if j != i {
                            assert(after[j] == before[j]);
                        }
                    }
                    assert(by_id(after) =~= by_id(before).insert(message@.id, message@));
                }
            },
            None => {
                self.rec_msgs.push(copy);
                assert(self.rec_msgs@.drop_last() =~= before);
            },
        }
    }

    /// How many messages are kept.
    pub fn count(&self) -> (count: usize)
        requires
            self.wf(),
        ensures
            count == self@.len(),
    {
        proof {
            lemma_by_id(self.rec_msgs@);
        }
        self.rec_msgs.len()
    }

    /// The message of an id.
    pub fn get(&self, id: &str) -> (found: Option<Message>)
        requires
            self.wf(),
        ensures
            found is Some <==> self@.contains_key(id@),
            found matches Some(message) ==> message@ == self@[id@],
    {
        proof {
            lemma_by_id(self.rec_msgs@);
        }
        match self.position(&id.to_string()) {
            Some(i) => Some(self.rec_msgs[i].clone()),
            None => None,
        }
    }
}

/// Rows with the same ids hold the same ids.
proof fn lemma_same_ids(before: Seq<Message>, after: Seq<Message>, id: Seq<char>)
    requires
        ids_differ(before),
        ids_differ(after),
        before.len() == after.len(),
        forall|i: int| 0 <= i < before.len() ==> before[i].id@ == after[i].id@,
    ensures
        by_id(before).contains_key(id) <==> by_id(after).contains_key(id),
{
    lemma_by_id(before);
    lemma_by_id(after);
    if by_id(before).contains_key(id) {
        let i = choose|i: int| 0 <= i < before.len() && (#[trigger] before[i]).id@ == id;
        assert(after[i].id@ == id);
    }
    if by_id(after).contains_key(id) {
        let i = choose|i: int| 0 <= i < after.len() && (#[trigger] after[i]).id@ == id;
        assert(before[i].id@ == id);
    }
}

} // verus!
