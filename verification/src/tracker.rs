//! The bot's memory of its own replies: for each message that asked for a
//! run, where the reply went, so that an edit of the message can find and
//! update it. Entries live for the life of the process and are never
//! removed.

use vstd::prelude::*;

use vstd::hash_map::HashMapWithView;

verus! {

broadcast use vstd::std_specs::hash::group_hash_axioms;

/// Where a reply went: the channel it was posted in and its own message
/// identifier there.
#[derive(Clone, Copy, Debug, PartialEq, Eq, Structural)]
pub struct ReplyRef {
    pub channel_id: u64,
    pub message_id: u64,
}

/// A map from the identifier of a message that asked for a run to the bot's
/// reply to it.
pub struct ResponseMap {
    map: HashMapWithView<u64, ReplyRef>,
}

impl View for ResponseMap {
    type V = Map<u64, ReplyRef>;

    closed spec fn view(&self) -> Map<u64, ReplyRef> {
        self.map@
    }
}

impl ResponseMap {
    /// An empty map: no reply is remembered yet.
    pub fn new() -> (r: ResponseMap)
        ensures
            r@ == Map::<u64, ReplyRef>::empty(),
    {
        proof {
            assert(vstd::std_specs::hash::obeys_key_model::<u64>());
        }
        ResponseMap { map: HashMapWithView::new() }
    }

    /// Remembers the reply to the message with identifier `message_id`,
    /// replacing what was remembered for it before, if anything.
    pub fn record(&mut self, message_id: u64, reply: ReplyRef)
        ensures
            final(self)@ == old(self)@.insert(message_id, reply),
    {
        self.map.insert(message_id, reply);
    }

    /// Finds the remembered reply to the message with identifier
    /// `message_id`, if there is one.
    pub fn lookup(&self, message_id: u64) -> (r: Option<ReplyRef>)
        ensures
            self@.contains_key(message_id) ==> r == Some(self@[message_id]),
            !self@.contains_key(message_id) ==> r is None,
    {
        match self.map.get(&message_id) {
            Some(reply) => Some(*reply),
            None => None,
        }
    }

    /// The number of replies remembered.
    pub fn len(&self) -> (r: usize)
        ensures
            r == self@.len(),
    {
        self.map.len()
    }
}

} // verus!
