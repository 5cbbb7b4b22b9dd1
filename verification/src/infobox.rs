//! The queue of info messages to show to the player.

use vstd::prelude::*;

verus! {

/// Messages waiting to be shown to the player, one after another.
#[derive(Default)]
pub struct InfoMessageQueue {
    messages: Vec<String>,
}

impl View for InfoMessageQueue {
    type V = Seq<Seq<char>>;

    closed spec fn view(&self) -> Seq<Seq<char>> {
        self.messages@.map_values(|m: String| m@)
    }
}

impl InfoMessageQueue {
    pub fn new() -> (q: Self)
        ensures
            q@ == Seq::<Seq<char>>::empty(),
    {
        let q = InfoMessageQueue { messages: Vec::new() };
        assert(q@ =~= Seq::<Seq<char>>::empty());
        q
    }

    /// Queues `msg` after the messages already waiting.
    pub fn push_back(&mut self, msg: String)
        ensures
            final(self)@ == old(self)@.push(msg@),
    {
        self.messages.push(msg);
        assert(self@ =~= old(self)@.push(msg@));
    }

    /// Hands out all waiting messages, oldest first, and empties the queue.
    pub fn take_all(&mut self) -> (msgs: Vec<String>)
        ensures
            msgs@.map_values(|m: String| m@) == old(self)@,
            final(self)@ == Seq::<Seq<char>>::empty(),
    {
        let mut msgs: Vec<String> = Vec::new();
        std::mem::swap(&mut msgs, &mut self.messages);
        assert(self@ =~= Seq::<Seq<char>>::empty());
        msgs
    }

    /// The number of waiting messages.
    pub fn len(&self) -> (r: usize)
        ensures
            r == self@.len(),
    {
        self.messages.len()
    }
}

} // verus!
