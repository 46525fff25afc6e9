use vstd::prelude::*;

verus! {

/// A message to an entity or to the game state, carrying an event of type `E`.
pub struct Message<E> {
    /// The entity that sent this message; `None` when the game state sent it.
    pub sender_entity_id: Option<u32>,
    /// The entity to route this message to; `None` when the game state handles it.
    pub recipient_entity_id: Option<u32>,
    /// What happened.
    pub event: E,
}

impl<E> Message<E> {
    pub open spec fn spec_new(sender: Option<u32>, recipient: Option<u32>, event: E) -> Message<E> {
        Message { sender_entity_id: sender, recipient_entity_id: recipient, event }
    }

    fn new(sender: Option<u32>, recipient: Option<u32>, event: E) -> (r: Self)
        ensures
            r == Self::spec_new(sender, recipient, event),
    {
        Message { sender_entity_id: sender, recipient_entity_id: recipient, event }
    }

    /// A message from no entity to no entity goes to every entity and to the game state.
    pub fn is_broadcast(&self) -> (r: bool)
        ensures
            r == (self.sender_entity_id is None && self.recipient_entity_id is None),
    {
        self.sender_entity_id.is_none() && self.recipient_entity_id.is_none()
    }
}

/// Queues messages during a frame, to be handed out together at its end.
pub struct Dispatcher<E> {
    messages: Vec<Message<E>>,
}

impl<E> View for Dispatcher<E> {
    type V = Seq<Message<E>>;

    /// The queued messages, oldest first.
    closed spec fn view(&self) -> Seq<Message<E>> {
        self.messages@
    }
}

impl<E> Default for Dispatcher<E> {
    fn default() -> (r: Self)
        ensures
            r@ == Seq::<Message<E>>::empty(),
    {
        Dispatcher { messages: Vec::new() }
    }
}

impl<E> Dispatcher<E> {
    /// Queues a message to every active entity and to the game state.
    pub fn broadcast(&mut self, event: E)
        ensures
            final(self)@ == old(self)@.push(Message::spec_new(None, None, event)),
    {
        self.messages.push(Message::new(None, None, event));
    }

    /// Queues a message from entity `sender` to the game state.
    pub fn entity_to_global(&mut self, sender: u32, event: E)
        ensures
            final(self)@ == old(self)@.push(Message::spec_new(Some(sender), None, event)),
    {
        self.messages.push(Message::new(Some(sender), None, event));
    }

    /// Queues a message from one entity to another.
    pub fn entity_to_entity(&mut self, sender: u32, recipient: u32, event: E)
        ensures
            final(self)@ == old(self)@.push(Message::spec_new(Some(sender), Some(recipient), event)),
    {
        self.messages.push(Message::new(Some(sender), Some(recipient), event));
    }

    /// Queues a message from the game state to one entity.
    pub fn global_to_entity(&mut self, recipient: u32, event: E)
        ensures
            final(self)@ == old(self)@.push(Message::spec_new(None, Some(recipient), event)),
    {
        self.messages.push(Message::new(None, Some(recipient), event));
    }

    /// Hands the queued messages to the caller, oldest first, and empties the queue.
    pub fn drain(&mut self) -> (r: Vec<Message<E>>)
        ensures
            r@ == old(self)@,
            final(self)@ == Seq::<Message<E>>::empty(),
    {
        let mut taken: Vec<Message<E>> = Vec::new();
        std::mem::swap(&mut taken, &mut self.messages);
        taken
    }
}

/// Only `broadcast` queues broadcast messages: a message with a sender or a recipient is never one.
pub proof fn lemma_only_broadcasts_are_broadcast<E>(sender: u32, recipient: u32, event: E)
    ensures
        ({
            let m = Message::spec_new(None, None, event);
            m.sender_entity_id is None && m.recipient_entity_id is None
        }),
        !({
            let m = Message::spec_new(Some(sender), None, event);
            m.sender_entity_id is None && m.recipient_entity_id is None
        }),
        !({
            let m = Message::spec_new(Some(sender), Some(recipient), event);
            m.sender_entity_id is None && m.recipient_entity_id is None
        }),
        !({
            let m = Message::spec_new(None, Some(recipient), event);
            m.sender_entity_id is None && m.recipient_entity_id is None
        }),
{
}

} // verus!
