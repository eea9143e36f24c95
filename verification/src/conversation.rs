use vstd::prelude::*;
use crate::text::clone_chars;

verus! {

/// Who said a line of the conversation.
#[derive(Clone, Copy, Debug, PartialEq, Eq, Structural)]
pub enum Role {
    User,
    Assistant,
    System,
}

/// One entry of the conversation: a speaker and what was said.
#[derive(Clone, Debug, PartialEq, Eq)]
pub struct Message {
    pub role: Role,
    pub content: Vec<char>,
}

/// The mathematical value of a [`Message`].
#[verifier::ext_equal]
pub ghost struct MessageV {
    pub role: Role,
    pub content: Seq<char>,
}

impl View for Message {
    type V = MessageV;

    open spec fn view(&self) -> MessageV {
        MessageV { role: self.role, content: self.content@ }
    }
}

impl Message {
    pub fn new(role: Role, content: Vec<char>) -> (m: Message)
        ensures
            m@.role == role,
            m@.content == content@,
    {
        Message { role, content }
    }

    /// An owned copy with the same value.
    pub fn dup(&self) -> (r: Message)
        ensures
            r@ == self@,
    {
        let r = Message { role: self.role, content: clone_chars(&self.content) };
        assert(r@ =~= self@);
        r
    }
}

/// An ordered, append-only log of messages. It grows only through [`Conversation::push`]
/// and is never truncated while the process runs.
#[derive(Debug)]
pub struct Conversation {
    pub history: Vec<Message>,
}

impl View for Conversation {
    type V = Seq<MessageV>;

    open spec fn view(&self) -> Seq<MessageV> {
        self.history@.map_values(|m: Message| m@)
    }
}

impl Conversation {
    pub fn new() -> (c: Conversation)
        ensures
            c@ == Seq::<MessageV>::empty(),
    {
        let c = Conversation { history: Vec::new() };
        assert(c@ =~= Seq::<MessageV>::empty());
        c
    }

    pub fn len(&self) -> (n: usize)
        ensures
            n == self@.len(),
    {
        self.history.len()
    }

    /// Appends one message; everything already logged stays in place.
    pub fn push(&mut self, m: Message)
        ensures
            final(self)@ == old(self)@.push(m@),
    {
        let ghost mv = m@;
        self.history.push(m);
        assert(self@ =~= old(self)@.push(mv));
    }

    pub fn message_at(&self, i: usize) -> (m: &Message)
        requires
            i < self@.len(),
        ensures
            m@ == self@[i as int],
    {
        &self.history[i]
    }
}

} // verus!
