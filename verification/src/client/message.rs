//! The messages of a packet, to be looked up by typed message.

use vstd::prelude::*;
use crate::client::Error;
use crate::message::convert::{IsMessage, typed_value};
use crate::packet::Message;

verus! {

/// The first value that a typed message `M` finds in `messages`: the value of
/// the first message that has the id of `M` and decodes as its type.
pub open spec fn first_typed<M: IsMessage>(messages: Seq<Message>) -> Option<M::Value>
    decreases messages.len(),
{
    if messages.len() == 0 {
        None
    } else {
        match typed_value::<M>(messages[0]) {
            Some(value) => Some(value),
            None => first_typed::<M>(messages.skip(1)),
        }
    }
}

/// An ordered list of messages.
#[derive(Debug)]
pub struct MessageSet {
    messages: Vec<Message>,
}

impl Default for MessageSet {
    fn default() -> (set: Self)
        ensures
            set@ == Seq::<Message>::empty(),
    {
        MessageSet { messages: Vec::new() }
    }
}

impl MessageSet {
    pub closed spec fn view(&self) -> Seq<Message> {
        self.messages@
    }

    pub fn new(messages: &[Message]) -> (set: Self)
        ensures
            set@ == messages@,
    {
        let mut copied: Vec<Message> = Vec::new();
        let mut i: usize = 0;
        while i < messages.len()
            invariant
                i <= messages.len(),
                copied@ == messages@.take(i as int),
            decreases messages.len() - i,
        {
            copied.push(messages[i]);
            assert(copied@ =~= messages@.take(i as int + 1));
            i = i + 1;
        }
        assert(messages@.take(i as int) =~= messages@);
        MessageSet { messages: copied }
    }

    pub fn from_vec(messages: Vec<Message>) -> (set: Self)
        ensures
            set@ == messages@,
    {
        MessageSet { messages }
    }

    /// The value of the first message that `M` finds, if it finds one.
    pub fn get<M: IsMessage>(&self) -> (value: Option<M::Value>)
        ensures
            value == first_typed::<M>(self@),
    {
        let mut i: usize = 0;
        assert(self@.skip(0) =~= self@);
        while i < self.messages.len()
            invariant
                i <= self.messages.len(),
                first_typed::<M>(self@) == first_typed::<M>(self@.skip(i as int)),
            decreases self.messages.len() - i,
        {
            proof {
                let rest = self@.skip(i as int);
                assert(rest[0] == self@[i as int]);
                assert(rest.skip(1) =~= self@.skip(i as int + 1));
            }
            match M::get(&self.messages[i]) {
                Some(value) => {
                    return Some(value);
                },
                None => {},
            }
            i = i + 1;
        }
        None
    }

    /// The value of the first message that `M` finds. That it finds none is
    /// an error, which names the id of `M`.
    pub fn try_get<M: IsMessage>(&self) -> (r: Result<M::Value, Error>)
        ensures
            match r {
                Ok(value) => first_typed::<M>(self@) == Some(value),
                Err(Error::MissingMessage(number)) => first_typed::<M>(self@) is None && number
                    == M::spec_number(),
                Err(_) => false,
            },
    {
        match self.get::<M>() {
            Some(value) => Ok(value),
            None => Err(Error::MissingMessage(M::number())),
        }
    }

    pub fn messages(&self) -> (messages: &[Message])
        ensures
            messages@ == self@,
    {
        self.messages.as_slice()
    }
}

} // verus!
