//! A quota tracker that warns through a caller-supplied messenger.
//!
//! [`Messenger`] is the port the library's users implement: anything that
//! can send a message and keeps a record of what it sent.  [`LimitTracker`]
//! owns one and, whenever its value is set, sends at most one warning chosen
//! by how close the value has come to the maximum.  [`MockMessenger`] is a
//! verified in-memory implementation that only records, for tests.

use vstd::prelude::*;
use vstd::seq_lib::*;

verus! {

/// The view of a record of sent messages, newest last.
pub open spec fn messages_view(msgs: Seq<String>) -> Seq<Seq<char>> {
    msgs.map_values(|m: String| m@)
}

/// A sink for outgoing messages.  Implementations decide how a message
/// travels; the contract only pins down that each send appends exactly that
/// message to the record of sent messages.
pub trait Messenger: Sized {
    /// The messages this messenger has sent so far, newest last.
    spec fn sent(&self) -> Seq<Seq<char>>;

    /// Sends `msg`: the record grows by exactly this message.
    fn send(&mut self, msg: &str)
        ensures
            final(self).sent() == old(self).sent().push(msg@),
    ;
}

/// The warning owed for setting the value to `value` against the limit
/// `max`: the full-quota error at or above the limit, the urgent warning at
/// or above nine tenths, the plain warning at or above three quarters, and
/// none below that.
pub open spec fn quota_message(value: usize, max: usize) -> Option<Seq<char>> {
    if value >= max {
        Some("Error: You are over your quota!"@)
    } else if 10 * value >= 9 * max {
        Some("Urgent warning: You've used up over 90% of your quota!"@)
    } else if 4 * value >= 3 * max {
        Some("Warning: You've used up over 75% of your quota!"@)
    } else {
        None
    }
}

/// Tracks a value against a maximum and warns through its messenger as the
/// value approaches the limit.
pub struct LimitTracker<T: Messenger> {
    messenger: T,
    value: usize,
    max: usize,
}

impl<T: Messenger> LimitTracker<T> {
    /// The messenger the tracker warns through.
    pub closed spec fn messenger_spec(&self) -> T {
        self.messenger
    }

    /// The value the tracker last saw.
    pub closed spec fn value_spec(&self) -> usize {
        self.value
    }

    /// The limit the value is tracked against.
    pub closed spec fn max_spec(&self) -> usize {
        self.max
    }

    /// A new tracker at value zero.
    pub fn new(messenger: T, max: usize) -> (r: LimitTracker<T>)
        ensures
            r.messenger_spec() == messenger,
            r.value_spec() == 0,
            r.max_spec() == max,
    {
        LimitTracker { messenger, value: 0, max }
    }

    /// Records the new value and sends exactly the warning it is owed:
    /// the one picked by [`quota_message`], or none.
    pub fn set_value(&mut self, value: usize)
        ensures
            final(self).value_spec() == value,
            final(self).max_spec() == old(self).max_spec(),
            match quota_message(value, old(self).max_spec()) {
                Some(m) => final(self).messenger_spec().sent() == old(
                    self,
                ).messenger_spec().sent().push(m),
                None => final(self).messenger_spec() == old(self).messenger_spec(),
            },
    {
        self.value = value;

        if value >= self.max {
            self.messenger.send("Error: You are over your quota!");
        } else if (value as u128) * 10 >= (self.max as u128) * 9 {
            self.messenger.send("Urgent warning: You've used up over 90% of your quota!");
        } else if (value as u128) * 4 >= (self.max as u128) * 3 {
            self.messenger.send("Warning: You've used up over 75% of your quota!");
        }
    }

    /// The value the tracker last saw.
    pub fn value(&self) -> (r: usize)
        ensures
            r == self.value_spec(),
    {
        self.value
    }

    /// The limit the value is tracked against.
    pub fn max(&self) -> (r: usize)
        ensures
            r == self.max_spec(),
    {
        self.max
    }

    /// Takes the messenger back out of the tracker.
    pub fn into_messenger(self) -> (r: T)
        ensures
            r == self.messenger_spec(),
    {
        self.messenger
    }
}

/// A messenger that only records what it is told to send: a test double for
/// anything that implements [`Messenger`].
pub struct MockMessenger {
    /// Every message sent so far, newest last.
    pub sent_messages: Vec<String>,
}

impl MockMessenger {
    /// A mock with an empty record.
    pub fn new() -> (r: MockMessenger)
        ensures
            r.sent() == Seq::<Seq<char>>::empty(),
            r.sent_messages@.len() == 0,
    {
        let r = MockMessenger { sent_messages: Vec::new() };
        proof {
            assert(r.sent() =~= Seq::<Seq<char>>::empty());
        }
        r
    }
}

impl Messenger for MockMessenger {
    open spec fn sent(&self) -> Seq<Seq<char>> {
        messages_view(self.sent_messages@)
    }

    fn send(&mut self, msg: &str) {
        self.sent_messages.push(msg.to_owned());
        proof {
            old(self).sent_messages@.lemma_push_map_commute(|m: String| m@, final(self).sent_messages@.last());
        }
    }
}

} // verus!
