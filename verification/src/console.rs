//! Bounded, append-only log of severity-tagged text lines.
//!
//! The console is shared between the UI renderer and any running worker; it
//! keeps at most [`CONSOLE_CAPACITY`] entries and evicts the oldest first.

use std::collections::VecDeque;
use vstd::prelude::*;

verus! {

/// Severity of a console entry.
#[derive(Clone, Copy, Debug, PartialEq, Eq, Structural)]
pub enum MessageType {
    Log,
    Error,
}

/// One console entry: a severity together with its text.
pub struct Message {
    pub message_type: MessageType,
    pub text: String,
}

impl View for Message {
    type V = (MessageType, Seq<char>);

    open spec fn view(&self) -> (MessageType, Seq<char>) {
        (self.message_type, self.text@)
    }
}

/// How many entries the console retains before evicting the oldest.
pub const CONSOLE_CAPACITY: usize = 1000;

/// The entries a console retains out of a full append history: the whole
/// history while it fits, otherwise the most recent `CONSOLE_CAPACITY`.
pub open spec fn retained(history: Seq<(MessageType, Seq<char>)>) -> Seq<(MessageType, Seq<char>)> {
    if history.len() <= CONSOLE_CAPACITY {
        history
    } else {
        history.skip(history.len() - CONSOLE_CAPACITY as int)
    }
}

/// Append-only, bounded log. The view is the sequence of retained entries,
/// oldest first; `full_history` additionally remembers evicted entries.
pub struct Console {
    messages: VecDeque<Message>,
    history: Ghost<Seq<(MessageType, Seq<char>)>>,
}

impl View for Console {
    type V = Seq<(MessageType, Seq<char>)>;

    closed spec fn view(&self) -> Seq<(MessageType, Seq<char>)> {
        self.messages@.map_values(|m: Message| m@)
    }
}

impl Default for Console {
    /// An empty console with an empty history.
    fn default() -> (c: Console)
        ensures
            c.wf(),
            c@ == Seq::<(MessageType, Seq<char>)>::empty(),
            c.full_history() == Seq::<(MessageType, Seq<char>)>::empty(),
    {
        let c = Console { messages: VecDeque::new(), history: Ghost(Seq::empty()) };
        proof {
            assert(c@ =~= Seq::<(MessageType, Seq<char>)>::empty());
        }
        c
    }
}

impl Console {
    /// Every entry ever appended, oldest first, evicted entries included.
    pub closed spec fn full_history(&self) -> Seq<(MessageType, Seq<char>)> {
        self.history@
    }

    /// The console retains exactly the most recent entries of its history.
    pub open spec fn wf(&self) -> bool {
        self@ == retained(self.full_history())
    }

    /// Appends at the tail; evicts from the head once over capacity.
    fn push_entry(&mut self, message: Message)
        ensures
            final(self).full_history() == old(self).full_history().push(message@),
            final(self)@ == (if old(self)@.len() < CONSOLE_CAPACITY {
                old(self)@.push(message@)
            } else {
                old(self)@.push(message@).skip(1)
            }),
            old(self).wf() ==> final(self).wf(),
    {
        let ghost m = message@;
        let ghost before = self.messages@;
        self.history = Ghost(self.history@.push(m));
        self.messages.push_back(message);
        proof {
            assert(self.messages@.map_values(|x: Message| x@) =~= before.map_values(
                |x: Message| x@,
            ).push(m));
        }
        if self.messages.len() > CONSOLE_CAPACITY {
            let ghost full = self.messages@;
            self.messages.pop_front();
            proof {
                assert(self.messages@.map_values(|x: Message| x@) =~= full.map_values(
                    |x: Message| x@,
                ).skip(1));
            }
        }
        proof {
            let h = old(self).history@;
            if old(self).wf() {
                if h.len() < CONSOLE_CAPACITY {
                    assert(retained(h.push(m)) =~= retained(h).push(m));
                } else {
                    assert(retained(h.push(m)) =~= retained(h).push(m).skip(1));
                }
            }
        }
    }

    /// Appends a plain log line; always succeeds.
    pub fn add_log(&mut self, text: String)
        ensures
            final(self).full_history() == old(self).full_history().push(
                (MessageType::Log, text@),
            ),
            final(self)@ == (if old(self)@.len() < CONSOLE_CAPACITY {
                old(self)@.push((MessageType::Log, text@))
            } else {
                old(self)@.push((MessageType::Log, text@)).skip(1)
            }),
            old(self).wf() ==> final(self).wf(),
    {
        self.push_entry(Message { message_type: MessageType::Log, text });
    }

    /// Appends an error line; always succeeds.
    pub fn add_error(&mut self, text: String)
        ensures
            final(self).full_history() == old(self).full_history().push(
                (MessageType::Error, text@),
            ),
            final(self)@ == (if old(self)@.len() < CONSOLE_CAPACITY {
                old(self)@.push((MessageType::Error, text@))
            } else {
                old(self)@.push((MessageType::Error, text@)).skip(1)
            }),
            old(self).wf() ==> final(self).wf(),
    {
        self.push_entry(Message { message_type: MessageType::Error, text });
    }

    /// Number of retained entries.
    pub fn len(&self) -> (n: usize)
        ensures
            n == self@.len(),
    {
        self.messages.len()
    }

    /// The retained entry at position `i`, oldest first; for read-only
    /// traversal in insertion order by a renderer.
    pub fn message_at(&self, i: usize) -> (m: &Message)
        requires
            i < self@.len(),
        ensures
            m@ == self@[i as int],
    {
        &self.messages[i]
    }
}

/// Bounded-console law: after any history of appends the console holds
/// `min(N, capacity)` entries, and they are exactly the most recent ones,
/// in order.
pub proof fn lemma_console_bounded(c: Console)
    requires
        c.wf(),
    ensures
        c@.len() == (if c.full_history().len() <= CONSOLE_CAPACITY {
            c.full_history().len()
        } else {
            CONSOLE_CAPACITY as nat
        }),
        forall|i: int|
            0 <= i < c@.len() ==> c@[i] == c.full_history()[c.full_history().len() - c@.len() + i],
{
}

} // verus!
