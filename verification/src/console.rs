//! The one-way channel for warnings and errors.
//!
//! Constructors deep inside an evaluation report to the host by sending
//! plain text. The console keeps what was sent, oldest first, until the
//! host takes it.

use std::sync::mpsc::Sender;
use vstd::prelude::*;

verus! {

/// The sending half of a channel of the standard library, through which
/// the host listens.
#[verifier::external_type_specification]
#[verifier::external_body]
#[verifier::reject_recursive_types(T)]
pub struct ExSender<T>(Sender<T>);

/// Calls `Sender::send` and says whether the message was taken.
///
/// A message is taken as long as the receiving half exists. Whether it
/// does is the host's matter, so nothing is promised of the result. The
/// call does not block and does not panic.
#[verifier::external_body]
fn send_on(sender: &Sender<String>, message: String) -> (taken: bool) {
    sender.send(message).is_ok()
}

/// How many of `outcomes` say that a message was taken.
pub open spec fn taken_of(outcomes: Seq<bool>) -> nat
    decreases outcomes.len(),
{
    if outcomes.len() == 0 {
        0
    } else if outcomes.last() {
        taken_of(outcomes.drop_last()) + 1
    } else {
        taken_of(outcomes.drop_last())
    }
}

/// No more messages were taken than there are outcomes.
pub proof fn lemma_taken_of_is_bounded(outcomes: Seq<bool>)
    ensures
        taken_of(outcomes) <= outcomes.len(),
    decreases outcomes.len(),
{
    if outcomes.len() > 0 {
        lemma_taken_of_is_bounded(outcomes.drop_last());
    }
}

/// Counts the messages that the host took, given the outcome of each
/// send.
pub fn count_taken(outcomes: &Vec<bool>) -> (taken: usize)
    ensures
        taken == taken_of(outcomes@),
        taken <= outcomes@.len(),
{
    let mut taken: usize = 0;
    let mut i: usize = 0;
    assert(outcomes@.take(0) =~= Seq::<bool>::empty());
    while i < outcomes.len()
        invariant
            i <= outcomes.len(),
            taken == taken_of(outcomes@.take(i as int)),
            taken <= i,
        decreases outcomes.len() - i,
    {
        assert(outcomes@.take(i + 1).drop_last() =~= outcomes@.take(i as int));
        assert(outcomes@.take(i + 1).last() == outcomes@[i as int]);
        if outcomes[i] {
            taken = taken + 1;
        }
        i = i + 1;
    }
    assert(outcomes@.take(outcomes@.len() as int) =~= outcomes@);
    taken
}

/// The messages that were sent and not yet taken, oldest first.
pub struct Console {
    messages: Vec<String>,
}

impl View for Console {
    type V = Seq<Seq<char>>;

    closed spec fn view(&self) -> Seq<Seq<char>> {
        Seq::new(self.messages.len() as nat, |i: int| self.messages[i]@)
    }
}

impl Console {
    /// A console on which nothing was sent.
    pub fn new() -> (r: Console)
        ensures
            r@ == Seq::<Seq<char>>::empty(),
    {
        let r = Console { messages: Vec::new() };
        assert(r@ =~= Seq::<Seq<char>>::empty());
        r
    }

    /// Sends `message`. It comes after all that was sent before.
    pub fn send(&mut self, message: String)
        ensures
            final(self)@ == old(self)@.push(message@),
    {
        self.messages.push(message);
        assert(self@ =~= old(self)@.push(message@));
    }

    /// How many messages wait to be taken.
    pub fn len(&self) -> (r: usize)
        ensures
            r == self@.len(),
    {
        self.messages.len()
    }

    /// The message at `index`, counted from the oldest.
    pub fn get(&self, index: usize) -> (r: Option<&String>)
        ensures
            r.is_some() == (index < self@.len()),
            r matches Some(message) ==> message@ == self@[index as int],
    {
        if index < self.messages.len() {
            Some(&self.messages[index])
        } else {
            None
        }
    }

    /// Hands all waiting messages to the host, oldest first, and leaves the
    /// console empty.
    pub fn take(&mut self) -> (r: Vec<String>)
        ensures
            r@.len() == old(self)@.len(),
            forall|i: int| 0 <= i < r@.len() ==> (#[trigger] r@[i])@ == old(self)@[i],
            final(self)@ == Seq::<Seq<char>>::empty(),
    {
        let mut taken: Vec<String> = Vec::new();
        core::mem::swap(&mut taken, &mut self.messages);
        assert(self@ =~= Seq::<Seq<char>>::empty());
        taken
    }

    /// Sends all waiting messages through `sender`, oldest first, and
    /// leaves the console empty. The result holds one outcome for each
    /// message, in the same order: whether the host took it. A host that
    /// has stopped listening takes none, and the messages are dropped.
    pub fn deliver(&mut self, sender: &Sender<String>) -> (outcomes: Vec<bool>)
        ensures
            final(self)@ == Seq::<Seq<char>>::empty(),
            outcomes@.len() == old(self)@.len(),
    {
        let waiting = self.take();
        let mut outcomes: Vec<bool> = Vec::new();
        let mut i: usize = 0;
        while i < waiting.len()
            invariant
                i <= waiting.len(),
                outcomes@.len() == i,
            decreases waiting.len() - i,
        {
            let taken = send_on(sender, waiting[i].clone());
            outcomes.push(taken);
            i = i + 1;
        }
        outcomes
    }
}

} // verus!
