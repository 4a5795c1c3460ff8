//! Turning batches of items into single items, in order.

use vstd::prelude::*;
use std::collections::VecDeque;

verus! {

/// What polling the source of batches gave.
#[derive(Debug, PartialEq, Eq)]
pub enum Polled<T, E> {
    /// Nothing is available yet.
    Pending,
    /// The source is exhausted.
    Finished,
    /// The source itself failed.
    Failed(E),
    /// The source delivered a failure in place of a batch.
    Rejected(E),
    /// The source delivered a batch.
    Batch(Vec<T>),
}

/// What the consumer of single items is told.
#[derive(Debug, PartialEq, Eq)]
pub enum Expanded<T, E> {
    /// The next item.
    Item(T),
    /// Nothing is available yet.
    Pending,
    /// There will be no more items.
    Finished,
    /// The source itself failed.
    Failed(E),
    /// The source delivered a failure in place of a batch.
    Rejected(E),
}

/// A queue that expands a stream of vectors of items into a stream of
/// items: batches go in whole, items come out one at a time, in the order
/// of arrival.
#[derive(Debug)]
pub struct Vexpand<T> {
    /// A queue of messages
    queue: VecDeque<T>,
}

impl<T> View for Vexpand<T> {
    type V = Seq<T>;

    closed spec fn view(&self) -> Seq<T> {
        self.queue@
    }
}

/// What a poll of the source means for the consumer, where it settles the
/// matter. A batch settles nothing: its items are queued and the queue is
/// asked again.
pub open spec fn settled<T, E>(polled: Polled<T, E>) -> Option<Expanded<T, E>> {
    match polled {
        Polled::Pending => Some(Expanded::Pending),
        Polled::Finished => Some(Expanded::Finished),
        Polled::Failed(e) => Some(Expanded::Failed(e)),
        Polled::Rejected(e) => Some(Expanded::Rejected(e)),
        Polled::Batch(_) => None,
    }
}

/// The items that the source delivered, where it was polled and delivered
/// a batch.
pub open spec fn delivered<T, E>(polled: Option<Polled<T, E>>) -> Seq<T> {
    match polled {
        Some(Polled::Batch(batch)) => batch@,
        _ => Seq::empty(),
    }
}

/// What the consumer is told when `waiting` is queued and the source gave
/// `polled`, if it was polled at all: the item that has waited longest
/// while there is any, and what the source said only when there is none.
pub open spec fn answered<T, E>(waiting: Seq<T>, polled: Option<Polled<T, E>>) -> Option<
    Expanded<T, E>,
> {
    let all = waiting + delivered(polled);
    if all.len() > 0 {
        Some(Expanded::Item(all[0]))
    } else {
        match polled {
            Some(polled) => settled(polled),
            None => None,
        }
    }
}

/// What is queued after the consumer has been told: everything that
/// waited and everything that the source delivered, less the item that was
/// handed out.
pub open spec fn left<T, E>(waiting: Seq<T>, polled: Option<Polled<T, E>>) -> Seq<T> {
    let all = waiting + delivered(polled);
    if all.len() > 0 {
        all.skip(1)
    } else {
        all
    }
}

/// While an item waits, the consumer gets that item and nothing else,
/// whatever the source says: no item is lost when the source ends or
/// waits. The source is heard only when the queue is empty.
pub proof fn lemma_queue_is_served_first<T, E>(waiting: Seq<T>, polled: Option<Polled<T, E>>)
    ensures
        waiting.len() > 0 ==> answered(waiting, polled) == Some(
            Expanded::<T, E>::Item(waiting[0]),
        ),
        waiting.len() > 0 ==> left(waiting, polled) == waiting.skip(1) + delivered(polled),
        !(answered(waiting, polled) is Some && answered(waiting, polled)->0 is Item)
            ==> waiting.len() == 0 && left(waiting, polled).len() == 0,
{
    if waiting.len() > 0 {
        assert((waiting + delivered(polled)).skip(1) =~= waiting.skip(1) + delivered(polled));
    }
}

impl<T> Vexpand<T> {
    /// Create a new, empty `Vexpand`.
    pub fn new() -> (queue: Self)
        ensures
            queue@ == Seq::<T>::empty(),
    {
        Vexpand { queue: VecDeque::new() }
    }

    /// The number of items that wait.
    pub fn len(&self) -> (len: usize)
        ensures
            len == self@.len(),
    {
        self.queue.len()
    }

    /// Whether no item waits.
    pub fn is_empty(&self) -> (empty: bool)
        ensures
            empty == (self@.len() == 0),
    {
        self.queue.len() == 0
    }

    /// Queue the items of `batch` behind those that wait, in their order.
    pub fn extend(&mut self, batch: Vec<T>)
        ensures
            final(self)@ == old(self)@ + batch@,
    {
        let mut batch = batch;
        let ghost all = batch@;
        let ghost before = self@;
        let mut rest: VecDeque<T> = VecDeque::new();
        // Move the items out of the vector from its end, so that none is copied.
        while batch.len() > 0
            invariant
                batch@ + rest@ == all,
            decreases batch.len(),
        {
            let ghost b = batch@;
            let ghost r = rest@;
            let last = batch.pop();
            match last {
                Some(item) => {
                    rest.push_front(item);
                    assert(batch@ + rest@ =~= b + r);
                },
                None => {},
            }
        }
        assert(rest@ =~= all);
        self.queue.append(&mut rest);
    }

    /// Take the item that has waited longest; `None` where none waits.
    pub fn pop(&mut self) -> (item: Option<T>)
        ensures
            old(self)@.len() == 0 ==> item is None && final(self)@ == old(self)@,
            old(self)@.len() > 0 ==> item == Some(old(self)@[0]) && final(self)@ == old(self)@.skip(1),
    {
        let item = self.queue.pop_front();
        proof {
            if old(self)@.len() > 0 {
                assert(old(self)@.subrange(1, old(self)@.len() as int) =~= old(self)@.skip(1));
            }
        }
        item
    }

    /// One step of the consumer's poll.
    ///
    /// The queue is served first: while an item waits, the answer is the
    /// item that has waited longest, and the source is not to be polled, so
    /// `polled` is `None`. Only when the queue is empty does the consumer
    /// poll the source and hand in what that gave. A batch is queued and
    /// its first item is the answer; any other answer of the source is
    /// handed on as it is.
    ///
    /// `None` is returned where nothing settles the matter: the queue is
    /// empty and the source was not polled, or delivered an empty batch.
    /// The consumer then polls the source and asks again.
    ///
    /// A batch that is handed in while items wait queues up behind them.
    /// Any other answer of the source is heard only with an empty queue:
    /// handed in while items wait it is not looked at, which is why the
    /// source is polled only when [`Self::is_empty`] says that nothing
    /// waits.
    pub fn poll_next<E>(&mut self, polled: Option<Polled<T, E>>) -> (answer: Option<
        Expanded<T, E>,
    >)
        ensures
            answer == answered(old(self)@, polled),
            final(self)@ == left(old(self)@, polled),
            old(self)@.len() > 0 ==> answer == Some(Expanded::<T, E>::Item(old(self)@[0])),
            old(self)@.len() > 0 ==> final(self)@ == old(self)@.skip(1) + delivered(polled),
            answer matches Some(told) && !(told is Item) ==> old(self)@.len() == 0
                && final(self)@.len() == 0,
    {
        proof {
            lemma_queue_is_served_first(old(self)@, polled);
        }
        let other = match polled {
            Some(Polled::Batch(batch)) => {
                self.extend(batch);
                None
            },
            other => other,
        };
        let ghost all = self@;
        match self.pop() {
            Some(item) => Some(Expanded::Item(item)),
            None => {
                assert(self@ =~= Seq::<T>::empty());
                match other {
                    Some(Polled::Pending) => Some(Expanded::Pending),
                    Some(Polled::Finished) => Some(Expanded::Finished),
                    Some(Polled::Failed(e)) => Some(Expanded::Failed(e)),
                    Some(Polled::Rejected(e)) => Some(Expanded::Rejected(e)),
                    Some(Polled::Batch(_)) => None,
                    None => None,
                }
            },
        }
    }
}

} // verus!
