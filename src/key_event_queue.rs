use std::collections::VecDeque;
use std::sync::mpsc::Receiver;
use vstd::prelude::*;

verus! {

/// std's `mpsc::Receiver`, held opaque: the producer of keys sends them
/// through it.
#[verifier::external_type_specification]
#[verifier::external_body]
#[verifier::reject_recursive_types(T)]
pub struct ExReceiver<T>(Receiver<T>);

/// Relies on std's `Receiver::try_recv`: hands over a key that the producer
/// has already sent, if there is one, without blocking.
#[verifier::external_body]
fn try_receive(source: &Receiver<char>) -> (r: Option<char>) {
    source.try_recv().ok()
}

/// Relies on std's `Receiver::recv`: blocks until the producer sends a key,
/// and gives `None` once the producer has gone away.
#[verifier::external_body]
fn receive(source: &Receiver<char>) -> (r: Option<char>) {
    source.recv().ok()
}

/// The keys typed on the terminal and not yet consumed, oldest first.
///
/// Keys arrive from a producer over a channel; the ones already pulled from
/// the channel are buffered here, and it is this buffer that the queue's view
/// describes.
pub struct KeyEventQueue {
    keys: VecDeque<char>,
    source: Receiver<char>,
}

impl View for KeyEventQueue {
    type V = Seq<char>;

    closed spec fn view(&self) -> Seq<char> {
        self.keys@
    }
}

impl KeyEventQueue {
    /// An empty queue fed by `source`.
    pub fn new(source: Receiver<char>) -> (q: Self)
        ensures
            q@ == Seq::<char>::empty(),
    {
        KeyEventQueue { keys: VecDeque::new(), source }
    }

    /// Appends a key at the back of the queue.
    pub fn push(&mut self, c: char)
        ensures
            final(self)@ == old(self)@.push(c),
    {
        self.keys.push_back(c);
    }

    /// Whether a key is buffered, without asking the producer.
    pub fn has_buffered(&self) -> (r: bool)
        ensures
            r == (self@.len() > 0),
    {
        self.keys.len() > 0
    }

    /// Removes and returns the oldest buffered key, without asking the producer.
    pub fn take_buffered(&mut self) -> (r: Option<char>)
        ensures
            old(self)@.len() > 0 ==> r == Some(old(self)@[0]) && final(self)@ == old(self)@.drop_first(),
            old(self)@.len() == 0 ==> r is None && final(self)@ == old(self)@,
    {
        self.keys.pop_front()
    }

    /// Whether no key is waiting. Never blocks: a key that the producer has
    /// sent meanwhile is first moved into the buffer.
    pub fn is_empty(&mut self) -> (r: bool)
        ensures
            old(self)@.len() > 0 ==> final(self)@ == old(self)@,
            old(self)@.len() == 0 ==> final(self)@.len() <= 1,
            r == (final(self)@.len() == 0),
    {
        if self.keys.len() > 0 {
            return false;
        }
        match try_receive(&self.source) {
            Some(c) => {
                self.keys.push_back(c);
                false
            },
            None => true,
        }
    }

    /// Removes and returns the oldest key, if one is waiting; never blocks.
    pub fn poll_key(&mut self) -> (r: Option<char>)
        ensures
            old(self)@.len() > 0 ==> r == Some(old(self)@[0]) && final(self)@ == old(self)@.drop_first(),
            old(self)@.len() == 0 ==> final(self)@ == old(self)@,
    {
        match self.keys.pop_front() {
            Some(c) => Some(c),
            None => try_receive(&self.source),
        }
    }

    /// Removes and returns the oldest key, waiting for one to be typed if
    /// none is buffered. `None` means that the producer is gone and no key
    /// will ever come.
    pub fn pop_blocking(&mut self) -> (r: Option<char>)
        ensures
            old(self)@.len() > 0 ==> r == Some(old(self)@[0]) && final(self)@ == old(self)@.drop_first(),
            old(self)@.len() == 0 ==> final(self)@ == old(self)@,
    {
        match self.keys.pop_front() {
            Some(c) => Some(c),
            None => receive(&self.source),
        }
    }

    /// Waits until at least one key is buffered, leaving it in the queue.
    /// Returns `false`, with the queue unchanged, when the producer is gone.
    pub fn wait_key(&mut self) -> (r: bool)
        ensures
            old(self)@.len() > 0 ==> r && final(self)@ == old(self)@,
            old(self)@.len() == 0 && r ==> final(self)@.len() == 1,
            !r ==> final(self)@ == old(self)@,
    {
        if self.keys.len() > 0 {
            return true;
        }
        match receive(&self.source) {
            Some(c) => {
                self.keys.push_back(c);
                true
            },
            None => false,
        }
    }
}

} // verus!
