//! The main loop's rule for a batch of input events: every event that the
//! toolkit understood marks a redraw as owed, and the first event that closes
//! the window or presses Escape ends the loop at once, with the rest of the
//! batch left unread.

use crate::governor::{EventLoop, Timing};
use vstd::prelude::*;

verus! {

/// What an input event means to the main loop.
#[derive(Clone, Copy, Debug, PartialEq, Eq, Structural)]
pub enum Input {
    /// The window was asked to close.
    Closed,
    /// The Escape key was pressed.
    Escape,
    /// Anything else.
    Other,
}

impl Input {
    /// Whether this input ends the main loop.
    pub open spec fn exits(self) -> bool {
        self == Input::Closed || self == Input::Escape
    }

    /// Whether this input ends the main loop.
    pub fn ends_loop(&self) -> (exit: bool)
        ensures
            exit == self.exits(),
    {
        match self {
            Input::Closed => true,
            Input::Escape => true,
            Input::Other => false,
        }
    }
}

/// One event of a batch, as the main loop sees it.
#[derive(Clone, Copy, Debug, PartialEq, Eq, Structural)]
pub struct Incoming {
    /// What the event means to the main loop.
    pub input: Input,
    /// Whether the toolkit understood the event and took it in.
    pub taken_in: bool,
}

/// How the main loop goes on after a batch.
#[derive(Clone, Copy, Debug, PartialEq, Eq, Structural)]
pub enum Flow {
    /// Declare the widgets and draw the frame.
    Frame,
    /// Leave the loop without drawing.
    Exit,
}

/// The result of reading a batch.
#[derive(Clone, Copy, Debug, PartialEq, Eq, Structural)]
pub struct Outcome {
    /// How many events were read, from the front of the batch.
    pub consumed: usize,
    /// How the main loop goes on.
    pub flow: Flow,
}

/// Whether the event at `i` is the first of the batch that ends the loop.
pub open spec fn first_exit_at(batch: Seq<Incoming>, i: int) -> bool {
    &&& 0 <= i < batch.len()
    &&& batch[i].input.exits()
    &&& forall|j: int| 0 <= j < i ==> !(#[trigger] batch[j]).input.exits()
}

/// Whether any event of the batch ends the loop.
pub open spec fn has_exit(batch: Seq<Incoming>) -> bool {
    exists|i: int| 0 <= i < batch.len() && (#[trigger] batch[i]).input.exits()
}

/// Whether the toolkit took in any of the first `n` events.
pub open spec fn any_taken_in(batch: Seq<Incoming>, n: int) -> bool {
    exists|i: int| 0 <= i < n && i < batch.len() && (#[trigger] batch[i]).taken_in
}

/// Reads a batch from the front. Each event read that the toolkit took in
/// marks a redraw as owed. Reading stops behind the first event that ends the
/// loop; without one, the whole batch is read and a frame follows.
pub fn handle_batch(governor: &mut EventLoop, batch: &Vec<Incoming>) -> (outcome: Outcome)
    ensures
        outcome.flow == Flow::Exit <==> has_exit(batch@),
        outcome.flow == Flow::Exit ==> first_exit_at(batch@, outcome.consumed - 1),
        outcome.flow == Flow::Frame ==> outcome.consumed == batch@.len(),
        final(governor)@ == (Timing {
            pending: old(governor)@.pending || any_taken_in(batch@, outcome.consumed as int),
            last_update: old(governor)@.last_update,
        }),
{
    let mut i: usize = 0;
    while i < batch.len()
        invariant
            i <= batch@.len(),
            forall|j: int| 0 <= j < i ==> !(#[trigger] batch@[j]).input.exits(),
            governor@ == (Timing {
                pending: old(governor)@.pending || any_taken_in(batch@, i as int),
                last_update: old(governor)@.last_update,
            }),
        decreases batch@.len() - i,
    {
        let event: Incoming = batch[i];
        if event.taken_in {
            governor.needs_update();
        }
        assert(any_taken_in(batch@, i + 1) == (any_taken_in(batch@, i as int)
            || event.taken_in)) by {
            if any_taken_in(batch@, i + 1) && !event.taken_in {
                let k = choose|k: int| 0 <= k < i + 1 && k < batch@.len() && (#[trigger] batch@[k]).taken_in;
                assert(k < i);
            }
            if event.taken_in {
                assert(batch@[i as int].taken_in);
            }
        }
        i = i + 1;
        if event.input.ends_loop() {
            assert(batch@[i - 1].input.exits());
            return Outcome { consumed: i, flow: Flow::Exit };
        }
    }
    Outcome { consumed: i, flow: Flow::Frame }
}

/// An event behind the first one that ends the loop has no effect: two
/// batches that agree up to and including that event are read alike.
pub proof fn rest_of_batch_is_unread(a: Seq<Incoming>, b: Seq<Incoming>, i: int)
    requires
        first_exit_at(a, i),
        b.len() > i,
        a.subrange(0, i + 1) == b.subrange(0, i + 1),
    ensures
        first_exit_at(b, i),
        any_taken_in(a, i + 1) == any_taken_in(b, i + 1),
{
    assert forall|j: int| 0 <= j <= i implies a[j] == b[j] by {
        assert(a.subrange(0, i + 1)[j] == a[j]);
        assert(b.subrange(0, i + 1)[j] == b[j]);
    }
    if any_taken_in(a, i + 1) {
        let k = choose|k: int| 0 <= k < i + 1 && k < a.len() && (#[trigger] a[k]).taken_in;
        assert(b[k].taken_in);
    }
    if any_taken_in(b, i + 1) {
        let k = choose|k: int| 0 <= k < i + 1 && k < b.len() && (#[trigger] b[k]).taken_in;
        assert(a[k].taken_in);
    }
}

} // verus!
