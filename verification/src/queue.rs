//! Hand-off of events from the browser threads to Godot's main loop.

use vstd::prelude::*;
use std::collections::VecDeque;

verus! {

/// Drains all items from a queue, returning them as a `Vec` in the order in
/// which they were queued; the queue is left empty.
pub fn drain_queue<T>(queue: &mut VecDeque<T>) -> (r: Vec<T>)
    ensures
        r@ == old(queue)@,
        final(queue)@.len() == 0,
{
    let ghost all = queue@;
    let mut out: Vec<T> = Vec::new();
    loop
        invariant
            all == out@ + queue@,
        ensures
            all == out@,
            queue@.len() == 0,
        decreases queue@.len(),
    {
        match queue.pop_front() {
            Some(item) => {
                out.push(item);
            },
            None => {
                assert(out@ + queue@ =~= out@);
                break;
            },
        }
    }
    out
}

} // verus!
