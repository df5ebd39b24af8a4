//! Handing the items of a vector out one by one, first to last.

use vstd::prelude::*;
use std::collections::VecDeque;

verus! {

/// A queue of the items of `items`, in their order.
pub fn queue_of<V>(items: Vec<V>) -> (queue: VecDeque<V>)
    ensures
        queue@ == items@,
{
    let mut rest = items;
    let mut queue: VecDeque<V> = VecDeque::new();
    while rest.len() > 0
        invariant
            rest@ + queue@ == items@,
        decreases rest.len(),
    {
        if let Some(item) = rest.pop() {
            queue.push_front(item);
        }
        assert(rest@ + queue@ =~= items@);
    }
    assert(queue@ =~= rest@ + queue@);
    queue
}

} // verus!
