use std::collections::VecDeque;
use vstd::prelude::*;

verus! {

/// `s` with `x` appended at the back, after the oldest entry is dropped when
/// `s` already holds `capacity` entries.
pub open spec fn bounded_push<T>(s: Seq<T>, capacity: nat, x: T) -> Seq<T> {
    if s.len() >= capacity && s.len() > 0 {
        s.drop_first().push(x)
    } else {
        s.push(x)
    }
}

/// Appends `x` to `q`, first evicting the oldest entry when `q` is full.
/// Returns the evicted entry.
pub fn push_bounded<T>(q: &mut VecDeque<T>, capacity: usize, x: T) -> (evicted: Option<T>)
    requires
        capacity > 0,
        old(q)@.len() <= capacity,
    ensures
        final(q)@ == bounded_push(old(q)@, capacity as nat, x),
        final(q)@.len() <= capacity,
        old(q)@.len() == capacity ==> evicted == Some(old(q)@[0]),
        old(q)@.len() < capacity ==> evicted.is_none(),
{
    let evicted = if q.len() >= capacity {
        q.pop_front()
    } else {
        None
    };
    q.push_back(x);
    proof {
        assert(final(q)@ =~= bounded_push(old(q)@, capacity as nat, x));
    }
    evicted
}

} // verus!
