use vstd::prelude::*;

verus! {

/// The last `n` items of `s`, in order; all of `s` when it has fewer.
pub open spec fn last_n<E>(s: Seq<E>, n: nat) -> Seq<E> {
    if n >= s.len() {
        s
    } else {
        s.subrange(s.len() - n, s.len() as int)
    }
}

/// The most recent of the runtime's events, oldest first in `events`.
pub fn last_event<E>(events: Vec<E>) -> (r: E)
    requires
        events@.len() > 0,
    ensures
        r == events@.last(),
{
    let mut events = events;
    events.pop().unwrap()
}

/// The `n` most recent of the runtime's events, oldest first; all of them when
/// there are fewer.
pub fn last_events<E>(events: Vec<E>, n: usize) -> (r: Vec<E>)
    ensures
        r@ == last_n(events@, n as nat),
        r@.len() == if (n as nat) < events@.len() { n as nat } else { events@.len() },
        forall|i: int|
            0 <= i < r@.len() ==> #[trigger] r@[i] == events@[events@.len() - r@.len() + i],
{
    let mut events = events;
    let len = events.len();
    if n >= len {
        events
    } else {
        events.split_off(len - n)
    }
}

/// The most recent `n` events are a contiguous, unreordered stretch at the end
/// of the list: `n` of them, or all when there are fewer, each the event at
/// the same distance from the end.
pub proof fn lemma_last_n_is_suffix<E>(events: Seq<E>, n: nat)
    ensures
        last_n(events, n).len() == if n < events.len() { n } else { events.len() },
        forall|i: int|
            0 <= i < last_n(events, n).len() ==> #[trigger] last_n(events, n)[i] == events[events.len()
                - last_n(events, n).len() + i],
        n >= events.len() ==> last_n(events, n) == events,
{
}

/// Of a non-empty list of events, the single most recent one is its last.
pub proof fn lemma_last_event_is_last_of_last_events<E>(events: Seq<E>)
    requires
        events.len() > 0,
    ensures
        last_n(events, 1) == seq![events.last()],
{
    assert(last_n(events, 1) =~= seq![events.last()]);
}

/// Asking for the most recent `n` events gives `n` of them, or all when there
/// are fewer, and asking for more of them extends the answer at the front.
pub proof fn lemma_last_events_grow<E>(events: Seq<E>, n: nat, m: nat)
    requires
        n <= m,
    ensures
        last_n(events, n).len() == if n <= events.len() { n } else { events.len() },
        last_n(events, m).subrange(
            last_n(events, m).len() - last_n(events, n).len(),
            last_n(events, m).len() as int,
        ) == last_n(events, n),
{
    let a = last_n(events, m);
    let b = last_n(events, n);
    assert(a.subrange(a.len() - b.len(), a.len() as int) =~= b);
}

} // verus!
