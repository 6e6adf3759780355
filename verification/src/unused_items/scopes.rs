//! Scopes in a sequence of events.
use super::events::scoped;
use super::uses::Event;
use vstd::prelude::*;

verus! {

/// How many scopes `events` open less how many they close.
pub open spec fn depth(events: Seq<Event>) -> int
    decreases events.len(),
{
    if events.len() == 0 {
        0
    } else {
        depth(events.drop_last()) + match events.last() {
            Event::Enter => 1int,
            Event::Exit => -1int,
            _ => 0int,
        }
    }
}

/// Whether every scope that closes was opened before, and every scope that opens is closed.
#[verifier::opaque]
pub open spec fn is_balanced(events: Seq<Event>) -> bool {
    &&& depth(events) == 0
    &&& forall|count: int| 0 <= count <= events.len() ==> depth(#[trigger] events.take(count)) >= 0
}

proof fn lemma_depth_joined(first: Seq<Event>, second: Seq<Event>)
    ensures
        depth(first + second) == depth(first) + depth(second),
    decreases second.len(),
{
    if second.len() == 0 {
        assert(first + second =~= first);
    } else {
        assert((first + second).drop_last() =~= first + second.drop_last());
        lemma_depth_joined(first, second.drop_last());
    }
}

proof fn lemma_prefix_joined(first: Seq<Event>, second: Seq<Event>, count: int)
    requires
        0 <= count <= first.len() + second.len(),
    ensures
        depth((first + second).take(count)) == if count <= first.len() {
            depth(first.take(count))
        } else {
            depth(first) + depth(second.take(count - first.len()))
        },
{
    if count <= first.len() {
        assert((first + second).take(count) =~= first.take(count));
    } else {
        assert((first + second).take(count) =~= first + second.take(count - first.len()));
        lemma_depth_joined(first, second.take(count - first.len()));
    }
}

/// Balanced runs of events, one after the other, are balanced.
pub broadcast proof fn balanced_joined(first: Seq<Event>, second: Seq<Event>)
    requires
        is_balanced(first),
        is_balanced(second),
    ensures
        #[trigger] is_balanced(first + second),
{
    reveal(is_balanced);
    lemma_depth_joined(first, second);
    assert forall|count: int| 0 <= count <= (first + second).len() implies depth(
        #[trigger] (first + second).take(count),
    ) >= 0 by {
        lemma_prefix_joined(first, second, count);
    }
}

/// An event that neither opens nor closes a scope is balanced, and so is no event at all.
pub broadcast proof fn balanced_one(events: Seq<Event>)
    requires
        events.len() <= 1,
        events.len() == 1 ==> !(events[0] is Enter) && !(events[0] is Exit),
    ensures
        #[trigger] is_balanced(events),
{
    reveal(is_balanced);
    reveal_with_fuel(depth, 3);
    assert forall|count: int| 0 <= count <= events.len() implies depth(
        #[trigger] events.take(count),
    ) >= 0 by {
        if events.len() == 1 && count == 1 {
            assert(events.take(count) =~= events);
        }
    }
}

/// A scope around balanced events is balanced.
pub broadcast proof fn balanced_scoped(events: Seq<Event>)
    requires
        is_balanced(events),
    ensures
        #[trigger] is_balanced(scoped(events)),
{
    reveal(is_balanced);
    reveal_with_fuel(depth, 3);
    let open: Seq<Event> = seq![Event::Enter];
    let close: Seq<Event> = seq![Event::Exit];
    assert(open.drop_last() =~= Seq::<Event>::empty());
    assert(close.drop_last() =~= Seq::<Event>::empty());
    lemma_depth_joined(open, events);
    lemma_depth_joined(open + events, close);
    assert forall|count: int| 0 <= count <= scoped(events).len() implies depth(
        #[trigger] scoped(events).take(count),
    ) >= 0 by {
        lemma_prefix_joined(open + events, close, count);
        if count <= (open + events).len() {
            lemma_prefix_joined(open, events, count);
            if count == 0 {
                assert(open.take(0) =~= Seq::<Event>::empty());
            } else if count == 1 {
                assert(open.take(1) =~= open);
            }
        } else {
            assert(close.take(1) =~= close);
        }
    }
}

} // verus!
