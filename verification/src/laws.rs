//! The laws of the counter: what holds of every state and every event,
//! proved once and for all over the transition and rendering functions.

use crate::render::spec_render;
use crate::state::Event;
use crate::state::StateModel;
use crate::state::spec_apply;
use vstd::prelude::*;

verus! {

/// The state after the same event has been applied a number of times
/// over.
pub open spec fn apply_repeated(s: StateModel, e: Event, n: nat) -> StateModel
    decreases n,
{
    if n == 0 {
        s
    } else {
        spec_apply(apply_repeated(s, e, (n - 1) as nat), e)
    }
}

/// An increment adds exactly one to the value, in every state.
pub proof fn lemma_increment_adds_one(s: StateModel)
    ensures
        spec_apply(s, Event::Increment).value == s.value + 1,
{
}

/// A decrement subtracts exactly one from the value, in every state.
pub proof fn lemma_decrement_subtracts_one(s: StateModel)
    ensures
        spec_apply(s, Event::Decrement).value == s.value - 1,
{
}

/// A text change replaces the text wholesale, whatever stood there
/// before.
pub proof fn lemma_text_changed_sets_text(s: StateModel, t: Seq<char>)
    ensures
        spec_apply(s, Event::TextChanged(t)).txt == t,
{
}

/// The two fields are independent: the button events leave the text
/// alone, and a text change leaves the value alone.
pub proof fn lemma_field_independence(s: StateModel, e: Event)
    ensures
        !(e is TextChanged) ==> spec_apply(s, e).txt == s.txt,
        e is TextChanged ==> spec_apply(s, e).value == s.value,
{
}

/// An increment followed by a decrement returns any state unchanged.
pub proof fn lemma_increment_then_decrement(s: StateModel)
    ensures
        spec_apply(spec_apply(s, Event::Increment), Event::Decrement) == s,
{
    assert(spec_apply(spec_apply(s, Event::Increment), Event::Decrement) =~= s);
}

/// Repeated increments add their count to the value and keep the text.
pub proof fn lemma_repeated_increment(s: StateModel, n: nat)
    ensures
        apply_repeated(s, Event::Increment, n).value == s.value + n,
        apply_repeated(s, Event::Increment, n).txt == s.txt,
    decreases n,
{
    if n > 0 {
        lemma_repeated_increment(s, (n - 1) as nat);
    }
}

/// Repeated decrements subtract their count from the value and keep the
/// text.
pub proof fn lemma_repeated_decrement(s: StateModel, n: nat)
    ensures
        apply_repeated(s, Event::Decrement, n).value == s.value - n,
        apply_repeated(s, Event::Decrement, n).txt == s.txt,
    decreases n,
{
    if n > 0 {
        lemma_repeated_decrement(s, (n - 1) as nat);
    }
}

/// Applying the increment event any number of times and then the
/// decrement event as many times returns the value - indeed the whole
/// state - to where it began.
pub proof fn lemma_increment_decrement_round_trip(s: StateModel, n: nat)
    ensures
        apply_repeated(apply_repeated(s, Event::Increment, n), Event::Decrement, n) == s,
{
    lemma_repeated_increment(s, n);
    lemma_repeated_decrement(apply_repeated(s, Event::Increment, n), n);
    assert(apply_repeated(apply_repeated(s, Event::Increment, n), Event::Decrement, n) =~= s);
}

/// Rendering reads nothing but the state: equal states render equally.
pub proof fn lemma_render_deterministic(s1: StateModel, s2: StateModel)
    requires
        s1 == s2,
    ensures
        spec_render(s1) == spec_render(s2),
{
}

} // verus!
