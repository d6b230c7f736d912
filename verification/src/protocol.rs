//! Capability contracts that domain types satisfy: a command carries a wire
//! name and a serialized payload and is validated against the current state;
//! an event carries a wire name and a serialized payload and is folded into
//! the state, strictly in log order.

use crate::naming::{spec_command_name, spec_event_name, CommandName, EventName, StateName};
use vstd::prelude::*;

verus! {

/// A type that declares the wire-level name of the state it stands for; that
/// name qualifies the wire names of the commands the state owns.
pub trait StateNamed {
    /// The declared state name, as it appears inside command wire names.
    spec fn spec_state_name() -> Seq<char>;

    /// Returns the declared state name.
    fn state_name() -> (r: StateName)
        ensures
            r@ == Self::spec_state_name(),
    ;
}

/// A command: a request to change domain state. It presents a wire name and
/// a serialized payload; it is validated, may be rejected, and is never
/// itself folded into state.
pub trait Command: View {
    /// The state this command family belongs to. The association is
    /// mandatory: a command type that declares none does not build.
    type Owner: StateNamed;

    /// The name of this instance's variant, verbatim.
    spec fn spec_variant(&self) -> Seq<char>;

    /// The wire name owed to this instance's variant.
    spec fn spec_name(&self) -> Seq<char>;

    /// The serialized payload this instance presents for transport.
    spec fn spec_payload(&self) -> Seq<char>;

    /// Law: the wire name of every command has the mandatory format —
    /// `CMD.`, the owning state's declared name, a dot, and the variant's
    /// name. Each command type proves this of itself when it is defined.
    proof fn lemma_name_format(&self)
        ensures
            self.spec_name() == spec_command_name(
                <Self::Owner as StateNamed>::spec_state_name(),
                self.spec_variant(),
            ),
    ;

    /// Returns the variant's wire name.
    fn command_name(&self) -> (r: CommandName)
        ensures
            r@ == self.spec_name(),
    ;

    /// Returns the serialized payload.
    fn payload(&self) -> (r: String)
        ensures
            r@ == self.spec_payload(),
    ;
}

/// An event: an immutable fact that already happened. It presents a wire
/// name and a serialized payload; it is always applied, never rejected.
pub trait Event: View {
    /// The name of this instance's variant, verbatim.
    spec fn spec_variant(&self) -> Seq<char>;

    /// The wire name owed to this instance's variant.
    spec fn spec_name(&self) -> Seq<char>;

    /// The serialized payload this instance presents for transport.
    spec fn spec_payload(&self) -> Seq<char>;

    /// Law: the wire name of every event has the mandatory format — `evt.`
    /// followed by the variant's name in snake case. Each event type proves
    /// this of itself when it is defined.
    proof fn lemma_name_format(&self)
        ensures
            self.spec_name() == spec_event_name(self.spec_variant()),
    ;

    /// Returns the variant's wire name.
    fn event_name(&self) -> (r: EventName)
        ensures
            r@ == self.spec_name(),
    ;

    /// Returns the serialized payload.
    fn payload(&self) -> (r: String)
        ensures
            r@ == self.spec_payload(),
    ;
}

/// The views of the elements of a sequence, in order.
pub open spec fn views_of<T: View>(items: Seq<T>) -> Seq<T::V> {
    items.map_values(|t: T| t@)
}

/// A state snapshot rebuilt solely by folding its events, in log order.
pub trait Dto: View + Sized {
    /// The event family folded into this state.
    type Event: Event;

    /// The domain error with which this state rejects a command.
    type Error;

    /// What folding one event means, stated over the views of the state and
    /// of the event. Folding is total: it is defined for every event variant
    /// reachable for the state, and never fails.
    spec fn spec_play(pre: Self::V, event: <Self::Event as View>::V) -> Self::V;

    /// Folds one event into the state, in place.
    fn play_event(&mut self, event: &Self::Event)
        ensures
            final(self)@ == Self::spec_play(old(self)@, event@),
    ;
}

/// A state that validates commands: the command capability of an aggregate.
pub trait State: Dto {
    /// The command family this state validates.
    type Command: Command;

    /// What validating a command means: the ordered events it emits, or the
    /// domain error it is rejected with — a function of the state and the
    /// command alone.
    spec fn spec_try(pre: Self::V, command: <Self::Command as View>::V) -> Result<
        Seq<<Self::Event as View>::V>,
        Self::Error,
    >;

    /// Validates `command` against the current state. A command that is a
    /// legal no-op returns an empty event sequence; that is not an error.
    fn try_command(&self, command: Self::Command) -> (r: Result<Vec<Self::Event>, Self::Error>)
        ensures
            match (r, Self::spec_try(self@, command@)) {
                (Ok(events), Ok(expected)) => views_of(events@) == expected,
                (Err(actual), Err(expected)) => actual == expected,
                _ => false,
            },
    ;
}

/// The state that results from folding an ordered event sequence, stated
/// over views.
pub open spec fn fold_events<S: Dto>(pre: S::V, events: Seq<<S::Event as View>::V>) -> S::V
    decreases events.len(),
{
    if events.len() == 0 {
        pre
    } else {
        fold_events::<S>(S::spec_play(pre, events[0]), events.skip(1))
    }
}

/// Folds every event of `events` into `state`, strictly in order.
pub fn play_all<S: Dto>(state: &mut S, events: &Vec<S::Event>)
    ensures
        final(state)@ == fold_events::<S>(old(state)@, views_of(events@)),
{
    let ghost evs = views_of(events@);
    proof {
        assert(evs.skip(0) =~= evs);
    }
    let n = events.len();
    let mut i: usize = 0;
    while i < n
        invariant
            i <= n,
            n == events.len(),
            evs == views_of(events@),
            fold_events::<S>(old(state)@, evs) == fold_events::<S>(state@, evs.skip(i as int)),
        decreases n - i,
    {
        proof {
            assert(evs.skip(i as int)[0] == evs[i as int]);
            assert(evs.skip(i as int).skip(1) =~= evs.skip(i as int + 1));
        }
        state.play_event(&events[i]);
        i = i + 1;
    }
    proof {
        assert(evs.skip(n as int) =~= Seq::<<S::Event as View>::V>::empty());
    }
}

/// Law: folding is deterministic. Replaying one ordered event sequence from
/// equal starting states yields equal states; in particular, folding the
/// same log into a freshly created state twice rebuilds the same snapshot.
pub proof fn lemma_fold_deterministic<S: Dto>(
    a: S::V,
    b: S::V,
    events: Seq<<S::Event as View>::V>,
)
    requires
        a == b,
    ensures
        fold_events::<S>(a, events) == fold_events::<S>(b, events),
{
}

} // verus!
