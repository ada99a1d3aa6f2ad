//! What holds of every run of the dispatch loop.

use crate::dispatch::{
    next_phase, response, responses, step_of, Action, CycleOutcome, Event, FatalError,
    KeyboardEvent, Phase, RegistryEvent, SeatEvent, Step,
};
use crate::keymap::{retrieval, Retrieval};
use crate::registry::{names_seat, Bind, ObjectId, SEAT_VERSION};
use crate::seat::{DeviceClass, GetKeyboard};
use vstd::prelude::*;

verus! {

/// Whether `event` announces a seat.
pub open spec fn announces_seat(event: Event) -> bool {
    event matches Event::Registry(RegistryEvent::Global { interface_name, .. }) && names_seat(
        interface_name@,
    )
}

/// Whether `event` is a capability change that holds the keyboard class.
pub open spec fn offers_keyboard(event: Event) -> bool {
    event matches Event::Seat(_, SeatEvent::Capabilities { capabilities })
        && capabilities@.contains(DeviceClass::Keyboard)
}

/// The globals that the seat announcements among `events` name, in the order
/// of the events.
pub open spec fn announced_seats(events: Seq<Event>) -> Seq<ObjectId>
    decreases events.len(),
{
    if events.len() == 0 {
        Seq::empty()
    } else {
        let earlier = announced_seats(events.drop_last());
        match events.last() {
            Event::Registry(RegistryEvent::Global { id, interface_name, .. }) => if names_seat(
                interface_name@,
            ) {
                earlier.push(id)
            } else {
                earlier
            },
            _ => earlier,
        }
    }
}

/// The globals that the bind requests among `actions` name, in the order of
/// the actions.
pub open spec fn bound_globals(actions: Seq<Action>) -> Seq<ObjectId>
    decreases actions.len(),
{
    if actions.len() == 0 {
        Seq::empty()
    } else {
        let earlier = bound_globals(actions.drop_last());
        match actions.last() {
            Action::Bind(bind) => earlier.push(bind.global),
            _ => earlier,
        }
    }
}

/// The seats whose capability changes among `events` hold the keyboard
/// class, one entry for each such event, in the order of the events.
pub open spec fn keyboard_offers(events: Seq<Event>) -> Seq<ObjectId>
    decreases events.len(),
{
    if events.len() == 0 {
        Seq::empty()
    } else {
        let earlier = keyboard_offers(events.drop_last());
        match events.last() {
            Event::Seat(seat, SeatEvent::Capabilities { capabilities }) => if capabilities@.contains(
                DeviceClass::Keyboard,
            ) {
                earlier.push(seat)
            } else {
                earlier
            },
            _ => earlier,
        }
    }
}

/// The seats that the keyboard requests among `actions` name, in the order
/// of the actions.
pub open spec fn keyboard_requests(actions: Seq<Action>) -> Seq<ObjectId>
    decreases actions.len(),
{
    if actions.len() == 0 {
        Seq::empty()
    } else {
        let earlier = keyboard_requests(actions.drop_last());
        match actions.last() {
            Action::GetKeyboard(request) => earlier.push(request.seat),
            _ => earlier,
        }
    }
}

/// The plans owed for the keymap descriptions among `events`, one for each
/// description, in the order of the events.
pub open spec fn keymap_plans(events: Seq<Event>) -> Seq<Retrieval>
    decreases events.len(),
{
    if events.len() == 0 {
        Seq::empty()
    } else {
        let earlier = keymap_plans(events.drop_last());
        match events.last() {
            Event::Keyboard(_, KeyboardEvent::Keymap { format, resource, size }) => earlier.push(
                retrieval(format, resource, size),
            ),
            _ => earlier,
        }
    }
}

/// The plans among `actions`, in the order of the actions.
pub open spec fn retrievals(actions: Seq<Action>) -> Seq<Retrieval>
    decreases actions.len(),
{
    if actions.len() == 0 {
        Seq::empty()
    } else {
        let earlier = retrievals(actions.drop_last());
        match actions.last() {
            Action::Retrieve(plan) => earlier.push(plan),
            _ => earlier,
        }
    }
}

/// Dropping the last event of a batch drops the last action.
proof fn lemma_responses_drop_last(events: Seq<Event>)
    requires
        events.len() > 0,
    ensures
        responses(events).drop_last() == responses(events.drop_last()),
        responses(events).last() == response(events.last()),
{
    assert(responses(events).drop_last() =~= responses(events.drop_last()));
}

/// Over any sequence of events, a global is bound if and only if it was
/// announced as a seat: the action for an event is a bind exactly when the
/// event announces a seat, the bind then names the announced global at
/// [`SEAT_VERSION`], and the binds of the whole sequence name the announced
/// seats, each once and in order.
pub proof fn law_bind_iff_seat(events: Seq<Event>)
    ensures
        responses(events).len() == events.len(),
        forall|i: int|
            0 <= i < events.len() ==> ((#[trigger] responses(events)[i] is Bind) <==> announces_seat(
                events[i],
            )),
        forall|i: int|
            0 <= i < events.len() ==> (events[i] matches Event::Registry(
                RegistryEvent::Global { id, interface_name, .. },
            ) ==> (names_seat(interface_name@) ==> #[trigger] responses(events)[i] == Action::Bind(
                Bind { global: id, version: SEAT_VERSION },
            ))),
        bound_globals(responses(events)) == announced_seats(events),
    decreases events.len(),
{
    if events.len() > 0 {
        lemma_responses_drop_last(events);
        law_bind_iff_seat(events.drop_last());
    }
}

/// Over any sequence of events, a keyboard is requested once for each
/// capability change that holds the keyboard class, from the seat that the
/// change came from, and for no other event. A change that repeats an
/// earlier one leads to a request of its own.
pub proof fn law_keyboard_requested_once_per_offer(events: Seq<Event>)
    ensures
        forall|i: int|
            0 <= i < events.len() ==> ((#[trigger] responses(events)[i] is GetKeyboard)
                <==> offers_keyboard(events[i])),
        forall|i: int|
            0 <= i < events.len() ==> (events[i] matches Event::Seat(
                seat,
                SeatEvent::Capabilities { capabilities },
            ) ==> (capabilities@.contains(DeviceClass::Keyboard) ==> #[trigger] responses(events)[i]
                == Action::GetKeyboard(GetKeyboard { seat }))),
        keyboard_requests(responses(events)) == keyboard_offers(events),
    decreases events.len(),
{
    if events.len() > 0 {
        lemma_responses_drop_last(events);
        law_keyboard_requested_once_per_offer(events.drop_last());
    }
}

/// Over any sequence of events, each keymap description is acted on once and
/// by itself: its plan depends on nothing but the description, holds the
/// resource of that description, and no plan is made for any other event. A
/// description that repeats an earlier one is retrieved anew.
pub proof fn law_each_keymap_retrieved_once(events: Seq<Event>)
    ensures
        forall|i: int|
            0 <= i < events.len() ==> ((#[trigger] responses(events)[i] is Retrieve) <==> (
            events[i] matches Event::Keyboard(_, KeyboardEvent::Keymap { .. }))),
        forall|i: int|
            0 <= i < events.len() ==> (events[i] matches Event::Keyboard(
                _,
                KeyboardEvent::Keymap { format, resource, size },
            ) ==> #[trigger] responses(events)[i] == Action::Retrieve(
                retrieval(format, resource, size),
            ) && retrieval(format, resource, size).resource() == resource),
        retrievals(responses(events)) == keymap_plans(events),
    decreases events.len(),
{
    if events.len() > 0 {
        lemma_responses_drop_last(events);
        law_each_keymap_retrieved_once(events.drop_last());
    }
}

/// One turn of the loop as the driver went through it: the events that
/// arrived during the suspension, and how the suspension ended.
pub struct Turn {
    pub events: Seq<Event>,
    pub outcome: CycleOutcome,
}

/// Where the loop stands after `turns`, counted from a fresh connection: its
/// phase, or the failure that ended it. After a failure no turn takes place.
pub open spec fn phase_after(turns: Seq<Turn>) -> Result<Phase, FatalError>
    decreases turns.len(),
{
    if turns.len() == 0 {
        Ok(Phase::Setup)
    } else {
        match phase_after(turns.drop_last()) {
            Ok(phase) => next_phase(phase, turns.last().outcome),
            Err(error) => Err(error),
        }
    }
}

/// The actions that the loop has returned after `turns`, counted from a
/// fresh connection, in the order in which it returned them.
pub open spec fn actions_after(turns: Seq<Turn>) -> Seq<Action>
    decreases turns.len(),
{
    if turns.len() == 0 {
        Seq::empty()
    } else {
        let earlier = actions_after(turns.drop_last());
        match phase_after(turns.drop_last()) {
            Ok(_) => earlier + responses(turns.last().events),
            Err(_) => earlier,
        }
    }
}

/// The binds among two runs of actions are those of the first, then those of
/// the second.
proof fn lemma_bound_globals_concat(first: Seq<Action>, second: Seq<Action>)
    ensures
        bound_globals(first + second) == bound_globals(first) + bound_globals(second),
    decreases second.len(),
{
    if second.len() == 0 {
        assert(first + second =~= first);
        assert(bound_globals(first) + bound_globals(second) =~= bound_globals(first));
    } else {
        lemma_bound_globals_concat(first, second.drop_last());
        assert((first + second).drop_last() =~= first + second.drop_last());
        assert((first + second).last() == second.last());
        let earlier = bound_globals(first) + bound_globals(second.drop_last());
        match second.last() {
            Action::Bind(bind) => {
                assert(earlier.push(bind.global) =~= bound_globals(first) + bound_globals(
                    second.drop_last(),
                ).push(bind.global));
            },
            _ => {},
        }
    }
}

/// The loop begins with the round trip of the setup phase and is in the
/// steady phase only once that round trip has completed. What the round trip
/// drained is answered first, event by event: whenever the loop has run at
/// all, the seats announced during the round trip have their binds at the
/// head of all binds, before the steady phase asks for anything.
pub proof fn law_setup_drains_before_steady(turns: Seq<Turn>)
    ensures
        phase_after(Seq::<Turn>::empty()) == Ok::<Phase, FatalError>(Phase::Setup),
        step_of(Phase::Setup) == Step::RoundTrip,
        phase_after(turns) == Ok::<Phase, FatalError>(Phase::Steady) ==> turns.len() > 0
            && turns[0].outcome == CycleOutcome::Completed,
        turns.len() > 0 ==> responses(turns[0].events).is_prefix_of(actions_after(turns)),
        turns.len() > 0 ==> announced_seats(turns[0].events).is_prefix_of(
            bound_globals(actions_after(turns)),
        ),
    decreases turns.len(),
{
    if turns.len() == 1 {
        assert(turns.drop_last().len() == 0);
        let drained = turns[0].events;
        assert(actions_after(turns) =~= responses(drained));
        law_bind_iff_seat(drained);
    } else if turns.len() > 1 {
        let earlier = turns.drop_last();
        law_setup_drains_before_steady(earlier);
        assert(earlier[0] == turns[0]);
        let before = actions_after(earlier);
        match phase_after(earlier) {
            Ok(_) => {
                let added = responses(turns.last().events);
                lemma_bound_globals_concat(before, added);
            },
            Err(_) => {},
        }
    }
}

} // verus!
