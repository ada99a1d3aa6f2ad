//! The dispatch loop: routing of decoded events to the component that handles
//! them, and the two phases that the loop goes through.

use crate::keymap::{on_keymap, retrieval, Descriptor, KeymapFormat, Retrieval};
use crate::registry::{announcement_response, on_global_announced, Bind, ObjectId};
use crate::seat::{capability_response, on_capabilities_changed, CapabilitySet, GetKeyboard};
use vstd::prelude::*;

verus! {

/// An event of the registry.
#[derive(Debug, PartialEq, Eq)]
pub enum RegistryEvent {
    /// The global `id` exists and implements `interface_name` up to `version`.
    Global { id: ObjectId, interface_name: String, version: u32 },
    /// The global `id` is gone.
    GlobalRemoved { id: ObjectId },
}

/// An event of a seat.
#[derive(Debug, PartialEq, Eq)]
pub enum SeatEvent {
    /// The seat now exposes exactly `capabilities`.
    Capabilities { capabilities: CapabilitySet },
    /// Any other event of a seat.
    Other,
}

/// An event of a keyboard.
#[derive(Debug, PartialEq, Eq)]
pub enum KeyboardEvent {
    /// A keymap description: `size` bytes in the format `format`, held by
    /// `resource`, which passes to the receiver.
    Keymap { format: KeymapFormat, resource: Descriptor, size: u32 },
    /// Any other event of a keyboard.
    Other,
}

/// A decoded event, together with the object that emitted it.
#[derive(Debug, PartialEq, Eq)]
pub enum Event {
    /// An event of the registry, of which there is one.
    Registry(RegistryEvent),
    /// An event of the seat with the given id.
    Seat(ObjectId, SeatEvent),
    /// An event of the keyboard with the given id.
    Keyboard(ObjectId, KeyboardEvent),
}

/// What the driver has to do after an event was handled.
#[derive(Debug, PartialEq, Eq)]
pub enum Action {
    /// Bind a global, attaching the new proxy to the dispatch queue.
    Bind(Bind),
    /// Request the keyboard of a seat, attaching it to the dispatch queue.
    GetKeyboard(GetKeyboard),
    /// Dispose of a keymap resource as the plan says.
    Retrieve(Retrieval),
    /// Nothing.
    Nothing,
}

/// The action that an event calls for.
pub open spec fn response(event: Event) -> Action {
    match event {
        Event::Registry(RegistryEvent::Global { id, interface_name, version }) => {
            match announcement_response(id, interface_name@, version) {
                Some(bind) => Action::Bind(bind),
                None => Action::Nothing,
            }
        },
        Event::Registry(RegistryEvent::GlobalRemoved { .. }) => Action::Nothing,
        Event::Seat(seat, SeatEvent::Capabilities { capabilities }) => {
            match capability_response(seat, capabilities) {
                Some(request) => Action::GetKeyboard(request),
                None => Action::Nothing,
            }
        },
        Event::Seat(_, SeatEvent::Other) => Action::Nothing,
        Event::Keyboard(_, KeyboardEvent::Keymap { format, resource, size }) => {
            Action::Retrieve(retrieval(format, resource, size))
        },
        Event::Keyboard(_, KeyboardEvent::Other) => Action::Nothing,
    }
}

/// Routes one event to its handler, by the object that emitted it and the
/// kind of event, and returns the action that the handler asks for.
pub fn dispatch(event: Event) -> (action: Action)
    ensures
        action == response(event),
{
    match event {
        Event::Registry(RegistryEvent::Global { id, interface_name, version }) => {
            match on_global_announced(id, interface_name.as_str(), version) {
                Some(bind) => Action::Bind(bind),
                None => Action::Nothing,
            }
        },
        // Seats are taken to stay for the life of the connection: a removal
        // is accepted and changes nothing.
        Event::Registry(RegistryEvent::GlobalRemoved { id: _ }) => Action::Nothing,
        Event::Seat(seat, SeatEvent::Capabilities { capabilities }) => {
            match on_capabilities_changed(seat, capabilities) {
                Some(request) => Action::GetKeyboard(request),
                None => Action::Nothing,
            }
        },
        Event::Seat(_, SeatEvent::Other) => Action::Nothing,
        Event::Keyboard(_, KeyboardEvent::Keymap { format, resource, size }) => {
            Action::Retrieve(on_keymap(format, resource, size))
        },
        Event::Keyboard(_, KeyboardEvent::Other) => Action::Nothing,
    }
}

/// The actions that a batch of events calls for: one for each event, in the
/// order of the events.
pub open spec fn responses(events: Seq<Event>) -> Seq<Action> {
    Seq::new(events.len(), |i: int| response(events[i]))
}

/// Dispatches a batch of events in the order in which they arrived.
pub fn dispatch_batch(events: Vec<Event>) -> (actions: Vec<Action>)
    ensures
        actions@ == responses(events@),
{
    let mut actions: Vec<Action> = Vec::new();
    for event in it: events.into_iter()
        invariant
            it.seq() == events@,
            actions@.len() == it.index(),
            forall|k: int| 0 <= k < it.index() ==> actions@[k] == response(events@[k]),
    {
        let action = dispatch(event);
        actions.push(action);
    }
    assert(actions@ =~= responses(events@));
    actions
}

/// Phase of the dispatch loop.
#[derive(Clone, Copy, Debug, PartialEq, Eq, Structural)]
pub enum Phase {
    /// The round trip that drains what was pending at connect time is still
    /// to be made, or under way.
    Setup,
    /// The round trip was acknowledged; the loop blocks and dispatches.
    Steady,
}

/// The suspension that the driver enters next.
#[derive(Clone, Copy, Debug, PartialEq, Eq, Structural)]
pub enum Step {
    /// Send a synchronisation marker and dispatch every event that arrives
    /// until the server acknowledges it.
    RoundTrip,
    /// Wait for the next batch of messages and dispatch it.
    BlockingDispatch,
}

/// How a suspension of the driver ended.
#[derive(Clone, Copy, Debug, PartialEq, Eq, Structural)]
pub enum CycleOutcome {
    /// The round trip was acknowledged, or the batch was dispatched.
    Completed,
    /// The connection was lost.
    Severed,
    /// The server sent a message that is malformed or out of sequence.
    Malformed,
}

/// A failure that ends the loop. None is recovered from here: each surfaces
/// to whoever runs the driver.
#[derive(Clone, Copy, Debug, PartialEq, Eq, Structural)]
pub enum FatalError {
    /// The channel to the compositor could not be established or kept.
    Transport,
    /// The exchange with the server broke down.
    Protocol,
}

/// The failure, if any, with which a suspension that ended in `outcome` ends
/// the loop in `phase`. A connection lost during the round trip of the setup
/// phase counts as a broken exchange.
pub open spec fn failure(phase: Phase, outcome: CycleOutcome) -> Option<FatalError> {
    match outcome {
        CycleOutcome::Completed => None,
        CycleOutcome::Severed => match phase {
            Phase::Setup => Some(FatalError::Protocol),
            Phase::Steady => Some(FatalError::Transport),
        },
        CycleOutcome::Malformed => Some(FatalError::Protocol),
    }
}

/// The phase in which the loop goes on after a suspension that ended in
/// `outcome`, or the failure that ends it. The setup phase is never entered
/// again.
pub open spec fn next_phase(phase: Phase, outcome: CycleOutcome) -> Result<Phase, FatalError> {
    match failure(phase, outcome) {
        None => Ok(Phase::Steady),
        Some(error) => Err(error),
    }
}

/// The suspension that belongs to a phase.
pub open spec fn step_of(phase: Phase) -> Step {
    match phase {
        Phase::Setup => Step::RoundTrip,
        Phase::Steady => Step::BlockingDispatch,
    }
}

/// State of the dispatch loop.
#[derive(Debug, PartialEq, Eq)]
pub struct DispatchLoop {
    phase: Phase,
}

impl DispatchLoop {
    pub closed spec fn spec_phase(&self) -> Phase {
        self.phase
    }

    /// Starts the loop once the attempt to connect is over. Without a
    /// compositor endpoint there is no loop.
    pub fn start(connected: bool) -> (started: Result<DispatchLoop, FatalError>)
        ensures
            connected ==> (started matches Ok(state) && state.spec_phase() == Phase::Setup),
            !connected ==> started == Err::<DispatchLoop, FatalError>(FatalError::Transport),
    {
        if connected {
            Ok(DispatchLoop { phase: Phase::Setup })
        } else {
            Err(FatalError::Transport)
        }
    }

    #[verifier::when_used_as_spec(spec_phase)]
    pub fn phase(&self) -> (phase: Phase)
        ensures
            phase == self.spec_phase(),
    {
        self.phase
    }

    /// The suspension to enter next: the round trip, once, then blocking
    /// dispatch for as long as the loop lasts.
    pub fn next_step(&self) -> (step: Step)
        ensures
            step == step_of(self.spec_phase()),
    {
        match self.phase {
            Phase::Setup => Step::RoundTrip,
            Phase::Steady => Step::BlockingDispatch,
        }
    }

    /// Takes note of how the suspension that [`DispatchLoop::next_step`]
    /// named has ended. The loop goes on, in the steady phase, exactly when
    /// the suspension completed; a failure ends it for good.
    pub fn cycle_ended(self, outcome: CycleOutcome) -> (next: Result<DispatchLoop, FatalError>)
        ensures
            match next_phase(self.spec_phase(), outcome) {
                Ok(phase) => next matches Ok(state) && state.spec_phase() == phase,
                Err(error) => next == Err::<DispatchLoop, FatalError>(error),
            },
    {
        match outcome {
            CycleOutcome::Completed => Ok(DispatchLoop { phase: Phase::Steady }),
            CycleOutcome::Severed => match self.phase {
                Phase::Setup => Err(FatalError::Protocol),
                Phase::Steady => Err(FatalError::Transport),
            },
            CycleOutcome::Malformed => Err(FatalError::Protocol),
        }
    }

    /// One turn of the loop: dispatches the events that arrived during the
    /// suspension, in their order, then takes note of how the suspension
    /// ended. Events that arrived before a failure are still dispatched.
    pub fn run_cycle(self, events: Vec<Event>, outcome: CycleOutcome) -> (turn: (
        Vec<Action>,
        Result<DispatchLoop, FatalError>,
    ))
        ensures
            turn.0@ == responses(events@),
            match next_phase(self.spec_phase(), outcome) {
                Ok(phase) => turn.1 matches Ok(state) && state.spec_phase() == phase,
                Err(error) => turn.1 == Err::<DispatchLoop, FatalError>(error),
            },
    {
        let actions = dispatch_batch(events);
        let next = self.cycle_ended(outcome);
        (actions, next)
    }
}

} // verus!
