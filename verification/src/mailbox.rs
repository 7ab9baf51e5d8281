//! The three cells through which the cloud thread and the bus thread exchange
//! data. Each is meant to sit behind a lock of its own, taken for one call.

use crate::bus::BusEvent;
use crate::command::{DeviceCommand, GatewayCommand};
use crate::engine::{telemetry_state, telemetry_state_spec};
use crate::state::{DeviceState, GatewayState};
use vstd::prelude::*;

verus! {

/// The snapshot that waits to be published. It holds at most one: a new one
/// replaces the one that waits.
pub struct StateSlot {
    pending: Option<GatewayState>,
}

/// The slot after it has seen `event`: the one-entry snapshot of the state
/// that the event reports, or the slot as it was if the event reports none.
pub open spec fn observed(slot: Option<Seq<DeviceState>>, event: BusEvent) -> Option<
    Seq<DeviceState>,
> {
    match telemetry_state_spec(event) {
        Some(state) => Some(seq![state]),
        None => slot,
    }
}

/// The slot after it has seen `events` one after the other.
pub open spec fn observed_all(slot: Option<Seq<DeviceState>>, events: Seq<BusEvent>) -> Option<
    Seq<DeviceState>,
>
    decreases events.len(),
{
    if events.len() == 0 {
        slot
    } else {
        observed(observed_all(slot, events.drop_last()), events.last())
    }
}

impl View for StateSlot {
    type V = Option<Seq<DeviceState>>;

    closed spec fn view(&self) -> Option<Seq<DeviceState>> {
        match self.pending {
            Some(snapshot) => Some(snapshot@),
            None => None,
        }
    }
}

impl StateSlot {
    /// An empty slot.
    pub fn new() -> (slot: StateSlot)
        ensures
            slot@ is None,
    {
        StateSlot { pending: None }
    }

    /// Puts `snapshot` into the slot, in place of what waited there.
    pub fn store(&mut self, snapshot: GatewayState)
        ensures
            final(self)@ == Some(snapshot@),
    {
        self.pending = Some(snapshot);
    }

    /// Lets the slot see a bus event: if the event reports a state, that state
    /// alone becomes the waiting snapshot; if not, nothing changes.
    pub fn observe(&mut self, event: &BusEvent)
        ensures
            final(self)@ == observed(old(self)@, *event),
    {
        match telemetry_state(event) {
            Some(state) => {
                let mut device_states: Vec<DeviceState> = Vec::new();
                device_states.push(state);
                assert(device_states@ == seq![state]);
                self.pending = Some(GatewayState { device_states });
            },
            None => {},
        }
    }

    /// Takes the waiting snapshot out, if there is one, and leaves the slot
    /// empty.
    pub fn take(&mut self) -> (snapshot: Option<GatewayState>)
        ensures
            final(self)@ is None,
            snapshot is Some <==> old(self)@ is Some,
            snapshot matches Some(taken) ==> old(self)@ == Some(taken@),
    {
        self.pending.take()
    }
}

/// When events pass between two publications, the last one that reports a
/// state decides what waits: its state alone, whatever waited before and
/// whatever the earlier events reported.
pub proof fn lemma_latest_state_wins(
    slot: Option<Seq<DeviceState>>,
    events: Seq<BusEvent>,
    last: int,
)
    requires
        0 <= last < events.len(),
        telemetry_state_spec(events[last]) is Some,
        forall|j: int| last < j < events.len() ==> telemetry_state_spec(#[trigger] events[j]) is None,
    ensures
        observed_all(slot, events) == Some(seq![telemetry_state_spec(events[last])->Some_0]),
    decreases events.len(),
{
    if last < events.len() - 1 {
        let earlier = events.drop_last();
        assert(forall|j: int| last < j < earlier.len() ==> earlier[j] == events[j]);
        lemma_latest_state_wins(slot, earlier, last);
    }
}

/// Events that report no state leave the slot as it was.
pub proof fn lemma_silent_events_keep_slot(slot: Option<Seq<DeviceState>>, events: Seq<BusEvent>)
    requires
        forall|j: int| 0 <= j < events.len() ==> telemetry_state_spec(#[trigger] events[j]) is None,
    ensures
        observed_all(slot, events) == slot,
    decreases events.len(),
{
    if events.len() > 0 {
        let earlier = events.drop_last();
        assert(forall|j: int| 0 <= j < earlier.len() ==> earlier[j] == events[j]);
        lemma_silent_events_keep_slot(slot, earlier);
    }
}

/// The commands that wait for the bus thread.
pub struct CommandQueue {
    commands: Vec<GatewayCommand>,
}

impl View for CommandQueue {
    type V = Seq<Seq<DeviceCommand>>;

    closed spec fn view(&self) -> Seq<Seq<DeviceCommand>> {
        Seq::new(self.commands@.len(), |i: int| self.commands@[i]@)
    }
}

/// What one drain of the queue hands to the bus thread: the command that was
/// appended last, if any waits.
pub open spec fn drained(queue: Seq<Seq<DeviceCommand>>) -> Option<Seq<DeviceCommand>> {
    if queue.len() > 0 {
        Some(queue.last())
    } else {
        None
    }
}

impl CommandQueue {
    /// An empty queue.
    pub fn new() -> (queue: CommandQueue)
        ensures
            queue@ == Seq::<Seq<DeviceCommand>>::empty(),
    {
        CommandQueue { commands: Vec::new() }
    }

    /// Appends a command.
    pub fn push(&mut self, command: GatewayCommand)
        ensures
            final(self)@ == old(self)@.push(command@),
    {
        self.commands.push(command);
        assert(self@ =~= old(self)@.push(command@));
    }

    /// How many commands wait.
    pub fn len(&self) -> (n: usize)
        ensures
            n == self@.len(),
    {
        self.commands.len()
    }

    /// Hands out the command that was appended last and drops all that were
    /// appended before it: the queue is empty afterwards.
    pub fn drain_latest(&mut self) -> (latest: Option<GatewayCommand>)
        ensures
            final(self)@ == Seq::<Seq<DeviceCommand>>::empty(),
            latest is Some <==> drained(old(self)@) is Some,
            latest matches Some(command) ==> drained(old(self)@) == Some(command@),
    {
        let latest = self.commands.pop();
        self.commands.clear();
        assert(self@ =~= Seq::<Seq<DeviceCommand>>::empty());
        latest
    }
}

/// Of two commands appended before a drain, the drain hands out the second
/// alone, and nothing is left of the first or of what waited before them.
pub proof fn lemma_latest_command_wins(
    queue: Seq<Seq<DeviceCommand>>,
    first: Seq<DeviceCommand>,
    second: Seq<DeviceCommand>,
)
    ensures
        drained(queue.push(first).push(second)) == Some(second),
{
}

/// The request to look for new devices on the bus.
pub struct DiscoveryFlag {
    requested: bool,
}

impl View for DiscoveryFlag {
    type V = bool;

    closed spec fn view(&self) -> bool {
        self.requested
    }
}

impl DiscoveryFlag {
    /// A flag that is not set.
    pub fn new() -> (flag: DiscoveryFlag)
        ensures
            !flag@,
    {
        DiscoveryFlag { requested: false }
    }

    /// Sets the flag.
    pub fn request(&mut self)
        ensures
            final(self)@,
    {
        self.requested = true;
    }

    /// Whether the flag is set.
    pub fn is_requested(&self) -> (requested: bool)
        ensures
            requested == self@,
    {
        self.requested
    }

    /// Clears the flag.
    pub fn clear(&mut self)
        ensures
            !final(self)@,
    {
        self.requested = false;
    }
}

} // verus!
