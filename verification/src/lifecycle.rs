//! The life of one view wrapper, from construction to drop.
//!
//! A wrapper is under construction until its native object and anchors
//! stand; the behaviour then learns of the view, once; from then on native
//! callbacks are routed to the behaviour until the owning wrapper is
//! dropped. The host reports what happened as events, and is told for each
//! event what to do.

use crate::registry::Callback;
use vstd::prelude::*;

verus! {

/// The identity of one behaviour object, held as an untyped integer.
#[derive(Clone, Copy, Debug, PartialEq, Eq, Structural)]
pub struct BehaviorHandle {
    pub addr: usize,
}

impl BehaviorHandle {
    /// Whether the handle names a behaviour. Address zero names none: it
    /// is what an empty callback slot reads as.
    pub open spec fn names_a_behavior(self) -> bool {
        self.addr != 0
    }

    /// Reads what the callback slot of a native object holds: zero is the
    /// empty slot, everything else the address of a behaviour.
    pub fn from_slot(raw: usize) -> (handle: Option<BehaviorHandle>)
        ensures
            handle == (if raw == 0 {
                None
            } else {
                Some(BehaviorHandle { addr: raw })
            }),
            handle is Some ==> handle->0.names_a_behavior(),
    {
        if raw == 0 {
            None
        } else {
            Some(BehaviorHandle { addr: raw })
        }
    }
}

/// Whether a wrapper owns its native view or only refers to it.
#[derive(Clone, Copy, Debug, PartialEq, Eq, Structural)]
pub enum Ownership {
    /// The wrapper that built the view. Dropping it releases the view.
    Owned,
    /// A handle clone. Dropping it releases nothing.
    Borrowed,
}

/// Where a wrapper is in its life.
#[derive(Clone, Copy, Debug, PartialEq, Eq, Structural)]
pub enum Stage {
    Constructing,
    Ready,
    Attached,
    Dropped,
}

/// What the host reports.
#[derive(Clone, Copy, Debug, PartialEq, Eq, Structural)]
pub enum ViewEvent {
    /// The native object and its anchors stand. The handle is that of the
    /// behaviour the view was built with, if it was built with one.
    Constructed(Option<BehaviorHandle>),
    /// The view was put into a view hierarchy.
    Attached,
    /// The view was taken out of its view hierarchy.
    Detached,
    /// The toolkit fired a callback on the native object.
    Native(Callback),
    /// A wrapper of the view was dropped.
    WrapperDropped(Ownership),
}

impl ViewEvent {
    /// Whether the event can be reported: a view is built with a handle
    /// that names a behaviour, or with none.
    pub open spec fn valid(self) -> bool {
        self matches ViewEvent::Constructed(Some(behavior)) ==> behavior.names_a_behavior()
    }
}

/// What the host is told to do.
#[derive(Clone, Copy, Debug, PartialEq, Eq, Structural)]
pub enum ViewAction {
    Nothing,
    /// Tell the behaviour that its view is ready, handing it a handle clone.
    ViewReady(BehaviorHandle),
    /// Run the trampoline of the callback on the behaviour in the callback
    /// slot; on none, where the slot is empty.
    Dispatch(Callback, Option<BehaviorHandle>),
    /// Take the view out of its view hierarchy.
    RemoveFromSuperview,
}

/// The extra field of a native view instance that says which behaviour its
/// callbacks go to. It is written at most once.
pub struct CallbackSlot {
    value: Option<BehaviorHandle>,
}

/// A second write to a callback slot.
#[derive(Clone, Copy, Debug, PartialEq, Eq, Structural)]
pub enum SlotError {
    AlreadyWritten,
}

impl CallbackSlot {
    #[verifier::type_invariant]
    spec fn holds_a_behavior_or_nothing(self) -> bool {
        self.value is Some ==> self.value->0.names_a_behavior()
    }

    pub closed spec fn view(&self) -> Option<BehaviorHandle> {
        self.value
    }

    /// The slot of a view that has no behaviour yet.
    pub fn empty() -> (slot: CallbackSlot)
        ensures
            slot@ is None,
    {
        CallbackSlot { value: None }
    }

    /// Writes the slot, if it has not been written before. The handle has
    /// to name a behaviour: a slot that held address zero would read as
    /// empty.
    pub fn write_once(&mut self, handle: BehaviorHandle) -> (written: Result<(), SlotError>)
        requires
            handle.names_a_behavior(),
        ensures
            old(self)@ is None ==> written is Ok && final(self)@ == Some(handle),
            old(self)@ is Some ==> written == Err::<(), SlotError>(SlotError::AlreadyWritten)
                && final(self)@ == old(self)@,
    {
        match self.value {
            Some(_) => Err(SlotError::AlreadyWritten),
            None => {
                self.value = Some(handle);
                Ok(())
            },
        }
    }

    /// What the slot holds: nothing, or a handle that names a behaviour.
    pub fn read(&self) -> (handle: Option<BehaviorHandle>)
        ensures
            handle == self@,
            handle is Some ==> handle->0.names_a_behavior(),
    {
        proof {
            use_type_invariant(self);
        }
        self.value
    }
}

/// The state of a wrapper, as mathematics.
pub struct ViewModel {
    pub stage: Stage,
    pub slot: Option<BehaviorHandle>,
}

impl ViewModel {
    /// A wrapper whose construction has begun.
    pub open spec fn initial() -> ViewModel {
        ViewModel { stage: Stage::Constructing, slot: None }
    }

    /// What holds of every wrapper: nothing is in the callback slot while
    /// the view is under construction, and what is in it later names a
    /// behaviour.
    pub open spec fn well_formed(self) -> bool {
        &&& self.stage is Constructing ==> self.slot is None
        &&& self.slot is Some ==> self.slot->0.names_a_behavior()
    }

    /// Whether native callbacks can reach the wrapper's view.
    pub open spec fn live(self) -> bool {
        self.stage is Ready || self.stage is Attached
    }

    /// The state after `event`.
    pub open spec fn next(self, event: ViewEvent) -> ViewModel {
        match (self.stage, event) {
            (Stage::Dropped, _) => self,
            (_, ViewEvent::WrapperDropped(Ownership::Borrowed)) => self,
            (_, ViewEvent::WrapperDropped(Ownership::Owned)) => ViewModel {
                stage: Stage::Dropped,
                slot: self.slot,
            },
            (Stage::Constructing, ViewEvent::Constructed(behavior)) => ViewModel {
                stage: Stage::Ready,
                slot: behavior,
            },
            (Stage::Ready, ViewEvent::Attached) => ViewModel { stage: Stage::Attached, slot: self.slot },
            (Stage::Attached, ViewEvent::Detached) => ViewModel { stage: Stage::Ready, slot: self.slot },
            _ => self,
        }
    }

    /// What the host has to do on `event`.
    pub open spec fn action(self, event: ViewEvent) -> ViewAction {
        match (self.stage, event) {
            (Stage::Dropped, _) => ViewAction::Nothing,
            (_, ViewEvent::WrapperDropped(Ownership::Borrowed)) => ViewAction::Nothing,
            (_, ViewEvent::WrapperDropped(Ownership::Owned)) => ViewAction::RemoveFromSuperview,
            (Stage::Constructing, ViewEvent::Constructed(Some(behavior))) => ViewAction::ViewReady(
                behavior,
            ),
            (Stage::Ready, ViewEvent::Native(callback)) => ViewAction::Dispatch(callback, self.slot),
            (Stage::Attached, ViewEvent::Native(callback)) => ViewAction::Dispatch(
                callback,
                self.slot,
            ),
            _ => ViewAction::Nothing,
        }
    }

    /// The state after `events`, in that order.
    pub open spec fn run(self, events: Seq<ViewEvent>) -> ViewModel
        decreases events.len(),
    {
        if events.len() == 0 {
            self
        } else {
            self.run(events.drop_last()).next(events.last())
        }
    }

    /// What the host was told on each of `events`.
    pub open spec fn actions(self, events: Seq<ViewEvent>) -> Seq<ViewAction> {
        Seq::new(events.len(), |i: int| self.run(events.take(i)).action(events[i]))
    }
}

/// The state of a wrapper.
pub struct ViewState {
    stage: Stage,
    slot: CallbackSlot,
}

impl ViewState {
    #[verifier::type_invariant]
    spec fn slot_waits_for_construction(self) -> bool {
        &&& self.stage is Constructing ==> self.slot@ is None
        &&& self.slot@ is Some ==> self.slot@->0.names_a_behavior()
    }

    pub closed spec fn view(&self) -> ViewModel {
        ViewModel { stage: self.stage, slot: self.slot@ }
    }

    /// The state of a wrapper whose construction has begun.
    pub fn new() -> (state: ViewState)
        ensures
            state@ == ViewModel::initial(),
            state@.well_formed(),
    {
        ViewState { stage: Stage::Constructing, slot: CallbackSlot::empty() }
    }

    pub fn stage(&self) -> (stage: Stage)
        ensures
            stage == self@.stage,
            self@.well_formed(),
    {
        proof {
            use_type_invariant(self);
        }
        self.stage
    }

    /// The behaviour that callbacks go to.
    pub fn slot(&self) -> (slot: Option<BehaviorHandle>)
        ensures
            slot == self@.slot,
            self@.well_formed(),
    {
        proof {
            use_type_invariant(self);
        }
        self.slot.read()
    }

    /// Takes one event: moves to the next state and says what the host has
    /// to do.
    pub fn handle(&mut self, event: ViewEvent) -> (action: ViewAction)
        requires
            event.valid(),
        ensures
            final(self)@ == old(self)@.next(event),
            action == old(self)@.action(event),
            final(self)@.well_formed(),
    {
        proof {
            use_type_invariant(&*self);
        }
        let stage = self.stage;
        let slot = self.slot.read();
        match stage {
            Stage::Dropped => ViewAction::Nothing,
            _ => match event {
                ViewEvent::WrapperDropped(Ownership::Borrowed) => ViewAction::Nothing,
                ViewEvent::WrapperDropped(Ownership::Owned) => {
                    self.stage = Stage::Dropped;
                    ViewAction::RemoveFromSuperview
                },
                ViewEvent::Constructed(behavior) => match stage {
                    Stage::Constructing => {
                        let mut written = CallbackSlot::empty();
                        let action = match behavior {
                            Some(handle) => {
                                let _ = written.write_once(handle);
                                ViewAction::ViewReady(handle)
                            },
                            None => ViewAction::Nothing,
                        };
                        *self = ViewState { stage: Stage::Ready, slot: written };
                        action
                    },
                    _ => ViewAction::Nothing,
                },
                ViewEvent::Attached => match stage {
                    Stage::Ready => {
                        self.stage = Stage::Attached;
                        ViewAction::Nothing
                    },
                    _ => ViewAction::Nothing,
                },
                ViewEvent::Detached => match stage {
                    Stage::Attached => {
                        self.stage = Stage::Ready;
                        ViewAction::Nothing
                    },
                    _ => ViewAction::Nothing,
                },
                ViewEvent::Native(callback) => match stage {
                    Stage::Ready => ViewAction::Dispatch(callback, slot),
                    Stage::Attached => ViewAction::Dispatch(callback, slot),
                    _ => ViewAction::Nothing,
                },
            },
        }
    }
}

/// What holds of a wrapper and of everything its host was told so far.
spec fn consistent(state: ViewModel, told: Seq<ViewAction>) -> bool {
    &&& state.stage is Constructing ==> state.slot is None
    &&& forall|i: int, j: int|
        0 <= i < j < told.len() && (#[trigger] told[i]) is ViewReady ==> !((#[trigger] told[j]) is ViewReady)
    &&& forall|i: int|
        0 <= i < told.len() && (#[trigger] told[i]) is ViewReady ==> !(state.stage is Constructing)
            && state.slot == Some(told[i]->ViewReady_0)
    &&& state.slot is Some ==> exists|i: int|
        0 <= i < told.len() && #[trigger] told[i] == ViewAction::ViewReady(state.slot->0)
    &&& forall|j: int|
        0 <= j < told.len() && (#[trigger] told[j]) is Dispatch ==> {
            &&& !(state.stage is Constructing)
            &&& told[j]->Dispatch_1 == state.slot
            &&& state.slot is Some ==> exists|i: int|
                0 <= i < j && #[trigger] told[i] == ViewAction::ViewReady(state.slot->0)
        }
}

proof fn trace_is_consistent(events: Seq<ViewEvent>)
    ensures
        consistent(ViewModel::initial().run(events), ViewModel::initial().actions(events)),
    decreases events.len(),
{
    let start = ViewModel::initial();
    let told = start.actions(events);
    if events.len() > 0 {
        let earlier = events.drop_last();
        let before = start.run(earlier);
        let after = start.run(events);
        let told_before = start.actions(earlier);
        let n = earlier.len() as int;
        trace_is_consistent(earlier);
        // All but the last of what the host was told, it was told on the
        // shorter trace.
        assert forall|i: int| 0 <= i < n implies told[i] == told_before[i] by {
            assert(events.take(i) == earlier.take(i));
        }
        assert(events.take(n) == earlier);
        assert(told[n] == before.action(events.last()));
        // The slot that is written stays written, so whoever was announced
        // to before is the behaviour in the slot now.
        if before.slot is Some {
            assert(after.slot == before.slot);
            let i = choose|i: int|
                0 <= i < n && #[trigger] told_before[i] == ViewAction::ViewReady(before.slot->0);
            assert(told[i] == ViewAction::ViewReady(after.slot->0));
        } else if after.slot is Some {
            assert(told[n] == ViewAction::ViewReady(after.slot->0));
        }
        assert forall|j: int| 0 <= j < told.len() && (#[trigger] told[j]) is Dispatch implies {
            &&& !(after.stage is Constructing)
            &&& told[j]->Dispatch_1 == after.slot
            &&& after.slot is Some ==> exists|i: int|
                0 <= i < j && #[trigger] told[i] == ViewAction::ViewReady(after.slot->0)
        } by {
            if after.slot is Some {
                // A dispatch happens on a view that is past construction,
                // so the slot was written before it.
                assert(before.slot == after.slot);
                let bound = if j < n { j } else { n };
                let i = choose|i: int|
                    0 <= i < bound && #[trigger] told_before[i] == ViewAction::ViewReady(
                        before.slot->0,
                    );
                assert(told[i] == ViewAction::ViewReady(after.slot->0));
            }
        }
    }
}

/// The behaviour learns of its view once: whatever the host reports, it is
/// told at most once to announce the view, and it has been told so, for
/// the behaviour in the callback slot, as soon as the slot is written.
pub proof fn view_ready_fires_once(events: Seq<ViewEvent>)
    ensures
        forall|i: int, j: int|
            #![trigger ViewModel::initial().actions(events)[i], ViewModel::initial().actions(events)[j]]
            0 <= i < events.len() && 0 <= j < events.len() && ViewModel::initial().actions(
                events,
            )[i] is ViewReady && ViewModel::initial().actions(events)[j] is ViewReady ==> i == j,
        ViewModel::initial().run(events).slot is Some ==> exists|i: int|
            0 <= i < events.len() && #[trigger] ViewModel::initial().actions(events)[i]
                == ViewAction::ViewReady(ViewModel::initial().run(events).slot->0),
{
    trace_is_consistent(events);
    let told = ViewModel::initial().actions(events);
    assert forall|i: int, j: int|
        0 <= i < events.len() && 0 <= j < events.len() && (#[trigger] told[i]) is ViewReady && (
        #[trigger] told[j]) is ViewReady implies i == j by {
        if i < j {
            assert(!(told[j] is ViewReady));
        }
        if j < i {
            assert(!(told[i] is ViewReady));
        }
    }
}

/// No trampoline runs before the behaviour has learnt of its view: where
/// the host is told to dispatch a callback to a behaviour, it was told
/// earlier to announce the view to that behaviour.
pub proof fn view_ready_precedes_dispatch(events: Seq<ViewEvent>, j: int)
    requires
        0 <= j < events.len(),
        ViewModel::initial().actions(events)[j] is Dispatch,
    ensures
        ViewModel::initial().actions(events)[j]->Dispatch_1 is Some ==> exists|i: int|
            0 <= i < j && #[trigger] ViewModel::initial().actions(events)[i]
                == ViewAction::ViewReady(ViewModel::initial().actions(events)[j]->Dispatch_1->0),
        exists|i: int| 0 <= i < j && #[trigger] events[i] is Constructed,
{
    trace_is_consistent(events);
    constructed_before_dispatch(events, j);
}

proof fn constructed_before_dispatch(events: Seq<ViewEvent>, j: int)
    requires
        0 <= j < events.len(),
        ViewModel::initial().actions(events)[j] is Dispatch,
    ensures
        exists|i: int| 0 <= i < j && #[trigger] events[i] is Constructed,
{
    let prefix = events.take(j);
    assert(ViewModel::initial().run(prefix).live());
    left_construction(prefix);
    let i = choose|i: int| 0 <= i < prefix.len() && #[trigger] prefix[i] is Constructed;
    assert(events[i] is Constructed);
}

proof fn left_construction(events: Seq<ViewEvent>)
    requires
        ViewModel::initial().run(events).live(),
    ensures
        exists|i: int| 0 <= i < events.len() && #[trigger] events[i] is Constructed,
    decreases events.len(),
{
    if events.len() > 0 {
        let earlier = events.drop_last();
        if ViewModel::initial().run(earlier).live() {
            left_construction(earlier);
            let i = choose|i: int| 0 <= i < earlier.len() && #[trigger] earlier[i] is Constructed;
            assert(events[i] is Constructed);
        } else {
            // Only the end of construction makes a view live.
            assert(events[events.len() - 1] is Constructed);
        }
    }
}

/// The callback slot is written at most once, at the end of construction,
/// and never changes afterwards.
pub proof fn slot_is_written_once(state: ViewModel, event: ViewEvent)
    requires
        state.well_formed(),
        event.valid(),
    ensures
        state.next(event).well_formed(),
        state.slot is Some ==> state.next(event).slot == state.slot,
        state.next(event).slot != state.slot ==> state.stage is Constructing && event is Constructed,
        !(state.stage is Constructing) ==> state.next(event).slot == state.slot,
{
}

/// A wrapper stays well formed: from a well-formed state, events that can
/// be reported lead to well-formed states only. So whatever the host is
/// told to dispatch to names a behaviour.
pub proof fn run_keeps_well_formed(state: ViewModel, events: Seq<ViewEvent>)
    requires
        state.well_formed(),
        forall|i: int| 0 <= i < events.len() ==> (#[trigger] events[i]).valid(),
    ensures
        state.run(events).well_formed(),
        events.len() > 0 ==> (state.run(events.drop_last()).action(events.last())
            matches ViewAction::Dispatch(_, Some(behavior)) ==> behavior.names_a_behavior()),
    decreases events.len(),
{
    if events.len() > 0 {
        let earlier = events.drop_last();
        assert forall|i: int| 0 <= i < earlier.len() implies (#[trigger] earlier[i]).valid() by {
            assert(earlier[i] == events[i]);
        }
        run_keeps_well_formed(state, earlier);
        assert(events.last() == events[events.len() - 1]);
        slot_is_written_once(state.run(earlier), events.last());
    }
}

/// Dropping a handle clone touches nothing: the view stays in its stage,
/// its callback slot keeps what it holds, and the host is told to do
/// nothing.
pub proof fn dropping_a_handle_changes_nothing(state: ViewModel)
    ensures
        state.next(ViewEvent::WrapperDropped(Ownership::Borrowed)) == state,
        state.action(ViewEvent::WrapperDropped(Ownership::Borrowed)) == ViewAction::Nothing,
{
}

/// Nothing happens to a dropped wrapper: every event leaves it dropped and
/// asks nothing of the host.
pub proof fn dropped_is_final(state: ViewModel, events: Seq<ViewEvent>)
    requires
        state.stage is Dropped,
    ensures
        state.run(events) == state,
        forall|i: int| 0 <= i < events.len() ==> #[trigger] state.actions(events)[i] == ViewAction::Nothing,
    decreases events.len(),
{
    if events.len() > 0 {
        dropped_is_final(state, events.drop_last());
    }
    assert forall|i: int| 0 <= i < events.len() implies #[trigger] state.actions(events)[i]
        == ViewAction::Nothing by {
        dropped_is_final(state, events.take(i));
    }
}

} // verus!
