//! The text view wrapper.

use crate::foundation::ObjectRef;
use crate::layout::{LayoutAnchors, NativeView};
use crate::lifecycle::{BehaviorHandle, Ownership, ViewAction, ViewEvent, ViewModel, ViewState};
use crate::registry::Ivar;
use vstd::prelude::*;

pub mod appkit;
pub mod traits;

pub use traits::TextViewDelegate;

verus! {

/// A text view. The wrapper that built the view owns its behaviour;
/// handle clones refer to the same native view and own nothing.
#[derive(Debug)]
pub struct TextView<T = ()> {
    /// Whether this wrapper owns the native view. Only the owner takes
    /// the view out of its hierarchy when it is dropped.
    pub ownership: Ownership,
    /// The native view.
    pub objc: ObjectRef,
    /// The layer that backs the native view.
    pub layer: ObjectRef,
    /// The behaviour of the view.
    pub delegate: Option<Box<T>>,
    /// The anchors of the native view.
    pub anchors: LayoutAnchors,
}

/// A write to an extra field of a native object.
#[derive(Clone, Copy, Debug, PartialEq, Eq, Structural)]
pub struct IvarWrite {
    pub object: ObjectRef,
    pub ivar: Ivar,
    pub value: ObjectRef,
}

impl<T> TextView<T> {
    /// The native view this wrapper stands for, as the host built it.
    pub open spec fn native(&self) -> NativeView {
        NativeView { objc: self.objc, layer: self.layer, anchors: self.anchors }
    }

    pub open spec fn spec_is_handle(&self) -> bool {
        self.ownership is Borrowed
    }

    /// The owning wrapper of a native view that the host has built. It has
    /// no behaviour yet.
    pub fn init(view: NativeView) -> (textview: TextView<T>)
        ensures
            textview.native() == view,
            textview.ownership is Owned,
            textview.delegate is None,
    {
        TextView {
            ownership: Ownership::Owned,
            objc: view.objc,
            layer: view.layer,
            delegate: None,
            anchors: view.anchors,
        }
    }

    /// The handle clone of this wrapper: the same native view, layer and
    /// anchors, borrowed, without a behaviour.
    pub open spec fn as_handle(&self) -> TextView {
        TextView {
            ownership: Ownership::Borrowed,
            objc: self.objc,
            layer: self.layer,
            delegate: None,
            anchors: self.anchors,
        }
    }

    /// A wrapper of the same native view that owns nothing: no behaviour,
    /// and no duty to release the view. This is what a behaviour is handed
    /// when its view is ready.
    pub fn clone_as_handle(&self) -> (handle: TextView)
        ensures
            handle == self.as_handle(),
    {
        TextView {
            ownership: Ownership::Borrowed,
            objc: self.objc,
            layer: self.layer,
            delegate: None,
            anchors: self.anchors,
        }
    }

    /// Whether this wrapper is a handle clone.
    #[verifier::when_used_as_spec(spec_is_handle)]
    pub fn is_handle(&self) -> (handle: bool)
        ensures
            handle == self.spec_is_handle(),
    {
        match self.ownership {
            Ownership::Borrowed => true,
            Ownership::Owned => false,
        }
    }

    /// What the host has to write to give the view this background colour.
    pub fn set_background_color(&self, color: ObjectRef) -> (write: IvarWrite)
        ensures
            write == (IvarWrite { object: self.objc, ivar: Ivar::BackgroundColor, value: color }),
    {
        IvarWrite { object: self.objc, ivar: Ivar::BackgroundColor, value: color }
    }

    /// What the life cycle is told when this wrapper is dropped.
    pub fn drop_event(&self) -> (event: ViewEvent)
        ensures
            event == ViewEvent::WrapperDropped(self.ownership),
            event.valid(),
    {
        ViewEvent::WrapperDropped(self.ownership)
    }
}

impl TextView {
    /// The wrapper of a text view without a behaviour.
    pub fn new(view: NativeView) -> (textview: TextView)
        ensures
            textview.native() == view,
            textview.ownership is Owned,
            textview.delegate is None,
    {
        TextView::init(view)
    }
}

/// Tells `delegate` that its view is ready and hands it `handle`.
fn announce<T: TextViewDelegate>(delegate: &mut T, handle: TextView)
    ensures
        exists|loading: &mut T|
            {
                &&& mut_ref_current(loading) == *old(delegate)
                &&& mut_ref_future(loading) == *final(delegate)
                &&& #[trigger] call_ensures(T::did_load, (loading, handle), ())
            },
{
    delegate.did_load(handle);
}

impl<T: TextViewDelegate + 'static> TextView<T> {
    /// The owning wrapper of a native view that the host has built for
    /// `delegate`. Before the wrapper is handed back the behaviour is told
    /// that its view is ready: `did_load` is called on it, once, with the
    /// handle clone of the new wrapper. The wrapper keeps the behaviour as
    /// that call left it.
    pub fn with(delegate: Box<T>, view: NativeView) -> (textview: TextView<T>)
        ensures
            textview.native() == view,
            textview.ownership is Owned,
            textview.delegate is Some,
            exists|loading: &mut T|
                {
                    &&& mut_ref_current(loading) == *delegate
                    &&& mut_ref_future(loading) == *textview.delegate->0
                    &&& #[trigger] call_ensures(T::did_load, (loading, textview.as_handle()), ())
                },
    {
        let mut delegate = delegate;
        let mut textview: TextView<T> = TextView::init(view);
        announce(&mut *delegate, textview.clone_as_handle());
        textview.delegate = Some(delegate);
        textview
    }

    /// Ends the construction of a view: reports to `state` that the
    /// native view stands, with `behavior` in its callback slot, and
    /// builds the owning wrapper. The handle has to name a behaviour. On the step out of construction the
    /// behaviour is told that its view is ready, as `with` does it; on a
    /// view that is past construction the behaviour is kept as it is and
    /// told nothing.
    pub fn construct(
        state: &mut ViewState,
        delegate: Box<T>,
        behavior: BehaviorHandle,
        view: NativeView,
    ) -> (textview: TextView<T>)
        requires
            behavior.names_a_behavior(),
        ensures
            final(state)@ == old(state)@.next(ViewEvent::Constructed(Some(behavior))),
            final(state)@.well_formed(),
            textview.native() == view,
            textview.ownership is Owned,
            textview.delegate is Some,
            old(state)@.stage is Constructing ==> exists|loading: &mut T|
                {
                    &&& mut_ref_current(loading) == *delegate
                    &&& mut_ref_future(loading) == *textview.delegate->0
                    &&& #[trigger] call_ensures(T::did_load, (loading, textview.as_handle()), ())
                },
            !(old(state)@.stage is Constructing) ==> textview.delegate == Some(delegate),
    {
        match state.handle(ViewEvent::Constructed(Some(behavior))) {
            ViewAction::ViewReady(_) => TextView::with(delegate, view),
            _ => {
                let mut textview: TextView<T> = TextView::init(view);
                textview.delegate = Some(delegate);
                textview
            },
        }
    }
}

/// Dropping a handle clone leaves the view as it is: for the handle
/// clone of any wrapper, owner or handle, and whatever state the view is
/// in, the event that the handle reports on its drop changes neither the
/// stage of the view nor its callback slot, and asks nothing of the host.
/// A handle cloned from a handle is that handle again.
pub proof fn handle_drop_leaves_view_alone<T>(textview: TextView<T>, state: ViewModel)
    ensures
        textview.as_handle().native() == textview.native(),
        textview.as_handle().as_handle() == textview.as_handle(),
        state.next(ViewEvent::WrapperDropped(textview.as_handle().ownership)) == state,
        state.action(ViewEvent::WrapperDropped(textview.as_handle().ownership))
            == ViewAction::Nothing,
{
}

} // verus!
