//! The list view wrapper.

use crate::foundation::ObjectRef;
use crate::layout::LayoutAnchors;
use vstd::prelude::*;

pub mod cell_factory;
pub mod traits;

pub use cell_factory::CellFactory;
pub use traits::ListViewDelegate;

verus! {

/// A native list view as the host hands it over once it is built: the
/// table, the scroll view it sits in, and the anchors of the scroll view.
#[derive(Clone, Copy, Debug, PartialEq, Eq, Structural)]
pub struct NativeListView {
    pub objc: ObjectRef,
    pub scrollview: ObjectRef,
    pub anchors: LayoutAnchors,
}

/// A list view. `T` is its behaviour, `V` what it keeps as the vendor of
/// a kind of row.
#[derive(Debug)]
pub struct ListView<T = (), V = ()> {
    /// The vendors of the view's rows.
    pub cell_factory: CellFactory<V>,
    /// The native table.
    pub objc: ObjectRef,
    /// The scroll view that the table sits in.
    pub scrollview: ObjectRef,
    /// The behaviour of the view.
    pub delegate: Option<Box<T>>,
    /// The anchors of the scroll view.
    pub anchors: LayoutAnchors,
}

/// Where the row for a dequeue comes from.
#[derive(Debug)]
pub enum Dequeued<'a, V> {
    /// The toolkit had a row of that identifier to reuse.
    Cached(ObjectRef),
    /// The toolkit had none: the vendor registered for the identifier
    /// makes the behaviour of a new row.
    Vended(&'a V),
}

impl<T, V> ListView<T, V> {
    /// The native view this wrapper stands for, as the host built it.
    pub open spec fn native(&self) -> NativeListView {
        NativeListView { objc: self.objc, scrollview: self.scrollview, anchors: self.anchors }
    }

    /// The vendor registered for each identifier.
    pub open spec fn vendors(&self) -> Map<Seq<char>, V> {
        self.cell_factory@
    }

    /// A wrapper of the same native view that owns nothing: no behaviour
    /// and no vendors.
    pub fn clone_as_handle(&self) -> (handle: ListView)
        ensures
            handle.native() == self.native(),
            handle.delegate is None,
            handle.vendors() == Map::<Seq<char>, ()>::empty(),
    {
        ListView {
            cell_factory: CellFactory::new(),
            objc: self.objc,
            scrollview: self.scrollview,
            delegate: None,
            anchors: self.anchors,
        }
    }

    /// Registers the vendor of the rows with this identifier, in place of
    /// the vendor registered for it before, if there was one.
    pub fn register(&mut self, identifier: &'static str, vendor: V)
        ensures
            final(self).vendors() == old(self).vendors().insert(identifier@, vendor),
            final(self).native() == old(self).native(),
            final(self).delegate == old(self).delegate,
    {
        self.cell_factory.insert(identifier, vendor);
    }

    /// Decides where the row for `identifier` comes from, given in
    /// `cached` the row that the toolkit offers for reuse (`nil`: none).
    /// Without a row to reuse and without a vendor there is no row.
    pub fn dequeue<'a>(&'a self, identifier: &'static str, cached: ObjectRef) -> (row: Option<
        Dequeued<'a, V>,
    >)
        ensures
            cached.addr != 0 ==> row == Some(Dequeued::<V>::Cached(cached)),
            cached.addr == 0 && self.vendors().contains_key(identifier@) ==> row == Some(
                Dequeued::Vended(&self.vendors()[identifier@]),
            ),
            cached.addr == 0 && !self.vendors().contains_key(identifier@) ==> row is None,
    {
        if !cached.is_nil() {
            Some(Dequeued::Cached(cached))
        } else {
            match self.cell_factory.get(identifier) {
                Some(vendor) => Some(Dequeued::Vended(vendor)),
                None => None,
            }
        }
    }
}

impl<V> ListView<(), V> {
    /// The wrapper of a list view without a behaviour.
    pub fn new(view: NativeListView) -> (listview: ListView<(), V>)
        ensures
            listview.native() == view,
            listview.delegate is None,
            listview.vendors() == Map::<Seq<char>, V>::empty(),
    {
        ListView {
            cell_factory: CellFactory::new(),
            objc: view.objc,
            scrollview: view.scrollview,
            delegate: None,
            anchors: view.anchors,
        }
    }
}

/// Tells `delegate` that its view is ready and hands it `handle`.
fn announce<T: ListViewDelegate>(delegate: &mut T, handle: ListView)
    ensures
        exists|loading: &mut T|
            {
                &&& mut_ref_current(loading) == *old(delegate)
                &&& mut_ref_future(loading) == *final(delegate)
                &&& #[trigger] call_ensures(T::did_load, (loading, handle), ())
            },
{
    delegate.did_load(handle);
}

impl<T: ListViewDelegate + 'static, V> ListView<T, V> {
    /// The wrapper of a native list view that the host has built for
    /// `delegate`. Before the wrapper is handed back the behaviour is told
    /// that its view is ready: `did_load` is called on it, once, with a
    /// handle clone of the new wrapper, which names the same native view
    /// and has neither behaviour nor vendors. The wrapper keeps the
    /// behaviour as that call left it.
    pub fn with(delegate: Box<T>, view: NativeListView) -> (listview: ListView<T, V>)
        ensures
            listview.native() == view,
            listview.delegate is Some,
            listview.vendors() == Map::<Seq<char>, V>::empty(),
            exists|loading: &mut T, handle: ListView|
                {
                    &&& mut_ref_current(loading) == *delegate
                    &&& mut_ref_future(loading) == *listview.delegate->0
                    &&& handle.native() == view
                    &&& handle.delegate is None
                    &&& handle.vendors() == Map::<Seq<char>, ()>::empty()
                    &&& #[trigger] call_ensures(T::did_load, (loading, handle), ())
                },
    {
        let mut delegate = delegate;
        let mut listview: ListView<T, V> = ListView {
            cell_factory: CellFactory::new(),
            objc: view.objc,
            scrollview: view.scrollview,
            delegate: None,
            anchors: view.anchors,
        };
        announce(&mut *delegate, listview.clone_as_handle());
        listview.delegate = Some(delegate);
        listview
    }
}

} // verus!
