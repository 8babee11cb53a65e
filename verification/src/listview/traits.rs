//! The behaviour of a list view.

use crate::listview::ListView;
use vstd::prelude::*;

verus! {

/// Implement this on a type of your own to give a list view its behaviour.
pub trait ListViewDelegate {
    /// The name the generated subclass is registered under. It must differ
    /// from that of every other behaviour type.
    const NAME: &'static str;

    /// Hands out `NAME`. There is rarely a reason to write this oneself;
    /// whoever does hands out `NAME` as well, since the name is what the
    /// subclass of this type is found again by.
    fn subclass_name(&self) -> (name: &'static str)
        ensures
            name@ == Self::NAME@,
    {
        Self::NAME
    }

    /// Called once, when the view is ready to work with.
    fn did_load(&mut self, view: ListView) {
    }
}

} // verus!
