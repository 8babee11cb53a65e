//! The behaviour of a text view.

use crate::textview::TextView;
use vstd::prelude::*;

verus! {

/// Implement this on a type of your own to give a text view its behaviour.
/// The view keeps the value for as long as it lives and hands it every
/// event of the native view.
pub trait TextViewDelegate {
    /// The name the generated subclass is registered under. It must differ
    /// from that of every other behaviour type.
    const NAME: &'static str;

    /// Hands out `NAME`. There is rarely a reason to write this oneself;
    /// whoever does hands out `NAME` as well, since the name is what the
    /// subclass of this type is found again by.
    fn subclass_name(&self) -> (name: &'static str)
        ensures
            name@ == Self::NAME@,
    {
        Self::NAME
    }

    /// Called once, when the view is ready to work with. The handle may be
    /// kept and used for as long as the view lives, on the main thread.
    fn did_load(&mut self, textview: TextView) {
    }

    /// Called when the text of the view has changed.
    fn text_did_change(&self, value: &str) {
    }

    /// Asked before editing begins. The answer decides whether it may.
    fn text_should_begin_editing(&self, value: &str) -> bool {
        true
    }
}

} // verus!
