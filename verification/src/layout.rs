//! The layout anchors of a native view, and what a freshly built native
//! view consists of.

use crate::foundation::ObjectRef;
use vstd::prelude::*;

verus! {

/// The anchors a view is laid out by. Each is the identity of a native
/// anchor object.
#[derive(Clone, Copy, Debug, PartialEq, Eq, Structural)]
pub struct LayoutAnchors {
    pub safe_layout_guide: ObjectRef,
    pub top: ObjectRef,
    pub leading: ObjectRef,
    pub left: ObjectRef,
    pub trailing: ObjectRef,
    pub right: ObjectRef,
    pub bottom: ObjectRef,
    pub width: ObjectRef,
    pub height: ObjectRef,
    pub center_x: ObjectRef,
    pub center_y: ObjectRef,
}

/// A native view as the host hands it over once it is built: the view
/// object, its backing layer, and its anchors.
#[derive(Clone, Copy, Debug, PartialEq, Eq, Structural)]
pub struct NativeView {
    pub objc: ObjectRef,
    pub layer: ObjectRef,
    pub anchors: LayoutAnchors,
}

} // verus!
