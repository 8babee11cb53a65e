//! Plain values that stand for what the native toolkit hands around.

use vstd::prelude::*;

verus! {

/// The toolkit's truth value for "yes".
pub const YES: i8 = 1;

/// The toolkit's truth value for "no".
pub const NO: i8 = 0;

/// The toolkit's truth value for a logical boolean.
pub open spec fn native_bool(value: bool) -> i8 {
    if value {
        YES
    } else {
        NO
    }
}

/// Turns a logical boolean into the toolkit's truth value.
pub fn to_native_bool(value: bool) -> (flag: i8)
    ensures
        flag == native_bool(value),
{
    if value {
        YES
    } else {
        NO
    }
}

/// Reads a toolkit truth value: everything but `NO` counts as true.
pub fn from_native_bool(flag: i8) -> (value: bool)
    ensures
        value == (flag != NO),
{
    flag != NO
}

/// The identity of a native object, held as the integer value of its address.
/// Address zero is the toolkit's `nil`.
#[derive(Clone, Copy, Debug, PartialEq, Eq, Structural)]
pub struct ObjectRef {
    pub addr: usize,
}

impl ObjectRef {
    pub open spec fn spec_is_nil(&self) -> bool {
        self.addr == 0
    }

    /// The reference that names no object.
    pub fn nil() -> (r: ObjectRef)
        ensures
            r.spec_is_nil(),
            r.addr == 0,
    {
        ObjectRef { addr: 0 }
    }

    /// The reference to the object at `addr`.
    pub fn at(addr: usize) -> (r: ObjectRef)
        ensures
            r.addr == addr,
    {
        ObjectRef { addr }
    }

    #[verifier::when_used_as_spec(spec_is_nil)]
    pub fn is_nil(&self) -> (r: bool)
        ensures
            r == self.spec_is_nil(),
    {
        self.addr == 0
    }
}

/// Collects what `item` gives for each index below `count`, in order. This
/// is how the items of a native array are turned into values: `item`
/// fetches the object at an index and converts it.
pub fn map_indices<T, F: Fn(usize) -> T>(count: usize, item: F) -> (items: Vec<T>)
    requires
        forall|index: usize| index < count ==> call_requires(item, (index,)),
    ensures
        items.len() == count,
        forall|index: usize|
            index < count ==> call_ensures(item, (index,), #[trigger] items[index as int]),
{
    let mut items: Vec<T> = Vec::new();
    let mut index: usize = 0;
    while index < count
        invariant
            index <= count,
            items.len() == index,
            forall|i: usize| i < count ==> call_requires(item, (i,)),
            forall|i: usize| i < index ==> call_ensures(item, (i,), #[trigger] items[i as int]),
        decreases count - index,
    {
        let value = item(index);
        items.push(value);
        index += 1;
    }
    items
}

} // verus!
