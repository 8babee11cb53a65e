//! The subclasses of the native text view, and the trampolines that the
//! toolkit's callbacks land in.

use crate::foundation::{native_bool, to_native_bool, ObjectRef, YES};
use crate::registry::{Callback, ClassDescriptor, ClassKey, ClassToken, Ivar, SubclassRegistry};
use crate::textview::TextViewDelegate;
use vstd::prelude::*;

verus! {

/// The native class that text views are derived from.
pub const BASE_CLASS: &'static str = "NSTextView";

/// The name of the subclass that views without a behaviour are built from.
pub const PLAIN_CLASS: &'static str = "RSTTextView";

/// The key of the subclass for views without a behaviour.
pub open spec fn plain_key() -> ClassKey {
    ClassKey { base: BASE_CLASS@, behavior: None }
}

/// The key of the subclass for the behaviour type `name`.
pub open spec fn delegate_key(name: Seq<char>) -> ClassKey {
    ClassKey { base: BASE_CLASS@, behavior: Some(name) }
}

/// What the subclass for views without a behaviour holds: the colour, and
/// a trampoline for the layer update, which paints with it.
pub open spec fn is_plain_descriptor(descriptor: ClassDescriptor) -> bool {
    &&& descriptor.key() == plain_key()
    &&& descriptor.host_name@ == PLAIN_CLASS@
    &&& descriptor.ivars@ == seq![Ivar::BackgroundColor]
    &&& descriptor.callbacks@ == seq![Callback::UpdateLayer]
}

/// What the subclass for views with a behaviour of type `name` holds: the
/// callback slot, the colour, and a trampoline for every callback that a
/// text view gets: the layer update, changes of the text, and the question
/// whether editing may begin.
pub open spec fn is_delegate_descriptor(descriptor: ClassDescriptor, name: Seq<char>) -> bool {
    &&& descriptor.key() == delegate_key(name)
    &&& descriptor.host_name@ == name + "_"@ + BASE_CLASS@
    &&& descriptor.ivars@ == seq![Ivar::TextViewDelegatePtr, Ivar::BackgroundColor]
    &&& descriptor.callbacks@ == seq![
        Callback::UpdateLayer,
        Callback::TextDidChange,
        Callback::TextShouldBeginEditing,
    ]
}

/// Called when the layer of a view is about to be drawn, with what the
/// view's colour field holds. Says which colour the layer gets, if any.
pub fn update_layer(background_color: ObjectRef) -> (color: Option<ObjectRef>)
    ensures
        color == (if background_color.addr == 0 {
            None
        } else {
            Some(background_color)
        }),
{
    if background_color.is_nil() {
        None
    } else {
        Some(background_color)
    }
}

/// Called when the text of a view has changed, with the behaviour that the
/// callback slot names and the new text. Tells the behaviour.
pub fn text_did_change<T: TextViewDelegate>(delegate: Option<&T>, value: &str)
    ensures
        delegate is Some ==> call_ensures(T::text_did_change, (delegate->0, value), ()),
{
    match delegate {
        Some(behavior) => behavior.text_did_change(value),
        None => {},
    }
}

/// What the toolkit is told when it asks whether editing may begin:
/// the behaviour's decision, and yes where there is none.
pub open spec fn begin_editing_reply_spec(decision: Option<bool>) -> i8 {
    match decision {
        Some(permit) => native_bool(permit),
        None => YES,
    }
}

/// Turns a behaviour's decision into the answer the toolkit gets.
pub fn begin_editing_reply(decision: Option<bool>) -> (reply: i8)
    ensures
        reply == begin_editing_reply_spec(decision),
{
    match decision {
        Some(permit) => to_native_bool(permit),
        None => YES,
    }
}

/// Called when the toolkit asks whether editing may begin, with the
/// behaviour that the callback slot names and the current text. Asks the
/// behaviour and answers for it; without a behaviour, editing may begin.
pub fn text_should_begin_editing<T: TextViewDelegate>(delegate: Option<&T>, value: &str) -> (reply: i8)
    ensures
        delegate is None ==> reply == YES,
        delegate is Some ==> exists|permit: bool|
            call_ensures(T::text_should_begin_editing, (delegate->0, value), permit) && reply
                == begin_editing_reply_spec(Some(permit)),
{
    match delegate {
        Some(behavior) => {
            let permit = behavior.text_should_begin_editing(value);
            begin_editing_reply(Some(permit))
        },
        None => begin_editing_reply(None),
    }
}

/// Hands out the subclass that text views without a behaviour are built
/// from. The host runtime is asked to declare it on the first call only;
/// `declare` does the asking, and ends the process where the host refuses.
pub fn register_textview_class<F: FnOnce(&ClassDescriptor) -> ClassToken>(
    registry: &mut SubclassRegistry,
    declare: F,
) -> (answer: ClassToken)
    requires
        forall|descriptor: ClassDescriptor|
            is_plain_descriptor(descriptor) ==> call_requires(declare, (&descriptor,)),
    ensures
        !old(registry)@.must_declare(plain_key()) ==> {
            &&& final(registry)@ == old(registry)@
            &&& answer == old(registry)@.classes[plain_key()]
        },
        old(registry)@.must_declare(plain_key()) ==> exists|descriptor: ClassDescriptor|
            {
                &&& is_plain_descriptor(descriptor)
                &&& call_ensures(declare, (&descriptor,), answer)
                &&& final(registry)@ == old(registry)@.settle(plain_key(), answer)
            },
{
    let descriptor = ClassDescriptor::plain(BASE_CLASS, PLAIN_CLASS);
    assert(is_plain_descriptor(descriptor));
    registry.load_or_register_class(&descriptor, declare)
}

/// Hands out the subclass that text views with the behaviour type of
/// `instance` are built from. The host runtime is asked to declare it on
/// the first call for that type only; `declare` does the asking, and ends
/// the process where the host refuses.
pub fn register_textview_class_with_delegate<
    T: TextViewDelegate,
    F: FnOnce(&ClassDescriptor) -> ClassToken,
>(registry: &mut SubclassRegistry, instance: &T, declare: F) -> (answer: ClassToken)
    requires
        forall|descriptor: ClassDescriptor|
            is_delegate_descriptor(descriptor, T::NAME@) ==> call_requires(declare, (&descriptor,)),
    ensures
        !old(registry)@.must_declare(delegate_key(T::NAME@)) ==> {
            &&& final(registry)@ == old(registry)@
            &&& answer == old(registry)@.classes[delegate_key(T::NAME@)]
        },
        old(registry)@.must_declare(delegate_key(T::NAME@)) ==> exists|descriptor: ClassDescriptor|
            {
                &&& is_delegate_descriptor(descriptor, T::NAME@)
                &&& call_ensures(declare, (&descriptor,), answer)
                &&& final(registry)@ == old(registry)@.settle(delegate_key(T::NAME@), answer)
            },
{
    let name = instance.subclass_name();
    let mut callbacks: Vec<Callback> = Vec::new();
    callbacks.push(Callback::UpdateLayer);
    callbacks.push(Callback::TextDidChange);
    callbacks.push(Callback::TextShouldBeginEditing);
    let descriptor = ClassDescriptor::with_slot(
        BASE_CLASS,
        name,
        Ivar::TextViewDelegatePtr,
        callbacks,
    );
    assert(descriptor.callbacks@ == seq![
        Callback::UpdateLayer,
        Callback::TextDidChange,
        Callback::TextShouldBeginEditing,
    ]);
    assert(is_delegate_descriptor(descriptor, T::NAME@));
    registry.load_or_register_class(&descriptor, declare)
}

} // verus!
