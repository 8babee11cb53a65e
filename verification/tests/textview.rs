use cacao::foundation::{from_native_bool, to_native_bool, ObjectRef, NO, YES};
use cacao::layout::{LayoutAnchors, NativeView};
use cacao::lifecycle::{BehaviorHandle, Ownership, Stage, ViewAction, ViewEvent, ViewState};
use cacao::registry::{Callback, ClassToken, Ivar, SubclassRegistry};
use cacao::textview::appkit::{
    begin_editing_reply, BASE_CLASS, PLAIN_CLASS, register_textview_class, register_textview_class_with_delegate,
    text_did_change, text_should_begin_editing, update_layer,
};
use cacao::textview::{IvarWrite, TextView, TextViewDelegate};
use std::cell::{Cell, RefCell};

fn native(base: usize) -> NativeView {
    NativeView {
        objc: ObjectRef { addr: base },
        layer: ObjectRef { addr: base + 1 },
        anchors: LayoutAnchors {
            safe_layout_guide: ObjectRef { addr: base + 2 },
            top: ObjectRef { addr: base + 3 },
            leading: ObjectRef { addr: base + 4 },
            left: ObjectRef { addr: base + 5 },
            trailing: ObjectRef { addr: base + 6 },
            right: ObjectRef { addr: base + 7 },
            bottom: ObjectRef { addr: base + 8 },
            width: ObjectRef { addr: base + 9 },
            height: ObjectRef { addr: base + 10 },
            center_x: ObjectRef { addr: base + 11 },
            center_y: ObjectRef { addr: base + 12 },
        },
    }
}

struct Logger {
    loaded: Vec<(usize, bool)>,
    changes: RefCell<Vec<String>>,
}

impl Logger {
    fn new() -> Logger {
        Logger { loaded: Vec::new(), changes: RefCell::new(Vec::new()) }
    }
}

impl TextViewDelegate for Logger {
    const NAME: &'static str = "Logger";

    fn did_load(&mut self, textview: TextView) {
        self.loaded.push((textview.objc.addr, textview.is_handle()));
    }

    fn text_did_change(&self, value: &str) {
        self.changes.borrow_mut().push(value.to_string());
    }
}

struct Picky;

impl TextViewDelegate for Picky {
    const NAME: &'static str = "Picky";

    fn text_should_begin_editing(&self, value: &str) -> bool {
        !value.is_empty()
    }
}

#[test]
fn two_views_one_class_and_their_own_behaviours() {
    let mut registry = SubclassRegistry::new();
    let declared = Cell::new(0u32);
    let first = Box::new(Logger::new());
    let class_a = register_textview_class_with_delegate(&mut registry, &*first, |descriptor| {
        declared.set(declared.get() + 1);
        assert_eq!(descriptor.base, "NSTextView");
        assert_eq!(descriptor.behavior.as_deref(), Some("Logger"));
        assert_eq!(descriptor.host_name, "Logger_NSTextView");
        assert_eq!(descriptor.ivars, vec![Ivar::TextViewDelegatePtr, Ivar::BackgroundColor]);
        assert_eq!(
            descriptor.callbacks,
            vec![Callback::UpdateLayer, Callback::TextDidChange, Callback::TextShouldBeginEditing]
        );
        ClassToken { id: 11 }
    });
    let a = TextView::with(first, native(100));
    let second = Box::new(Logger::new());
    let class_b = register_textview_class_with_delegate(&mut registry, &*second, |_| {
        declared.set(declared.get() + 1);
        ClassToken { id: 12 }
    });
    let b = TextView::with(second, native(200));
    assert_eq!(class_a, ClassToken { id: 11 });
    assert_eq!(class_b, class_a);
    assert_eq!(declared.get(), 1);
    assert_eq!(registry.declarations(), 1);
    assert_eq!(registry.load("NSTextView", Some("Logger")), Some(ClassToken { id: 11 }));

    text_did_change(a.delegate.as_deref(), "hello");
    let a_log = a.delegate.as_ref().unwrap().changes.borrow().clone();
    let b_log = b.delegate.as_ref().unwrap().changes.borrow().clone();
    assert_eq!(a_log, vec!["hello".to_string()]);
    assert!(b_log.is_empty());

    text_did_change(b.delegate.as_deref(), "world");
    let a_log = a.delegate.as_ref().unwrap().changes.borrow().clone();
    let b_log = b.delegate.as_ref().unwrap().changes.borrow().clone();
    assert_eq!(a_log, vec!["hello".to_string()]);
    assert_eq!(b_log, vec!["world".to_string()]);
}

#[test]
fn edit_begin_follows_the_behaviour() {
    let view = TextView::with(Box::new(Picky), native(300));
    assert_eq!(text_should_begin_editing(view.delegate.as_deref(), ""), NO);
    assert_eq!(text_should_begin_editing(view.delegate.as_deref(), "x"), YES);
    assert!(!from_native_bool(text_should_begin_editing(view.delegate.as_deref(), "")));
    assert!(from_native_bool(text_should_begin_editing(view.delegate.as_deref(), "x")));
}

#[test]
fn edit_begin_is_permitted_by_default() {
    let logger = Logger::new();
    assert_eq!(text_should_begin_editing(Some(&logger), ""), YES);
    assert_eq!(text_should_begin_editing(Some(&logger), "anything"), YES);
    assert_eq!(text_should_begin_editing::<Logger>(None, ""), YES);
    assert_eq!(text_should_begin_editing::<Picky>(None, ""), YES);
}

#[test]
fn text_change_without_behaviour_does_nothing() {
    text_did_change::<Logger>(None, "ignored");
    let handle = TextView::new(native(1)).clone_as_handle();
    assert!(handle.delegate.is_none());
}

#[test]
fn reply_values() {
    assert_eq!(begin_editing_reply(Some(true)), 1);
    assert_eq!(begin_editing_reply(Some(false)), 0);
    assert_eq!(begin_editing_reply(None), 1);
    assert_eq!(to_native_bool(true), 1);
    assert_eq!(to_native_bool(false), 0);
    assert_eq!(YES, 1);
    assert_eq!(NO, 0);
    assert!(from_native_bool(1));
    assert!(!from_native_bool(0));
    assert!(from_native_bool(-1));
    assert!(from_native_bool(2));
}

#[test]
fn did_load_is_called_once_with_a_handle() {
    let view = TextView::with(Box::new(Logger::new()), native(400));
    let delegate = view.delegate.as_ref().unwrap();
    assert_eq!(delegate.loaded, vec![(400, true)]);
    assert!(!view.is_handle());
    assert_eq!(view.ownership, Ownership::Owned);
    assert_eq!(view.objc, ObjectRef { addr: 400 });
    assert_eq!(view.layer, ObjectRef { addr: 401 });
    assert_eq!(view.anchors, native(400).anchors);
}

#[test]
fn handle_clone_shares_the_view_and_owns_nothing() {
    let view = TextView::with(Box::new(Logger::new()), native(500));
    let handle = view.clone_as_handle();
    assert!(handle.is_handle());
    assert_eq!(handle.ownership, Ownership::Borrowed);
    assert_eq!(BehaviorHandle::from_slot(0), None);
    assert_eq!(BehaviorHandle::from_slot(64), Some(BehaviorHandle { addr: 64 }));
    assert!(handle.delegate.is_none());
    assert_eq!(handle.objc, view.objc);
    assert_eq!(handle.layer, view.layer);
    assert_eq!(handle.anchors, view.anchors);
    let again = handle.clone_as_handle();
    assert!(again.is_handle());
    assert_eq!(again.objc, view.objc);
    assert_eq!(handle.drop_event(), ViewEvent::WrapperDropped(Ownership::Borrowed));
    assert_eq!(view.drop_event(), ViewEvent::WrapperDropped(Ownership::Owned));
    drop(handle);
    assert!(view.delegate.is_some());
    assert_eq!(view.objc, ObjectRef { addr: 500 });
}

#[test]
fn plain_view() {
    let view = TextView::new(native(600));
    assert!(!view.is_handle());
    assert!(view.delegate.is_none());
    assert_eq!(view.objc, ObjectRef { addr: 600 });
    let other: TextView<Logger> = TextView::init(native(700));
    assert!(other.delegate.is_none());
    assert_eq!(other.ownership, Ownership::Owned);
    assert_eq!(other.layer, ObjectRef { addr: 701 });
}

#[test]
fn plain_class_is_declared_once() {
    let mut registry = SubclassRegistry::new();
    let declared = Cell::new(0u32);
    for _ in 0..3 {
        let class = register_textview_class(&mut registry, |descriptor| {
            declared.set(declared.get() + 1);
            assert_eq!(descriptor.base, "NSTextView");
            assert_eq!(descriptor.behavior, None);
            assert_eq!(descriptor.host_name, "RSTTextView");
            assert_eq!(descriptor.ivars, vec![Ivar::BackgroundColor]);
            assert_eq!(descriptor.callbacks, vec![Callback::UpdateLayer]);
            ClassToken { id: 21 }
        });
        assert_eq!(class, ClassToken { id: 21 });
    }
    assert_eq!(declared.get(), 1);
    assert_eq!(registry.load("NSTextView", None), Some(ClassToken { id: 21 }));
}

#[test]
fn edit_begin_is_among_the_callbacks_of_the_class() {
    let mut registry = SubclassRegistry::new();
    let mut selectors: Vec<&'static str> = Vec::new();
    register_textview_class_with_delegate(&mut registry, &Picky, |descriptor| {
        for callback in descriptor.callbacks.iter() {
            selectors.push(callback.selector());
        }
        ClassToken { id: 31 }
    });
    assert_eq!(selectors, vec!["updateLayer", "textDidChange:", "textShouldBeginEditing:"]);
    assert_eq!(registry.load("NSTextView", Some("Picky")), Some(ClassToken { id: 31 }));
}

#[test]
fn behaviour_types_get_classes_of_their_own() {
    let mut registry = SubclassRegistry::new();
    let logger = register_textview_class_with_delegate(&mut registry, &Logger::new(), |_| ClassToken { id: 1 });
    let picky = register_textview_class_with_delegate(&mut registry, &Picky, |_| ClassToken { id: 2 });
    assert_eq!(logger, ClassToken { id: 1 });
    assert_eq!(picky, ClassToken { id: 2 });
    assert_eq!(registry.declarations(), 2);
}

#[test]
fn class_names() {
    assert_eq!(BASE_CLASS, "NSTextView");
    assert_eq!(PLAIN_CLASS, "RSTTextView");
}

#[test]
fn layer_colour() {
    assert_eq!(update_layer(ObjectRef::nil()), None);
    assert_eq!(update_layer(ObjectRef::at(0)), None);
    assert_eq!(update_layer(ObjectRef::at(77)), Some(ObjectRef { addr: 77 }));
    assert!(ObjectRef::nil().is_nil());
    assert!(!ObjectRef::at(3).is_nil());
}

#[test]
fn background_colour_write() {
    let view = TextView::new(native(800));
    let write = view.set_background_color(ObjectRef::at(9));
    assert_eq!(
        write,
        IvarWrite { object: ObjectRef { addr: 800 }, ivar: Ivar::BackgroundColor, value: ObjectRef { addr: 9 } }
    );
}

#[test]
fn construction_announces_the_view_once() {
    let mut state = ViewState::new();
    let behavior = BehaviorHandle { addr: 0xbeef };
    let view = TextView::construct(&mut state, Box::new(Logger::new()), behavior, native(900));
    assert_eq!(view.delegate.as_ref().unwrap().loaded, vec![(900, true)]);
    assert_eq!(state.stage(), Stage::Ready);
    assert_eq!(state.slot(), Some(behavior));
    assert!(!view.is_handle());

    let again = TextView::construct(&mut state, Box::new(Logger::new()), BehaviorHandle { addr: 1 }, native(901));
    assert!(again.delegate.as_ref().unwrap().loaded.is_empty());
    assert_eq!(state.slot(), Some(behavior));
    assert_eq!(state.stage(), Stage::Ready);
    assert_eq!(again.objc, ObjectRef { addr: 901 });
}

#[test]
fn construction_after_drop_announces_nothing() {
    let mut state = ViewState::new();
    assert_eq!(state.handle(ViewEvent::WrapperDropped(Ownership::Owned)), ViewAction::RemoveFromSuperview);
    let view = TextView::construct(&mut state, Box::new(Logger::new()), BehaviorHandle { addr: 2 }, native(902));
    assert!(view.delegate.as_ref().unwrap().loaded.is_empty());
    assert_eq!(state.stage(), Stage::Dropped);
    assert_eq!(state.slot(), None);
}

#[test]
fn dropping_a_handle_of_a_live_view() {
    let mut state = ViewState::new();
    let behavior = BehaviorHandle { addr: 3 };
    let view = TextView::construct(&mut state, Box::new(Logger::new()), behavior, native(903));
    let handle = view.clone_as_handle();
    assert_eq!(state.handle(handle.drop_event()), ViewAction::Nothing);
    assert_eq!(state.stage(), Stage::Ready);
    assert_eq!(state.slot(), Some(behavior));
    text_did_change(view.delegate.as_deref(), "still here");
    assert_eq!(view.delegate.as_ref().unwrap().changes.borrow().len(), 1);
    assert_eq!(state.handle(view.drop_event()), ViewAction::RemoveFromSuperview);
    assert_eq!(state.stage(), Stage::Dropped);
}

#[test]
fn subclass_name_is_the_name_of_the_type() {
    assert_eq!(Logger::new().subclass_name(), "Logger");
    assert_eq!(Picky.subclass_name(), "Picky");
    assert_eq!(Logger::NAME, "Logger");
    assert_eq!(Picky::NAME, "Picky");
}

struct Impostor;

impl TextViewDelegate for Impostor {
    const NAME: &'static str = "RSTTextView";
}

#[test]
fn a_behaviour_type_named_like_the_plain_class_gets_its_own_class() {
    let mut registry = SubclassRegistry::new();
    let plain = register_textview_class(&mut registry, |_| ClassToken { id: 41 });
    let mut asked = 0;
    let backed = register_textview_class_with_delegate(&mut registry, &Impostor, |descriptor| {
        asked += 1;
        assert_eq!(descriptor.host_name, "RSTTextView_NSTextView");
        assert_eq!(descriptor.ivars, vec![Ivar::TextViewDelegatePtr, Ivar::BackgroundColor]);
        ClassToken { id: 42 }
    });
    assert_eq!(plain, ClassToken { id: 41 });
    assert_eq!(backed, ClassToken { id: 42 });
    assert_eq!(asked, 1);
    assert_eq!(registry.declarations(), 2);
    assert_eq!(register_textview_class(&mut registry, |_| ClassToken { id: 43 }), ClassToken { id: 41 });
}

struct Ordered {
    calls: RefCell<Vec<&'static str>>,
}

impl TextViewDelegate for Ordered {
    const NAME: &'static str = "Ordered";

    fn did_load(&mut self, textview: TextView) {
        assert!(textview.is_handle());
        assert!(textview.delegate.is_none());
        self.calls.borrow_mut().push("did_load");
    }

    fn text_did_change(&self, _value: &str) {
        self.calls.borrow_mut().push("text_did_change");
    }

    fn text_should_begin_editing(&self, _value: &str) -> bool {
        self.calls.borrow_mut().push("text_should_begin_editing");
        true
    }
}

#[test]
fn did_load_comes_first_and_once() {
    let view = TextView::with(Box::new(Ordered { calls: RefCell::new(Vec::new()) }), native(950));
    assert_eq!(*view.delegate.as_ref().unwrap().calls.borrow(), vec!["did_load"]);
    text_did_change(view.delegate.as_deref(), "a");
    text_should_begin_editing(view.delegate.as_deref(), "a");
    let handle = view.clone_as_handle();
    let again = handle.clone_as_handle();
    drop(again);
    drop(handle);
    text_did_change(view.delegate.as_deref(), "b");
    assert_eq!(
        *view.delegate.as_ref().unwrap().calls.borrow(),
        vec!["did_load", "text_did_change", "text_should_begin_editing", "text_did_change"]
    );
}
