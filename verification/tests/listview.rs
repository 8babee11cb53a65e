use cacao::foundation::ObjectRef;
use cacao::layout::LayoutAnchors;
use cacao::listview::{CellFactory, Dequeued, ListView, ListViewDelegate, NativeListView};

fn anchors(base: usize) -> LayoutAnchors {
    LayoutAnchors {
        safe_layout_guide: ObjectRef { addr: base },
        top: ObjectRef { addr: base + 1 },
        leading: ObjectRef { addr: base + 2 },
        left: ObjectRef { addr: base + 3 },
        trailing: ObjectRef { addr: base + 4 },
        right: ObjectRef { addr: base + 5 },
        bottom: ObjectRef { addr: base + 6 },
        width: ObjectRef { addr: base + 7 },
        height: ObjectRef { addr: base + 8 },
        center_x: ObjectRef { addr: base + 9 },
        center_y: ObjectRef { addr: base + 10 },
    }
}

fn native(base: usize) -> NativeListView {
    NativeListView {
        objc: ObjectRef { addr: base },
        scrollview: ObjectRef { addr: base + 50 },
        anchors: anchors(base + 100),
    }
}

struct Rows {
    loaded: Vec<(usize, usize)>,
}

impl ListViewDelegate for Rows {
    const NAME: &'static str = "Rows";

    fn did_load(&mut self, view: ListView) {
        self.loaded.push((view.objc.addr, view.scrollview.addr));
    }
}

#[test]
fn cell_factory_keeps_one_vendor_per_identifier() {
    let mut factory: CellFactory<u32> = CellFactory::new();
    assert_eq!(factory.get("row"), None);
    factory.insert("row", 1);
    factory.insert("header", 2);
    assert_eq!(factory.get("row"), Some(&1));
    assert_eq!(factory.get("header"), Some(&2));
    factory.insert("row", 3);
    assert_eq!(factory.get("row"), Some(&3));
    assert_eq!(factory.get("header"), Some(&2));
    assert_eq!(factory.get("footer"), None);
    assert_eq!(factory.get(""), None);
}

#[test]
fn register_then_dequeue() {
    let mut list: ListView<(), fn() -> u32> = ListView::new(native(10));
    fn seven() -> u32 {
        7
    }
    fn eight() -> u32 {
        8
    }
    list.register("row", seven);
    match list.dequeue("row", ObjectRef::nil()) {
        Some(Dequeued::Vended(vendor)) => assert_eq!(vendor(), 7),
        _ => panic!("a vendor was registered"),
    }
    list.register("row", eight);
    match list.dequeue("row", ObjectRef::nil()) {
        Some(Dequeued::Vended(vendor)) => assert_eq!(vendor(), 8),
        _ => panic!("a vendor was registered"),
    }
    match list.dequeue("row", ObjectRef::at(99)) {
        Some(Dequeued::Cached(cell)) => assert_eq!(cell, ObjectRef { addr: 99 }),
        _ => panic!("the toolkit had a row to reuse"),
    }
    match list.dequeue("other", ObjectRef::at(98)) {
        Some(Dequeued::Cached(cell)) => assert_eq!(cell, ObjectRef { addr: 98 }),
        _ => panic!("the toolkit had a row to reuse"),
    }
    assert!(list.dequeue("other", ObjectRef::nil()).is_none());
    assert_eq!(list.objc, ObjectRef { addr: 10 });
    assert_eq!(list.scrollview, ObjectRef { addr: 60 });
}

#[test]
fn list_handle_has_no_behaviour_and_no_vendors() {
    let mut list: ListView<Rows, u8> = ListView::with(Box::new(Rows { loaded: Vec::new() }), native(20));
    list.register("row", 5);
    let handle = list.clone_as_handle();
    assert!(handle.delegate.is_none());
    assert_eq!(handle.objc, list.objc);
    assert_eq!(handle.scrollview, list.scrollview);
    assert_eq!(handle.anchors, list.anchors);
    assert!(handle.dequeue("row", ObjectRef::nil()).is_none());
    assert!(list.dequeue("row", ObjectRef::nil()).is_some());
}

#[test]
fn list_did_load_is_called_once() {
    let list: ListView<Rows, u8> = ListView::with(Box::new(Rows { loaded: Vec::new() }), native(30));
    assert_eq!(list.delegate.as_ref().unwrap().loaded, vec![(30, 80)]);
    assert_eq!(list.anchors, anchors(130));
    assert!(list.dequeue("row", ObjectRef::nil()).is_none());
}

#[test]
fn list_subclass_name_is_the_name_of_the_type() {
    let rows = Rows { loaded: Vec::new() };
    assert_eq!(rows.subclass_name(), "Rows");
    assert_eq!(Rows::NAME, "Rows");
}

struct Counting {
    loads: u32,
    handles_without_delegate: u32,
}

impl ListViewDelegate for Counting {
    const NAME: &'static str = "Counting";

    fn did_load(&mut self, view: ListView) {
        self.loads += 1;
        if view.delegate.is_none() && view.dequeue("row", ObjectRef::nil()).is_none() {
            self.handles_without_delegate += 1;
        }
    }
}

#[test]
fn list_did_load_count_is_one() {
    let list: ListView<Counting, u8> =
        ListView::with(Box::new(Counting { loads: 0, handles_without_delegate: 0 }), native(40));
    let delegate = list.delegate.as_ref().unwrap();
    assert_eq!(delegate.loads, 1);
    assert_eq!(delegate.handles_without_delegate, 1);
    let handle = list.clone_as_handle();
    drop(handle);
    assert_eq!(list.delegate.as_ref().unwrap().loads, 1);
}
